use near_cli::keychain::{
    fingerprint, key_matches, select_key_file, AccessKey, AccessKeyPermission, KeychainEntry,
};

const SECRET_KEY: &str = "ed25519:3D4YudUahN1nawWogh8pAKSj92sUNMdbZGjn7kERKzYoTy8tnFQuwoGUC51DowKqorvkr2pytJSnwuSbsNVfqygr";
const PUBLIC_KEY: &str = "ed25519:6DSjZ8mvsRZDvFqFxo8tCKePG96omXW7eVYVSySmDk8e";

fn full_access(public_key: &str) -> AccessKey {
    AccessKey { public_key: public_key.to_string(), permission: AccessKeyPermission::FullAccess }
}

fn function_call(public_key: &str) -> AccessKey {
    AccessKey { public_key: public_key.to_string(), permission: AccessKeyPermission::FunctionCall }
}

fn names(list: &[&str]) -> Vec<String> {
    list.iter().map(|name| name.to_string()).collect()
}

#[test]
fn fingerprint_is_what_follows_the_curve() {
    assert_eq!(fingerprint(PUBLIC_KEY), "6DSjZ8mvsRZDvFqFxo8tCKePG96omXW7eVYVSySmDk8e");
    assert_eq!(fingerprint("AbC"), "AbC");
    assert_eq!(fingerprint("secp256k1:XyZ"), "XyZ");
}

#[test]
fn key_matches_a_file_named_by_its_fingerprint() {
    assert!(key_matches(&full_access("ed25519:AbC"), "ed25519_AbC.json"));
    assert!(key_matches(&full_access("ed25519:AbC"), "ed25519:AbC.json"));
    assert!(key_matches(&full_access("ed25519:AbC"), "AbC"));
    assert!(!key_matches(&full_access("ed25519:AbC"), "ed25519_XyZ.json"));
    assert!(!key_matches(&full_access("ed25519:json"), "ed25519_XyZ.json"));
}

#[test]
fn function_call_key_matches_no_file() {
    assert!(!key_matches(&function_call("ed25519:AbC"), "ed25519_AbC.json"));
}

#[test]
fn keychain_selects_the_one_file_of_a_full_access_key() {
    let keys = vec![full_access("ed25519:AbC")];
    let files = names(&["ed25519_XyZ.json", "ed25519_AbC.json"]);
    assert_eq!(select_key_file(&keys, &files), Some(1));
    let files = names(&["ed25519_AbC.json", "ed25519_XyZ.json"]);
    assert_eq!(select_key_file(&keys, &files), Some(0));
}

#[test]
fn keychain_selects_nothing_if_no_file_matches() {
    let keys = vec![full_access("ed25519:AbC")];
    let files = names(&["ed25519_XyZ.json", "ed25519_Def.json"]);
    assert_eq!(select_key_file(&keys, &files), None);
}

#[test]
fn keychain_never_selects_the_file_of_a_function_call_key() {
    let keys = vec![function_call("ed25519:AbC"), full_access("ed25519:XyZ")];
    let files = names(&["ed25519_AbC.json", "ed25519_XyZ.json"]);
    assert_eq!(select_key_file(&keys, &files), Some(1));
    let keys = vec![function_call("ed25519:AbC")];
    assert_eq!(select_key_file(&keys, &files), None);
}

#[test]
fn keychain_goes_through_the_keys_first() {
    let keys = vec![full_access("ed25519:XyZ"), full_access("ed25519:AbC")];
    let files = names(&["ed25519_AbC.json", "ed25519_XyZ.json"]);
    assert_eq!(select_key_file(&keys, &files), Some(1));
    let keys = vec![full_access("ed25519:AbC"), full_access("ed25519:XyZ")];
    assert_eq!(select_key_file(&keys, &files), Some(0));
}

#[test]
fn keychain_takes_the_first_of_two_files_of_one_key() {
    let keys = vec![full_access("ed25519:AbC")];
    let files = names(&["other.json", "copy_of_AbC.json", "ed25519_AbC.json"]);
    assert_eq!(select_key_file(&keys, &files), Some(1));
}

#[test]
fn keychain_without_keys_or_files_selects_nothing() {
    assert_eq!(select_key_file(&vec![], &names(&["ed25519_AbC.json"])), None);
    assert_eq!(select_key_file(&vec![full_access("ed25519:AbC")], &vec![]), None);
    assert_eq!(select_key_file(&vec![], &vec![]), None);
}

#[test]
fn key_without_fingerprint_matches_every_file() {
    let keys = vec![full_access("ed25519:")];
    let files = names(&["anything.json"]);
    assert_eq!(select_key_file(&keys, &files), Some(0));
}

#[test]
fn entry_is_the_key_of_its_account() {
    let entry = KeychainEntry {
        account_id: "alice.test".to_string(),
        public_key: PUBLIC_KEY.to_string(),
        private_key: SECRET_KEY.to_string(),
    };
    assert!(entry.is_key_of(&"alice.test".to_string()));
}

#[test]
fn entry_of_another_account_is_refused() {
    let entry = KeychainEntry {
        account_id: "alice.test".to_string(),
        public_key: PUBLIC_KEY.to_string(),
        private_key: SECRET_KEY.to_string(),
    };
    assert!(!entry.is_key_of(&"bob.test".to_string()));
    assert!(!entry.is_key_of(&"".to_string()));
}

#[test]
fn entry_with_a_public_key_of_another_private_key_is_refused() {
    let other = near_crypto::SecretKey::from_seed(near_crypto::KeyType::ED25519, "other");
    let entry = KeychainEntry {
        account_id: "alice.test".to_string(),
        public_key: other.public_key().to_string(),
        private_key: SECRET_KEY.to_string(),
    };
    assert!(!entry.is_key_of(&"alice.test".to_string()));
    let entry = KeychainEntry {
        account_id: "alice.test".to_string(),
        public_key: SECRET_KEY.to_string(),
        private_key: SECRET_KEY.to_string(),
    };
    assert!(!entry.is_key_of(&"alice.test".to_string()));
}

#[test]
fn entry_without_a_private_key_is_refused() {
    let entry = KeychainEntry {
        account_id: "alice.test".to_string(),
        public_key: PUBLIC_KEY.to_string(),
        private_key: "ed25519:not-a-key".to_string(),
    };
    assert!(!entry.is_key_of(&"alice.test".to_string()));
    let entry = KeychainEntry {
        account_id: "alice.test".to_string(),
        public_key: "".to_string(),
        private_key: "".to_string(),
    };
    assert!(!entry.is_key_of(&"alice.test".to_string()));
}

#[test]
fn entry_of_a_generated_key_pair_is_accepted() {
    for key_type in [near_crypto::KeyType::ED25519, near_crypto::KeyType::SECP256K1] {
        let secret_key = near_crypto::SecretKey::from_seed(key_type, "alice");
        let entry = KeychainEntry {
            account_id: "alice.test".to_string(),
            public_key: secret_key.public_key().to_string(),
            private_key: secret_key.to_string(),
        };
        assert!(entry.is_key_of(&"alice.test".to_string()));
    }
}
