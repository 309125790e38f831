//! The keys that are kept in files, and the choice among them.

use crate::common::{opt_text, texts};
use crate::text::{contains, file_stem, file_stem_of, last_segment, last_segment_of, text_contains};
use std::str::FromStr;
use vstd::prelude::*;
use vstd::string::*;

verus! {

/// A key record as a key file holds it. The keys are texts as `near_crypto`
/// displays keys: the name of the curve, a colon, and the key in base58.
#[derive(Clone, Debug, PartialEq, Eq)]
pub struct KeychainEntry {
    pub account_id: String,
    pub public_key: String,
    pub private_key: String,
}

/// Mathematical model of a [`KeychainEntry`].
pub struct KeychainEntryModel {
    pub account_id: Seq<char>,
    pub public_key: Seq<char>,
    pub private_key: Seq<char>,
}

impl View for KeychainEntry {
    type V = KeychainEntryModel;

    open spec fn view(&self) -> KeychainEntryModel {
        KeychainEntryModel {
            account_id: self.account_id@,
            public_key: self.public_key@,
            private_key: self.private_key@,
        }
    }
}

/// The text of the public key that belongs to the private key with the given
/// text, as `near_crypto` derives and displays it; `None` where the text is
/// not that of a private key.
pub uninterp spec fn derived_public_key(private_key: Seq<char>) -> Option<Seq<char>>;

/// Parses the private key with `near_crypto::SecretKey::from_str`, derives its
/// public key with `SecretKey::public_key` and writes that with its
/// `Display`. What comes out depends on the text alone; it is not stated
/// here, only named.
#[verifier::external_body]
fn derive_public_key(private_key: &str) -> (public_key: Option<String>)
    ensures
        opt_text(public_key) == derived_public_key(private_key@),
{
    match near_crypto::SecretKey::from_str(private_key) {
        Ok(secret_key) => Some(secret_key.public_key().to_string()),
        Err(_) => None,
    }
}

impl KeychainEntryModel {
    /// The record is the key of the account: it names the account as its
    /// own, and its public key is the one that belongs to its private key.
    pub open spec fn is_key_of(self, account_id: Seq<char>) -> bool {
        self.account_id == account_id && derived_public_key(self.private_key) == Some(
            self.public_key,
        )
    }
}

impl KeychainEntry {
    /// Says whether the record is the key of the account.
    pub fn is_key_of(&self, account_id: &String) -> (valid: bool)
        ensures
            valid == self@.is_key_of(account_id@),
    {
        if self.account_id != *account_id {
            return false;
        }
        match derive_public_key(self.private_key.as_str()) {
            Some(public_key) => public_key == self.public_key,
            None => false,
        }
    }
}

/// What came of reading a key file.
#[derive(Clone, Debug, PartialEq, Eq)]
pub enum KeyFile {
    /// There is no file at the path.
    Missing,
    /// The file does not hold a key record.
    Malformed,
    /// The record that the file holds.
    Entry(KeychainEntry),
}

/// Mathematical model of a [`KeyFile`].
pub enum KeyFileModel {
    Missing,
    Malformed,
    Entry(KeychainEntryModel),
}

impl View for KeyFile {
    type V = KeyFileModel;

    open spec fn view(&self) -> KeyFileModel {
        match self {
            KeyFile::Missing => KeyFileModel::Missing,
            KeyFile::Malformed => KeyFileModel::Malformed,
            KeyFile::Entry(entry) => KeyFileModel::Entry(entry@),
        }
    }
}

impl KeyFileModel {
    /// The file holds the key of the account.
    pub open spec fn is_record_of(self, account_id: Seq<char>) -> bool {
        self matches KeyFileModel::Entry(entry) && entry.is_key_of(account_id)
    }
}

/// What an access key may be used for.
#[derive(Clone, Copy, Debug, PartialEq, Eq, Structural)]
pub enum AccessKeyPermission {
    /// Calls of some methods of one contract only.
    FunctionCall,
    /// Everything.
    FullAccess,
}

/// An access key of an account, as the network lists it.
#[derive(Clone, Debug, PartialEq, Eq)]
pub struct AccessKey {
    /// The public key, with the name of its curve in front.
    pub public_key: String,
    pub permission: AccessKeyPermission,
}

/// Mathematical model of an [`AccessKey`].
pub struct AccessKeyModel {
    pub public_key: Seq<char>,
    pub permission: AccessKeyPermission,
}

impl View for AccessKey {
    type V = AccessKeyModel;

    open spec fn view(&self) -> AccessKeyModel {
        AccessKeyModel { public_key: self.public_key@, permission: self.permission }
    }
}

/// The models of a sequence of access keys.
pub open spec fn access_key_models(keys: Seq<AccessKey>) -> Seq<AccessKeyModel> {
    Seq::new(keys.len(), |i: int| keys[i]@)
}

/// The part of a public key that a key file carries in its name: what follows
/// the last colon.
pub open spec fn fingerprint_of(public_key: Seq<char>) -> Seq<char> {
    last_segment_of(public_key, ':')
}

/// The file is one for the key: the key has full access, and the stem of the
/// file's name holds the key's fingerprint.
pub open spec fn key_matches_file(key: AccessKeyModel, file_name: Seq<char>) -> bool {
    key.permission == AccessKeyPermission::FullAccess && text_contains(
        file_stem_of(file_name),
        fingerprint_of(key.public_key),
    )
}

/// The pair of key `i` and file `j` is the first that matches, going through
/// the keys in their order and, for each key, through the files in theirs.
pub open spec fn is_first_match(
    keys: Seq<AccessKeyModel>,
    file_names: Seq<Seq<char>>,
    i: int,
    j: int,
) -> bool {
    &&& 0 <= i < keys.len()
    &&& 0 <= j < file_names.len()
    &&& key_matches_file(keys[i], file_names[j])
    &&& forall|a: int, b: int|
        0 <= a < keys.len() && 0 <= b < file_names.len() && (a < i || (a == i && b < j))
            ==> !key_matches_file(#[trigger] keys[a], #[trigger] file_names[b])
}

/// The file that is chosen: that of the first matching pair, if any pair
/// matches.
pub open spec fn selected_file(keys: Seq<AccessKeyModel>, file_names: Seq<Seq<char>>) -> Option<
    int,
> {
    if exists|i: int, j: int| is_first_match(keys, file_names, i, j) {
        let (i, j) = choose|i: int, j: int| is_first_match(keys, file_names, i, j);
        Some(j)
    } else {
        None
    }
}

/// There is one first match at most.
pub proof fn first_match_is_selected(
    keys: Seq<AccessKeyModel>,
    file_names: Seq<Seq<char>>,
    i: int,
    j: int,
)
    requires
        is_first_match(keys, file_names, i, j),
    ensures
        selected_file(keys, file_names) == Some(j),
{
    let (a, b) = choose|a: int, b: int| is_first_match(keys, file_names, a, b);
    assert(is_first_match(keys, file_names, a, b));
    if a < i || (a == i && b < j) {
        assert(!key_matches_file(keys[a], file_names[b]));
    } else if i < a || (i == a && j < b) {
        assert(!key_matches_file(keys[i], file_names[j]));
    }
}

/// The file that is chosen is that of a key with full access: a key that is
/// restricted to function calls never has its file chosen.
pub proof fn selected_file_is_of_a_full_access_key(
    keys: Seq<AccessKeyModel>,
    file_names: Seq<Seq<char>>,
)
    requires
        selected_file(keys, file_names) is Some,
    ensures
        0 <= selected_file(keys, file_names)->Some_0 < file_names.len(),
        exists|i: int|
            0 <= i < keys.len() && (#[trigger] keys[i]).permission
                == AccessKeyPermission::FullAccess && key_matches_file(
                keys[i],
                file_names[selected_file(keys, file_names)->Some_0],
            ),
{
    let (i, j) = choose|i: int, j: int| is_first_match(keys, file_names, i, j);
    assert(is_first_match(keys, file_names, i, j));
    assert(keys[i].permission == AccessKeyPermission::FullAccess);
}

/// Where no file matches a key, none is chosen.
pub proof fn no_match_selects_nothing(keys: Seq<AccessKeyModel>, file_names: Seq<Seq<char>>)
    requires
        forall|i: int, j: int|
            0 <= i < keys.len() && 0 <= j < file_names.len() ==> !key_matches_file(
                #[trigger] keys[i],
                #[trigger] file_names[j],
            ),
    ensures
        selected_file(keys, file_names) is None,
{
    if exists|i: int, j: int| is_first_match(keys, file_names, i, j) {
        let (i, j) = choose|i: int, j: int| is_first_match(keys, file_names, i, j);
        assert(key_matches_file(keys[i], file_names[j]));
    }
}

/// Where one file alone matches any key, that file is chosen: the file of a
/// key that the network lists with full access is told from every other file
/// of the account.
pub proof fn lone_match_is_selected(
    keys: Seq<AccessKeyModel>,
    file_names: Seq<Seq<char>>,
    j: int,
)
    requires
        0 <= j < file_names.len(),
        exists|i: int| 0 <= i < keys.len() && key_matches_file(#[trigger] keys[i], file_names[j]),
        forall|i: int, b: int|
            0 <= i < keys.len() && 0 <= b < file_names.len() && b != j ==> !key_matches_file(
                #[trigger] keys[i],
                #[trigger] file_names[b],
            ),
    ensures
        selected_file(keys, file_names) == Some(j),
{
    let i = least_matching_key(keys, file_names[j], keys.len() as int);
    assert(is_first_match(keys, file_names, i, j)) by {
        assert forall|a: int, b: int|
            0 <= a < keys.len() && 0 <= b < file_names.len() && (a < i || (a == i && b < j))
                implies !key_matches_file(#[trigger] keys[a], #[trigger] file_names[b]) by {
            if b != j {
            }
        }
    }
    first_match_is_selected(keys, file_names, i, j);
}

/// The first key below `bound` that matches the file.
proof fn least_matching_key(keys: Seq<AccessKeyModel>, file_name: Seq<char>, bound: int) -> (i:
    int)
    requires
        0 <= bound <= keys.len(),
        exists|k: int| 0 <= k < bound && key_matches_file(#[trigger] keys[k], file_name),
    ensures
        0 <= i < bound,
        key_matches_file(keys[i], file_name),
        forall|a: int| 0 <= a < i ==> !key_matches_file(#[trigger] keys[a], file_name),
    decreases bound,
{
    if exists|k: int| 0 <= k < bound - 1 && key_matches_file(#[trigger] keys[k], file_name) {
        least_matching_key(keys, file_name, bound - 1)
    } else {
        bound - 1
    }
}

/// The part of a public key that a key file carries in its name.
pub fn fingerprint(public_key: &str) -> (text: String)
    ensures
        text@ == fingerprint_of(public_key@),
{
    last_segment(public_key, ':')
}

/// Says whether the file is one for the key.
pub fn key_matches(key: &AccessKey, file_name: &str) -> (matches: bool)
    ensures
        matches == key_matches_file(key@, file_name@),
{
    match key.permission {
        AccessKeyPermission::FunctionCall => false,
        AccessKeyPermission::FullAccess => {
            let stem = file_stem(file_name);
            let print = fingerprint(key.public_key.as_str());
            contains(stem.as_str(), print.as_str())
        },
    }
}

/// Chooses the key file of an account: the first file whose name holds the
/// fingerprint of a key that the network lists with full access. The keys are
/// gone through in their order and, for each key, the files in theirs.
pub fn select_key_file(access_keys: &Vec<AccessKey>, file_names: &Vec<String>) -> (chosen: Option<
    usize,
>)
    ensures
        match chosen {
            Some(j) => selected_file(access_key_models(access_keys@), texts(file_names@)) == Some(
                j as int,
            ),
            None => selected_file(access_key_models(access_keys@), texts(file_names@)) is None,
        },
{
    let ghost keys = access_key_models(access_keys@);
    let ghost names = texts(file_names@);
    let mut i: usize = 0;
    while i < access_keys.len()
        invariant
            i <= access_keys.len(),
            keys == access_key_models(access_keys@),
            names == texts(file_names@),
            forall|a: int, b: int|
                0 <= a < i && 0 <= b < names.len() ==> !key_matches_file(
                    #[trigger] keys[a],
                    #[trigger] names[b],
                ),
        decreases access_keys.len() - i,
    {
        let mut j: usize = 0;
        while j < file_names.len()
            invariant
                i < access_keys.len(),
                j <= file_names.len(),
                keys == access_key_models(access_keys@),
                names == texts(file_names@),
                forall|a: int, b: int|
                    0 <= a < i && 0 <= b < names.len() ==> !key_matches_file(
                        #[trigger] keys[a],
                        #[trigger] names[b],
                    ),
                forall|b: int|
                    0 <= b < j ==> !key_matches_file(keys[i as int], #[trigger] names[b]),
            decreases file_names.len() - j,
        {
            if key_matches(&access_keys[i], file_names[j].as_str()) {
                proof {
                    assert(key_matches_file(keys[i as int], names[j as int]));
                    assert(is_first_match(keys, names, i as int, j as int));
                    first_match_is_selected(keys, names, i as int, j as int);
                }
                return Some(j);
            }
            j += 1;
        }
        i += 1;
    }
    proof {
        no_match_selects_nothing(keys, names);
    }
    None
}

} // verus!
