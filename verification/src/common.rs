//! Values that every command shares: the connection to a network, amounts of
//! gas and of tokens, hashes, and where keys are kept.

use crate::text::{
    amount_of_text, amount_text_is_read_back, append_decimal, decimal_text, parse_amount,
};
use std::collections::VecDeque;
use vstd::prelude::*;
use vstd::string::*;

verus! {

/// RPC endpoint of the test network.
pub const TESTNET_API_SERVER_URL: &'static str = "https://rpc.testnet.near.org";

/// RPC endpoint of the main network.
pub const MAINNET_API_SERVER_URL: &'static str = "https://rpc.mainnet.near.org";

/// Directory, below the home directory, of the keys used without a network.
pub const DIR_NAME_KEY_CHAIN: &'static str = ".near-credentials";

/// Directory, below the home directory, of the keys of the test network.
pub const DIR_NAME_TESTNET: &'static str = ".near-credentials/testnet";

/// Directory, below the home directory, of the keys of the main network.
pub const DIR_NAME_MAINNET: &'static str = ".near-credentials/mainnet";

/// Directory, below the home directory, of the keys of a network given by its URL.
pub const DIR_NAME_CUSTOM: &'static str = ".near-credentials/default";

/// The most gas that one function call may be given.
pub const MAX_GAS: u64 = 300_000_000_000_000;

/// The gas that is offered when the operator is asked for an amount.
pub const DEFAULT_GAS: u64 = 100_000_000_000_000;

/// Gas units in one TeraGas.
pub const ONE_TERA_GAS: u64 = 1_000_000_000_000;

/// Smallest token units (yoctoNEAR) in one NEAR.
pub const ONE_NEAR: u128 = 1_000_000_000_000_000_000_000_000;

/// The text of an optional string.
pub open spec fn opt_text(o: Option<String>) -> Option<Seq<char>> {
    match o {
        Some(s) => Some(s@),
        None => None,
    }
}

/// The texts of a sequence of strings.
pub open spec fn texts(v: Seq<String>) -> Seq<Seq<char>> {
    Seq::new(v.len(), |i: int| v[i]@)
}

/// The words that an optional flag adds to a command line: its name and its
/// value, or nothing.
pub open spec fn flag_args(name: Seq<char>, value: Option<Seq<char>>) -> Seq<Seq<char>> {
    match value {
        Some(text) => seq![name, text],
        None => Seq::empty(),
    }
}

/// The word that an optional positional value adds to a command line.
pub open spec fn positional_args(value: Option<Seq<char>>) -> Seq<Seq<char>> {
    match value {
        Some(text) => seq![text],
        None => Seq::empty(),
    }
}

/// Puts a flag and its value in front of the words of a command line.
pub fn push_flag(args: &mut VecDeque<String>, name: &str, value: String)
    ensures
        texts(final(args)@) == seq![name@, value@] + texts(old(args)@),
{
    args.push_front(value);
    args.push_front(name.to_owned());
    assert(texts(args@) =~= seq![name@, value@] + texts(old(args)@));
}

/// Puts a word in front of the words of a command line.
pub fn push_word(args: &mut VecDeque<String>, word: String)
    ensures
        texts(final(args)@) == seq![word@] + texts(old(args)@),
{
    args.push_front(word);
    assert(texts(args@) =~= seq![word@] + texts(old(args)@));
}

/// The network that a command talks to. A command that names none works offline.
#[derive(Clone, Debug, PartialEq, Eq)]
pub enum ConnectionConfig {
    Testnet,
    Mainnet,
    Custom { url: String },
}

/// Mathematical model of a [`ConnectionConfig`].
pub enum ConnectionConfigModel {
    Testnet,
    Mainnet,
    Custom { url: Seq<char> },
}

impl View for ConnectionConfig {
    type V = ConnectionConfigModel;

    open spec fn view(&self) -> ConnectionConfigModel {
        match self {
            ConnectionConfig::Testnet => ConnectionConfigModel::Testnet,
            ConnectionConfig::Mainnet => ConnectionConfigModel::Mainnet,
            ConnectionConfig::Custom { url } => ConnectionConfigModel::Custom { url: url@ },
        }
    }
}

/// The model of an optional connection: `None` is the offline posture.
pub open spec fn connection_model(c: Option<ConnectionConfig>) -> Option<ConnectionConfigModel> {
    match c {
        Some(config) => Some(config@),
        None => None,
    }
}

impl ConnectionConfigModel {
    /// The RPC endpoint of the network.
    pub open spec fn rpc_url(self) -> Seq<char> {
        match self {
            ConnectionConfigModel::Testnet => TESTNET_API_SERVER_URL@,
            ConnectionConfigModel::Mainnet => MAINNET_API_SERVER_URL@,
            ConnectionConfigModel::Custom { url } => url,
        }
    }

    /// The directory, below the home directory, that holds the network's keys.
    pub open spec fn dir_name(self) -> Seq<char> {
        match self {
            ConnectionConfigModel::Testnet => DIR_NAME_TESTNET@,
            ConnectionConfigModel::Mainnet => DIR_NAME_MAINNET@,
            ConnectionConfigModel::Custom { .. } => DIR_NAME_CUSTOM@,
        }
    }
}

impl ConnectionConfig {
    /// The RPC endpoint of the network.
    pub fn rpc_url(&self) -> (url: String)
        ensures
            url@ == self@.rpc_url(),
    {
        match self {
            ConnectionConfig::Testnet => TESTNET_API_SERVER_URL.to_owned(),
            ConnectionConfig::Mainnet => MAINNET_API_SERVER_URL.to_owned(),
            ConnectionConfig::Custom { url } => url.clone(),
        }
    }

    /// The directory, below the home directory, that holds the network's keys.
    pub fn dir_name(&self) -> (name: &'static str)
        ensures
            name@ == self@.dir_name(),
    {
        match self {
            ConnectionConfig::Testnet => DIR_NAME_TESTNET,
            ConnectionConfig::Mainnet => DIR_NAME_MAINNET,
            ConnectionConfig::Custom { .. } => DIR_NAME_CUSTOM,
        }
    }
}

/// How a command stands to the network.
#[derive(Clone, Debug, PartialEq, Eq)]
pub enum Posture {
    /// A network is used: its RPC endpoint and the directory of its keys.
    Online { endpoint: String, key_storage_dir_name: String },
    /// No network is used.
    Offline,
}

/// The posture that an optional connection stands for. Nothing is sent.
pub fn current_posture(connection_config: &Option<ConnectionConfig>) -> (posture: Posture)
    ensures
        match posture {
            Posture::Online { endpoint, key_storage_dir_name } => {
                &&& *connection_config matches Some(config)
                &&& endpoint@ == config@.rpc_url()
                &&& key_storage_dir_name@ == config@.dir_name()
            },
            Posture::Offline => *connection_config is None,
        },
{
    match connection_config {
        Some(config) => Posture::Online {
            endpoint: config.rpc_url(),
            key_storage_dir_name: config.dir_name().to_owned(),
        },
        None => Posture::Offline,
    }
}

/// An RPC endpoint that was given by its URL.
#[derive(Clone, Debug, PartialEq, Eq)]
pub struct AvailableRpcServerUrl {
    pub inner: String,
}

impl AvailableRpcServerUrl {
    /// The URL as it is written on the command line.
    pub fn to_string(&self) -> (text: String)
        ensures
            text@ == self.inner@,
    {
        self.inner.clone()
    }
}

/// The text of an optional URL.
pub open spec fn opt_url(o: Option<AvailableRpcServerUrl>) -> Option<Seq<char>> {
    match o {
        Some(url) => Some(url.inner@),
        None => None,
    }
}

/// An amount of gas, in gas units.
#[derive(Clone, Copy, Debug, PartialEq, Eq, Structural)]
pub struct NearGas {
    pub inner: u64,
}

/// The text of an amount of gas: whole TeraGas where the amount is a multiple
/// of one TeraGas, gas units otherwise. No amount has two texts.
pub open spec fn gas_text(gas: u64) -> Seq<char> {
    if gas % ONE_TERA_GAS == 0 {
        decimal_text((gas / ONE_TERA_GAS) as nat) + " TeraGas"@
    } else {
        decimal_text(gas as nat) + " Gas"@
    }
}

/// The amount of gas that a text gives: a number of whole TeraGas or of gas
/// units, if it fits in 64 bits.
pub open spec fn gas_of_text(text: Seq<char>) -> Option<u64> {
    match amount_of_text(text, "TeraGas"@) {
        Some(n) => if n * ONE_TERA_GAS <= u64::MAX {
            Some((n * ONE_TERA_GAS) as u64)
        } else {
            None
        },
        None => match amount_of_text(text, "Gas"@) {
            Some(n) => if n <= u64::MAX {
                Some(n as u64)
            } else {
                None
            },
            None => None,
        },
    }
}

/// A text that gives gas units does not give TeraGas too.
pub proof fn gas_units_are_told_apart(text: Seq<char>)
    requires
        amount_of_text(text, "Gas"@) is Some,
    ensures
        amount_of_text(text, "TeraGas"@) is None,
{
    reveal_strlit("Gas");
    reveal_strlit("TeraGas");
    if amount_of_text(text, "TeraGas"@) is Some {
        let tail = text.subrange(text.len() - 7, text.len() as int);
        assert(tail == "TeraGas"@);
        assert(tail[3] == 'a');
        assert(text[text.len() - 4] == ' ');
    }
}

/// The text of an amount of gas is read back as that amount.
pub proof fn gas_text_is_read_back(gas: u64)
    ensures
        gas_of_text(gas_text(gas)) == Some(gas),
{
    reveal_strlit(" TeraGas");
    reveal_strlit("TeraGas");
    reveal_strlit(" Gas");
    reveal_strlit("Gas");
    if gas % ONE_TERA_GAS == 0 {
        let n = (gas / ONE_TERA_GAS) as nat;
        amount_text_is_read_back(n, "TeraGas"@);
        assert(" TeraGas"@ =~= seq![' '] + "TeraGas"@);
        assert(gas_text(gas) =~= decimal_text(n) + seq![' '] + "TeraGas"@);
    } else {
        amount_text_is_read_back(gas as nat, "Gas"@);
        assert(" Gas"@ =~= seq![' '] + "Gas"@);
        assert(gas_text(gas) =~= decimal_text(gas as nat) + seq![' '] + "Gas"@);
        gas_units_are_told_apart(gas_text(gas));
    }
}

impl NearGas {
    /// Reads an amount of gas: `<digits> TeraGas` or `<digits> Gas`. There is
    /// none where the text has another form or the amount does not fit.
    pub fn parse(text: &str) -> (gas: Option<NearGas>)
        ensures
            gas == match gas_of_text(text@) {
                Some(inner) => Some(NearGas { inner }),
                None => None,
            },
    {
        match parse_amount(text, "TeraGas") {
            Some(n) => {
                if n <= (u64::MAX / ONE_TERA_GAS) as u128 {
                    Some(NearGas { inner: (n as u64) * ONE_TERA_GAS })
                } else {
                    None
                }
            },
            None => match parse_amount(text, "Gas") {
                Some(n) => {
                    proof {
                        gas_units_are_told_apart(text@);
                    }
                    if n <= u64::MAX as u128 {
                        Some(NearGas { inner: n as u64 })
                    } else {
                        None
                    }
                },
                None => None,
            },
        }
    }

    /// The amount as it is written on the command line.
    pub fn to_string(&self) -> (text: String)
        ensures
            text@ == gas_text(self.inner),
    {
        let mut text = String::new();
        if self.inner % ONE_TERA_GAS == 0 {
            append_decimal(&mut text, (self.inner / ONE_TERA_GAS) as u128);
            text.append(" TeraGas");
        } else {
            append_decimal(&mut text, self.inner as u128);
            text.append(" Gas");
        }
        assert(text@ =~= gas_text(self.inner));
        text
    }
}

/// An amount of tokens, in yoctoNEAR.
#[derive(Clone, Copy, Debug, PartialEq, Eq, Structural)]
pub struct NearBalance {
    pub yoctonear_amount: u128,
}

/// The text of an amount of tokens: whole NEAR where the amount is a multiple
/// of one NEAR, yoctoNEAR otherwise.
pub open spec fn balance_text(amount: u128) -> Seq<char> {
    if amount % ONE_NEAR == 0 {
        decimal_text((amount / ONE_NEAR) as nat) + " NEAR"@
    } else {
        decimal_text(amount as nat) + " yoctoNEAR"@
    }
}

/// The amount of tokens that a text gives: a number of whole NEAR or of
/// yoctoNEAR, if it fits in 128 bits.
pub open spec fn balance_of_text(text: Seq<char>) -> Option<u128> {
    match amount_of_text(text, "NEAR"@) {
        Some(n) => if n * ONE_NEAR <= u128::MAX {
            Some((n * ONE_NEAR) as u128)
        } else {
            None
        },
        None => match amount_of_text(text, "yoctoNEAR"@) {
            Some(n) => if n <= u128::MAX {
                Some(n as u128)
            } else {
                None
            },
            None => None,
        },
    }
}

/// A text that gives yoctoNEAR does not give NEAR too.
pub proof fn yoctonear_is_told_apart(text: Seq<char>)
    requires
        amount_of_text(text, "yoctoNEAR"@) is Some,
    ensures
        amount_of_text(text, "NEAR"@) is None,
{
    reveal_strlit("NEAR");
    reveal_strlit("yoctoNEAR");
    if amount_of_text(text, "NEAR"@) is Some {
        let tail = text.subrange(text.len() - 9, text.len() as int);
        assert(tail == "yoctoNEAR"@);
        assert(tail[4] == 'o');
        assert(text[text.len() - 5] == ' ');
    }
}

/// The text of an amount of tokens is read back as that amount.
pub proof fn balance_text_is_read_back(amount: u128)
    ensures
        balance_of_text(balance_text(amount)) == Some(amount),
{
    reveal_strlit(" NEAR");
    reveal_strlit("NEAR");
    reveal_strlit(" yoctoNEAR");
    reveal_strlit("yoctoNEAR");
    if amount % ONE_NEAR == 0 {
        let n = (amount / ONE_NEAR) as nat;
        amount_text_is_read_back(n, "NEAR"@);
        assert(" NEAR"@ =~= seq![' '] + "NEAR"@);
        assert(balance_text(amount) =~= decimal_text(n) + seq![' '] + "NEAR"@);
    } else {
        amount_text_is_read_back(amount as nat, "yoctoNEAR"@);
        assert(" yoctoNEAR"@ =~= seq![' '] + "yoctoNEAR"@);
        assert(balance_text(amount) =~= decimal_text(amount as nat) + seq![' '] + "yoctoNEAR"@);
        yoctonear_is_told_apart(balance_text(amount));
    }
}

impl NearBalance {
    /// Reads an amount of tokens: `<digits> NEAR` or `<digits> yoctoNEAR`.
    /// There is none where the text has another form or the amount does not
    /// fit.
    pub fn parse(text: &str) -> (balance: Option<NearBalance>)
        ensures
            balance == match balance_of_text(text@) {
                Some(yoctonear_amount) => Some(NearBalance { yoctonear_amount }),
                None => None,
            },
    {
        match parse_amount(text, "NEAR") {
            Some(n) => {
                if n <= u128::MAX / ONE_NEAR {
                    Some(NearBalance { yoctonear_amount: n * ONE_NEAR })
                } else {
                    None
                }
            },
            None => match parse_amount(text, "yoctoNEAR") {
                Some(n) => {
                    proof {
                        yoctonear_is_told_apart(text@);
                    }
                    Some(NearBalance { yoctonear_amount: n })
                },
                None => None,
            },
        }
    }

    /// The balance of `amount` yoctoNEAR.
    pub fn from_yoctonear(amount: u128) -> (balance: NearBalance)
        ensures
            balance.yoctonear_amount == amount,
    {
        NearBalance { yoctonear_amount: amount }
    }

    /// The amount in yoctoNEAR.
    pub fn to_yoctonear(&self) -> (amount: u128)
        ensures
            amount == self.yoctonear_amount,
    {
        self.yoctonear_amount
    }

    /// The amount as it is written on the command line.
    pub fn to_string(&self) -> (text: String)
        ensures
            text@ == balance_text(self.yoctonear_amount),
    {
        let mut text = String::new();
        if self.yoctonear_amount % ONE_NEAR == 0 {
            append_decimal(&mut text, self.yoctonear_amount / ONE_NEAR);
            text.append(" NEAR");
        } else {
            append_decimal(&mut text, self.yoctonear_amount);
            text.append(" yoctoNEAR");
        }
        assert(text@ =~= balance_text(self.yoctonear_amount));
        text
    }
}

/// A 256-bit hash: of a block, or of a transaction.
#[derive(Clone, Copy, Debug, PartialEq, Eq)]
pub struct CryptoHash {
    pub bytes: [u8; 32],
}

/// The base58 text that `near_primitives::hash::CryptoHash` displays for the
/// 32 bytes of a hash.
pub uninterp spec fn base58_text(bytes: Seq<u8>) -> Seq<char>;

/// Calls the `Display` of `near_primitives::hash::CryptoHash` on the hash of
/// the given bytes. The text depends on the bytes alone; it is not stated
/// here, only named.
#[verifier::external_body]
fn display_crypto_hash(bytes: &[u8; 32]) -> (text: String)
    ensures
        text@ == base58_text(bytes@),
{
    near_primitives::hash::CryptoHash(*bytes).to_string()
}

impl CryptoHash {
    /// Every byte of the hash is zero.
    pub open spec fn is_zero(self) -> bool {
        forall|i: int| 0 <= i < 32 ==> self.bytes@[i] == 0u8
    }

    /// The hash of 32 zero bytes, which stands where no hash is known yet.
    pub fn zero() -> (hash: CryptoHash)
        ensures
            hash.is_zero(),
    {
        CryptoHash { bytes: [0u8; 32] }
    }

    /// The hash as it is written on the command line.
    pub fn to_string(&self) -> (text: String)
        ensures
            text@ == base58_text(self.bytes@),
    {
        display_crypto_hash(&self.bytes)
    }
}

/// The key file that is used without a network: `<account>.json` in the
/// directory of the offline keys.
pub open spec fn offline_key_file_of(account_id: Seq<char>) -> Seq<char> {
    DIR_NAME_KEY_CHAIN@ + "/"@ + account_id + ".json"@
}

/// The key file of an account in the directory of a network.
pub open spec fn network_key_file_of(dir_name: Seq<char>, account_id: Seq<char>) -> Seq<char> {
    dir_name + "/"@ + account_id + ".json"@
}

/// The directory that holds one file for each key of an account of a network.
pub open spec fn account_key_dir_of(dir_name: Seq<char>, account_id: Seq<char>) -> Seq<char> {
    dir_name + "/"@ + account_id
}

/// The file `name` in the directory `dir`.
pub open spec fn file_in_dir(dir: Seq<char>, name: Seq<char>) -> Seq<char> {
    dir + "/"@ + name
}

/// Path, below the home directory, of the file `name` in the directory `dir`.
pub fn join_path(dir: &str, name: &str) -> (path: String)
    ensures
        path@ == file_in_dir(dir@, name@),
{
    let mut path = dir.to_owned();
    path.append("/");
    path.append(name);
    path
}

/// Path, below the home directory, of the key file that is used without a
/// network.
pub fn offline_key_file(account_id: &str) -> (path: String)
    ensures
        path@ == offline_key_file_of(account_id@),
{
    let mut path = join_path(DIR_NAME_KEY_CHAIN, account_id);
    path.append(".json");
    path
}

/// Path, below the home directory, of the key file of an account of a network.
pub fn network_key_file(connection_config: &ConnectionConfig, account_id: &str) -> (path: String)
    ensures
        path@ == network_key_file_of(connection_config@.dir_name(), account_id@),
{
    let mut path = join_path(connection_config.dir_name(), account_id);
    path.append(".json");
    path
}

/// Path, below the home directory, of the directory with one file for each
/// key of an account of a network.
pub fn account_key_dir(connection_config: &ConnectionConfig, account_id: &str) -> (path: String)
    ensures
        path@ == account_key_dir_of(connection_config@.dir_name(), account_id@),
{
    join_path(connection_config.dir_name(), account_id)
}

} // verus!
