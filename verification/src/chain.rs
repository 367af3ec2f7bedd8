//! What is read of the Bitcoin chain: its networks, keys, addresses, transaction ids, derivation
//! paths and amounts.

use vstd::prelude::*;

use crate::hexadecimal::{hex_bytes, is_hex};
use crate::text::{decimal, join2, padded, pieces, texts};

verus! {

/// The Bitcoin networks.
#[derive(Clone, Copy, Debug, PartialEq, Eq, Structural)]
pub enum Network {
    /// The main network.
    Bitcoin,
    /// The test network.
    Testnet,
    /// The signet network.
    Signet,
    /// A local network for regression tests.
    Regtest,
}

/// The network that a `bitcoind -chain` argument names.
pub open spec fn core_network(arg: Seq<char>) -> Option<Network> {
    if arg == "main"@ {
        Some(Network::Bitcoin)
    } else if arg == "test"@ {
        Some(Network::Testnet)
    } else if arg == "signet"@ {
        Some(Network::Signet)
    } else if arg == "regtest"@ {
        Some(Network::Regtest)
    } else {
        None
    }
}

/// How a network is shown to the user.
pub open spec fn network_name(network: Network) -> Seq<char> {
    match network {
        Network::Bitcoin => "bitcoin"@,
        Network::Testnet => "testnet"@,
        Network::Signet => "signet"@,
        Network::Regtest => "regtest"@,
    }
}

/// `bitcoin::Network::from_core_arg`: knows the four names that `bitcoind -chain` takes.
#[verifier::external_body]
fn network_from_core_arg(arg: &str) -> (r: Option<Network>)
    ensures
        r == core_network(arg@),
{
    match bitcoin::Network::from_core_arg(arg) {
        Ok(bitcoin::Network::Bitcoin) => Some(Network::Bitcoin),
        Ok(bitcoin::Network::Testnet) => Some(Network::Testnet),
        Ok(bitcoin::Network::Signet) => Some(Network::Signet),
        Ok(bitcoin::Network::Regtest) => Some(Network::Regtest),
        Err(_) => None,
    }
}

/// `Display` of `bitcoin::Network`: one lower-case word for each network.
#[verifier::external_body]
pub(crate) fn network_text(network: Network) -> (r: String)
    ensures
        r@ == network_name(network),
{
    match network {
        Network::Bitcoin => bitcoin::Network::Bitcoin.to_string(),
        Network::Testnet => bitcoin::Network::Testnet.to_string(),
        Network::Signet => bitcoin::Network::Signet.to_string(),
        Network::Regtest => bitcoin::Network::Regtest.to_string(),
    }
}

/// The network that a setting names: the regression test network where it is absent or names
/// none.
pub open spec fn chosen_network(setting: Option<Seq<char>>) -> Network {
    match setting {
        Some(arg) => match core_network(arg) {
            Some(network) => network,
            None => Network::Regtest,
        },
        None => Network::Regtest,
    }
}

/// The four names that `bitcoind -chain` takes choose its networks; every other setting, and none,
/// chooses the regression test network.
pub proof fn networks_are_chosen_by_name(arg: Seq<char>)
    ensures
        chosen_network(Some("main"@)) == Network::Bitcoin,
        chosen_network(Some("test"@)) == Network::Testnet,
        chosen_network(Some("signet"@)) == Network::Signet,
        chosen_network(Some("regtest"@)) == Network::Regtest,
        arg != "main"@ && arg != "test"@ && arg != "signet"@ ==> chosen_network(Some(arg))
            == Network::Regtest,
        chosen_network(None) == Network::Regtest,
{
    reveal_strlit("main");
    reveal_strlit("test");
    reveal_strlit("signet");
    reveal_strlit("regtest");
    assert("main"@[0] == 'm');
    assert("test"@[0] == 't');
    assert("signet"@[0] == 's');
    assert("regtest"@[0] == 'r');
}

/// The network to work on, by the setting `BITCOIN_NETWORK`.
pub fn choose_network(setting: Option<&str>) -> (r: Network)
    ensures
        r == chosen_network(
            match setting {
                Some(arg) => Some(arg@),
                None => None,
            },
        ),
{
    match setting {
        Some(arg) => match network_from_core_arg(arg) {
            Some(network) => network,
            None => Network::Regtest,
        },
        None => Network::Regtest,
    }
}

/// The number that bytes stand for, the highest first.
pub open spec fn big_endian(s: Seq<u8>) -> nat
    decreases s.len(),
{
    if s.len() == 0 {
        0
    } else {
        256 * big_endian(s.drop_last()) + s.last() as nat
    }
}

/// The order of the group of secp256k1.
pub open spec fn group_order() -> nat {
    0xffff_ffff_ffff_ffff_ffff_ffff_ffff_fffe_baae_dce6_af48_a03b_bfd2_5e8c_d036_4141nat
}

/// Whether `secret` is a secret key on secp256k1: 32 bytes that stand for a number between one
/// and the order of the group.
pub open spec fn valid_secret_key(secret: Seq<u8>) -> bool {
    secret.len() == 32 && 0 < big_endian(secret) < group_order()
}

/// The compressed public key that belongs to a secret key.
pub uninterp spec fn secp256k1_public_key(secret: Seq<u8>) -> Seq<u8>;

/// The pay-to-taproot address of a secret key.
pub uninterp spec fn p2tr_address(secret: Seq<u8>, network: Network) -> Seq<char>;

/// The pay-to-public-key-hash address of a public key.
pub uninterp spec fn p2pkh_address(public_key: Seq<u8>, network: Network) -> Seq<char>;

/// The pay-to-witness-public-key-hash address of a public key.
pub uninterp spec fn p2wpkh_address(public_key: Seq<u8>, network: Network) -> Seq<char>;

/// Whether some bytes are the compressed public key of a secret key.
pub open spec fn is_public_key(key: Seq<u8>) -> bool {
    exists|secret: Seq<u8>|
        valid_secret_key(secret) && key == #[trigger] secp256k1_public_key(secret)
}

/// The messages of the refusal of a secret key: one, without a cause.
pub open spec fn secret_key_error() -> Seq<Seq<char>> {
    seq!["malformed or out-of-range secret key"@]
}

/// `Keypair::from_seckey_slice` with `Keypair::public_key`: accepts 32 bytes that stand for a
/// number between one and the order of the group, and refuses every other slice with one message,
/// which `anyhow::Chain` hands out. Which key belongs to the number is left to the crate.
#[verifier::external_body]
pub(crate) fn public_key_of(secret: &[u8]) -> (r: Result<Vec<u8>, Vec<String>>)
    ensures
        match r {
            Ok(key) => valid_secret_key(secret@) && key@ == secp256k1_public_key(secret@),
            Err(messages) => !valid_secret_key(secret@) && texts(messages@) == secret_key_error(),
        },
{
    let secp = bitcoin::secp256k1::Secp256k1::new();
    bitcoin::secp256k1::Keypair::from_seckey_slice(&secp, secret)
        .map(|keypair| keypair.public_key().serialize().to_vec())
        .map_err(|e| anyhow::Chain::new(&e).map(|c| c.to_string()).collect())
}

/// `ScriptBuf::new_p2tr` over the x-only public key, without a script tree, and
/// `Address::from_script` of that script, which is an address of a known kind.
#[verifier::external_body]
fn p2tr_text(secret: &[u8], network: Network) -> (r: String)
    requires
        valid_secret_key(secret@),
    ensures
        r@ == p2tr_address(secret@, network),
{
    let network = match network {
        Network::Bitcoin => bitcoin::Network::Bitcoin,
        Network::Testnet => bitcoin::Network::Testnet,
        Network::Signet => bitcoin::Network::Signet,
        Network::Regtest => bitcoin::Network::Regtest,
    };
    let secp = bitcoin::secp256k1::Secp256k1::new();
    let keypair = bitcoin::secp256k1::Keypair::from_seckey_slice(&secp, secret).unwrap();
    let script = bitcoin::ScriptBuf::new_p2tr(&secp, keypair.x_only_public_key().0, None);
    bitcoin::Address::from_script(&script, network).unwrap().to_string()
}

/// `Address::p2pkh` of the key that `PublicKey::from_slice` reads, which takes every compressed
/// public key.
#[verifier::external_body]
fn p2pkh_text(public_key: &[u8], network: Network) -> (r: String)
    requires
        is_public_key(public_key@),
    ensures
        r@ == p2pkh_address(public_key@, network),
{
    let network = match network {
        Network::Bitcoin => bitcoin::Network::Bitcoin,
        Network::Testnet => bitcoin::Network::Testnet,
        Network::Signet => bitcoin::Network::Signet,
        Network::Regtest => bitcoin::Network::Regtest,
    };
    let key = bitcoin::PublicKey::from_slice(public_key).unwrap();
    bitcoin::Address::p2pkh(&key, network).to_string()
}

/// `Address::p2wpkh` of the key that `PublicKey::from_slice` reads, which takes every compressed
/// public key; the address is refused for uncompressed keys alone.
#[verifier::external_body]
pub(crate) fn p2wpkh_text(public_key: &[u8], network: Network) -> (r: String)
    requires
        is_public_key(public_key@),
    ensures
        r@ == p2wpkh_address(public_key@, network),
{
    let network = match network {
        Network::Bitcoin => bitcoin::Network::Bitcoin,
        Network::Testnet => bitcoin::Network::Testnet,
        Network::Signet => bitcoin::Network::Signet,
        Network::Regtest => bitcoin::Network::Regtest,
    };
    let key = bitcoin::PublicKey::from_slice(public_key).unwrap();
    bitcoin::Address::p2wpkh(&key, network).unwrap().to_string()
}

/// The lines that show the addresses of a secret key.
pub open spec fn address_lines(secret: Seq<u8>, network: Network) -> Seq<char> {
    let public_key = secp256k1_public_key(secret);
    "p2tr address: "@ + p2tr_address(secret, network) + ("\np2pkh address: "@ + p2pkh_address(
        public_key,
        network,
    )) + ("\np2wpkh address: "@ + p2wpkh_address(public_key, network))
}

/// The lines that show the addresses of a secret key, or why it is none.
pub fn secp256k1_addresses(secret: &[u8], network: Network) -> (r: Result<String, Vec<String>>)
    ensures
        match r {
            Ok(lines) => valid_secret_key(secret@) && lines@ == address_lines(secret@, network),
            Err(messages) => !valid_secret_key(secret@) && texts(messages@) == secret_key_error(),
        },
        r matches Ok(lines) ==> lines@ == "p2tr address: "@ + p2tr_address(secret@, network) + (
        "\np2pkh address: "@ + p2pkh_address(secp256k1_public_key(secret@), network)) + (
        "\np2wpkh address: "@ + p2wpkh_address(secp256k1_public_key(secret@), network)),
{
    match public_key_of(secret) {
        Ok(key) => {
            let key: &[u8] = key.as_slice();
            let p2tr: String = join2("p2tr address: ", p2tr_text(secret, network).as_str());
            let p2pkh: String = join2("\np2pkh address: ", p2pkh_text(key, network).as_str());
            let p2wpkh: String = join2("\np2wpkh address: ", p2wpkh_text(key, network).as_str());
            Ok(crate::text::join3(p2tr.as_str(), p2pkh.as_str(), p2wpkh.as_str()))
        },
        Err(messages) => Err(messages),
    }
}

/// Whether `text` writes a transaction id: 64 hexadecimal digits.
pub open spec fn is_txid(text: Seq<char>) -> bool {
    text.len() == 64 && is_hex(text)
}

/// The messages with which `Txid::from_str` refuses `text`: its own and those of its causes.
pub uninterp spec fn txid_error(text: Seq<char>) -> Seq<Seq<char>>;

/// `bitcoin::Txid::from_str`: 64 hexadecimal digits of either case, which write the bytes of the
/// id from the last to the first. The wording of a refusal is the crate's own; `anyhow::Chain`
/// hands it out from the error to its root cause.
#[verifier::external_body]
pub(crate) fn parse_txid(text: &str) -> (r: Result<Vec<u8>, Vec<String>>)
    ensures
        match r {
            Ok(id) => is_txid(text@) && id@ == hex_bytes(text@).reverse(),
            Err(messages) => !is_txid(text@) && texts(messages@) == txid_error(text@),
        },
{
    text.parse::<bitcoin::Txid>()
        .map(|id| bitcoin::hashes::Hash::to_byte_array(id).to_vec())
        .map_err(|e| anyhow::Chain::new(&e).map(|c| c.to_string()).collect())
}

/// The messages with which `Address::from_str` refuses `text`, its own and those of its causes, or
/// nothing where it reads an address.
pub uninterp spec fn address_refusal(text: Seq<char>) -> Option<Seq<Seq<char>>>;

/// The messages with which `Address::require_network` refuses the address that `text` writes on
/// `network`, or how the address is written where it does not.
pub uninterp spec fn address_on_network(text: Seq<char>, network: Network) -> Result<
    Seq<char>,
    Seq<Seq<char>>,
>;

/// `bitcoin::Address::from_str`: whether it reads an address, of whatever network. Which texts
/// those are, and the wording of a refusal, are left to the crate; `anyhow::Chain` hands the
/// wording out from the error to its root cause.
#[verifier::external_body]
fn parse_address(text: &str) -> (r: Option<Vec<String>>)
    ensures
        match r {
            Some(messages) => address_refusal(text@) == Some(texts(messages@)),
            None => address_refusal(text@) is None,
        },
{
    match text.parse::<bitcoin::Address<bitcoin::address::NetworkUnchecked>>() {
        Ok(_) => None,
        Err(e) => Some(anyhow::Chain::new(&e).map(|c| c.to_string()).collect()),
    }
}

/// `Address::require_network` of the address that `text` writes. Which addresses belong to which
/// network is left to the crate; `anyhow::Chain` hands a refusal out from the error to its root
/// cause.
#[verifier::external_body]
fn require_network(text: &str, network: Network) -> (r: Result<String, Vec<String>>)
    requires
        address_refusal(text@) is None,
    ensures
        match r {
            Ok(address) => address_on_network(text@, network) == Ok::<Seq<char>, Seq<Seq<char>>>(
                address@,
            ),
            Err(messages) => address_on_network(text@, network) == Err::<
                Seq<char>,
                Seq<Seq<char>>,
            >(texts(messages@)),
        },
{
    let network = match network {
        Network::Bitcoin => bitcoin::Network::Bitcoin,
        Network::Testnet => bitcoin::Network::Testnet,
        Network::Signet => bitcoin::Network::Signet,
        Network::Regtest => bitcoin::Network::Regtest,
    };
    let address = text.parse::<bitcoin::Address<bitcoin::address::NetworkUnchecked>>().unwrap();
    address.require_network(network)
        .map(|a| a.to_string())
        .map_err(|e| anyhow::Chain::new(&e).map(|c| c.to_string()).collect())
}

/// The address that `text` writes, if it belongs to `network`.
pub open spec fn checked_address(text: Seq<char>, network: Network) -> Result<
    Seq<char>,
    Seq<Seq<char>>,
> {
    match address_refusal(text) {
        Some(messages) => Err(messages),
        None => address_on_network(text, network),
    }
}

/// Reads an address and insists on its network.
pub fn check_address(text: &str, network: Network) -> (r: Result<String, Vec<String>>)
    ensures
        match r {
            Ok(address) => checked_address(text@, network) == Ok::<Seq<char>, Seq<Seq<char>>>(
                address@,
            ),
            Err(messages) => checked_address(text@, network) == Err::<Seq<char>, Seq<Seq<char>>>(
                texts(messages@),
            ),
        },
{
    match parse_address(text) {
        Some(messages) => Err(messages),
        None => require_network(text, network),
    }
}

/// Whether `s` is made of decimal digits alone, and has one.
pub open spec fn is_decimal(s: Seq<char>) -> bool {
    s.len() > 0 && forall|i: int| 0 <= i < s.len() ==> '0' <= #[trigger] s[i] <= '9'
}

/// The number that decimal digits stand for.
pub open spec fn decimal_value(s: Seq<char>) -> nat
    decreases s.len(),
{
    if s.len() == 0 {
        0
    } else {
        10 * decimal_value(s.drop_last()) + (s.last() as u32 - '0' as u32) as nat
    }
}

/// The `u32` that a text writes: digits, with or without a plus sign in front.
pub open spec fn u32_value(s: Seq<char>) -> Option<u32> {
    let digits = if s.len() > 1 && s[0] == '+' {
        s.drop_first()
    } else {
        s
    };
    if is_decimal(digits) && decimal_value(digits) <= u32::MAX {
        Some(decimal_value(digits) as u32)
    } else {
        None
    }
}

/// The first index of a hardened child.
pub open spec fn hardened() -> nat {
    0x8000_0000
}

/// The child that one step of a derivation path names: hardened with a quote or an `h` behind it.
pub open spec fn child_number(part: Seq<char>) -> Option<u32> {
    let marked = part.len() > 0 && (part.last() == '\'' || part.last() == 'h');
    let digits = if marked {
        part.drop_last()
    } else {
        part
    };
    match u32_value(digits) {
        Some(n) => if n < hardened() {
            Some(
                if marked {
                    (n + hardened()) as u32
                } else {
                    n
                },
            )
        } else {
            None
        },
        None => None,
    }
}

/// The children that a derivation path names, one after the other, below `m`.
pub open spec fn path_children(text: Seq<char>) -> Option<Seq<u32>> {
    let parts = pieces(text, '/');
    if parts[0] == "m"@ && forall|i: int|
        1 <= i < parts.len() ==> child_number(#[trigger] parts[i]) is Some {
        Some(Seq::new((parts.len() - 1) as nat, |i: int| child_number(parts[i + 1])->0))
    } else {
        None
    }
}

/// The messages with which `DerivationPath::from_str` refuses `text`: its own and those of its
/// causes.
pub uninterp spec fn path_error(text: Seq<char>) -> Seq<Seq<char>>;

/// `bitcoin::bip32::DerivationPath::from_str`: `m` and then steps behind slashes, each a number
/// below 2^31, hardened with a quote or an `h` behind it. A child is handed out as the `u32` that
/// stands for it. The wording of a refusal is the crate's own; `anyhow::Chain` hands it out from
/// the error to its root cause.
#[verifier::external_body]
pub(crate) fn parse_path(text: &str) -> (r: Result<Vec<u32>, Vec<String>>)
    ensures
        match r {
            Ok(path) => path_children(text@) == Some(path@),
            Err(messages) => path_children(text@) is None && texts(messages@) == path_error(text@),
        },
{
    text.parse::<bitcoin::bip32::DerivationPath>()
        .map(|path| path.into_iter().map(|child| u32::from(*child)).collect())
        .map_err(|e| anyhow::Chain::new(&e).map(|c| c.to_string()).collect())
}

/// `s` without the zeros at its end.
pub open spec fn without_trailing_zeros(s: Seq<char>) -> Seq<char>
    decreases s.len(),
{
    if s.len() > 0 && s.last() == '0' {
        without_trailing_zeros(s.drop_last())
    } else {
        s
    }
}

/// An amount in bitcoin: the whole coins, the decimals that are not trailing zeros, and the unit.
pub open spec fn amount_text(sats: nat) -> Seq<char> {
    let coins = decimal(sats / 100_000_000);
    let rest = sats % 100_000_000;
    if rest == 0 {
        coins + " BTC"@
    } else {
        coins + seq!['.'] + without_trailing_zeros(padded(rest, 8)) + " BTC"@
    }
}

/// `Display` of `bitcoin::Amount`: the amount in bitcoin with as many decimals as it needs.
#[verifier::external_body]
pub(crate) fn show_amount(sats: u64) -> (r: String)
    ensures
        r@ == amount_text(sats as nat),
{
    bitcoin::Amount::from_sat(sats).to_string()
}

} // verus!
