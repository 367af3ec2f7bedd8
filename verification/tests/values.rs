use coset::{CborSerializable, TaggedCborSerializable};
use ns_inscriber_core::chain::{Network, check_address, choose_network, secp256k1_addresses};
use ns_inscriber_core::cli::{Cli, Commands};
use ns_inscriber_core::cose::{HeaderItem, HeaderLabel, find_cid, read_cid};
use ns_inscriber_core::derivation::{ed25519_derivation, secp256k1_derivation};
use ns_inscriber_core::form::{Concrete, TxOutput};
use ns_inscriber_core::keystore::{key_file_name, keystore_aad_bytes};
use ns_inscriber_core::messages::message_aad_bytes;
use ns_inscriber_core::names::{
    register_name, write_fee_lines, write_size_lines, write_total_line,
};
use ns_inscriber_core::seeds::{ed25519_address_text, transfer_aad_bytes};
use ns_inscriber_core::session::keys_dir;
use ns_inscriber_core::spending::{choose_output, write_network_line};
use ns_inscriber_core::state::Settings;
use ns_inscriber_core::text::{
    decimal_text, is_white_space, join2, join3, parse_names, same_text, trim,
};
use ns_inscriber_core::wire::{Failure, PreviewSizes};

fn secret_one() -> Vec<u8> {
    let mut secret = vec![0u8; 32];
    secret[31] = 1;
    secret
}

#[test]
fn pieces_of_text_are_joined() {
    assert_eq!(join2("a", "b"), "ab");
    assert_eq!(join3("a", "", "c"), "ac");
    assert!(same_text("hex", "hex"));
    assert!(!same_text("hex", "Hex"));
}

#[test]
fn numbers_are_written_in_decimal() {
    assert_eq!(decimal_text(0), "0");
    assert_eq!(decimal_text(7), "7");
    assert_eq!(decimal_text(10), "10");
    assert_eq!(decimal_text(1_000_203), "1000203");
    assert_eq!(decimal_text(u64::MAX), u64::MAX.to_string());
}

#[test]
fn white_space_is_that_of_unicode() {
    for n in 0u32..=0x10ffff {
        if let Some(c) = char::from_u32(n) {
            assert_eq!(is_white_space(c), c.is_whitespace(), "{:x}", n);
        }
    }
}

#[test]
fn trimming_agrees_with_std() {
    for s in ["", " ", "a", " a", "a ", "\t a b \r\n", "\u{3000}x\u{2028}", "\u{200b}x\u{200b}"] {
        assert_eq!(trim(s), s.trim());
        let spaced = format!(" \t{}\u{3000}\n", s);
        assert_eq!(trim(&spaced), trim(s));
    }
}

#[test]
fn names_are_split_at_commas_and_trimmed() {
    assert_eq!(parse_names("a, b ,c"), vec!["a", "b", "c"]);
    assert_eq!(parse_names(""), vec![""]);
    assert_eq!(parse_names(","), vec!["", ""]);
    assert_eq!(parse_names(" x y ,\u{e9}\n"), vec!["x y", "\u{e9}"]);
}

#[test]
fn a_list_has_one_name_more_than_commas() {
    for s in ["", "a", "a,b", ",,", " ,x, ,y"] {
        let commas = s.chars().filter(|c| *c == ',').count();
        let names = parse_names(s);
        assert_eq!(names.len(), commas + 1);
        for name in &names {
            assert_eq!(name.trim(), name);
            assert!(!name.contains(','));
        }
    }
}

#[test]
fn networks_are_chosen_by_their_core_names() {
    assert_eq!(choose_network(Some("main")), Network::Bitcoin);
    assert_eq!(choose_network(Some("test")), Network::Testnet);
    assert_eq!(choose_network(Some("signet")), Network::Signet);
    assert_eq!(choose_network(Some("regtest")), Network::Regtest);
    assert_eq!(choose_network(Some("bitcoin")), Network::Regtest);
    assert_eq!(choose_network(Some("")), Network::Regtest);
    assert_eq!(choose_network(None), Network::Regtest);
}

#[test]
fn networks_are_shown_by_their_names() {
    assert_eq!(write_network_line(Network::Bitcoin), "Bitcoin network: bitcoin");
    assert_eq!(write_network_line(Network::Testnet), "Bitcoin network: testnet");
    assert_eq!(write_network_line(Network::Signet), "Bitcoin network: signet");
    assert_eq!(write_network_line(Network::Regtest), "Bitcoin network: regtest");
}

#[test]
fn addresses_of_the_first_secret() {
    assert_eq!(
        secp256k1_addresses(&secret_one(), Network::Bitcoin),
        Ok("p2tr address: bc1pmfr3p9j00pfxjh0zmgp99y8zftmd3s5pmedqhyptwy6lm87hf5sspknck9\n\
            p2pkh address: 1BgGZ9tcN4rm9KBzDn7KprQz87SZ26SAMH\n\
            p2wpkh address: bc1qw508d6qejxtdg4y5r3zarvary0c5xw7kv8f3t4"
            .to_string())
    );
    let regtest = secp256k1_addresses(&secret_one(), Network::Regtest).unwrap();
    assert!(regtest.contains("bcrt1qw508d6qejxtdg4y5r3zarvary0c5xw7kygt080"));
    let testnet = secp256k1_addresses(&secret_one(), Network::Testnet).unwrap();
    assert!(testnet.contains("tb1qw508d6qejxtdg4y5r3zarvary0c5xw7kxpjzsx"));
    assert_eq!(testnet, secp256k1_addresses(&secret_one(), Network::Signet).unwrap());
}

#[test]
fn secrets_out_of_range_have_no_addresses() {
    let refusal = Err(vec!["malformed or out-of-range secret key".to_string()]);
    let order: [u8; 32] = [
        0xff, 0xff, 0xff, 0xff, 0xff, 0xff, 0xff, 0xff, 0xff, 0xff, 0xff, 0xff, 0xff, 0xff, 0xff,
        0xfe, 0xba, 0xae, 0xdc, 0xe6, 0xaf, 0x48, 0xa0, 0x3b, 0xbf, 0xd2, 0x5e, 0x8c, 0xd0, 0x36,
        0x41, 0x41,
    ];
    assert_eq!(secp256k1_addresses(&[], Network::Bitcoin), refusal);
    assert_eq!(secp256k1_addresses(&[1u8; 31], Network::Bitcoin), refusal);
    assert_eq!(secp256k1_addresses(&[1u8; 33], Network::Bitcoin), refusal);
    assert_eq!(secp256k1_addresses(&[0u8; 32], Network::Bitcoin), refusal);
    assert_eq!(secp256k1_addresses(&order, Network::Bitcoin), refusal);
    assert_eq!(secp256k1_addresses(&[0xffu8; 32], Network::Bitcoin), refusal);
    let mut largest = order;
    largest[31] = 0x40;
    assert!(secp256k1_addresses(&largest, Network::Bitcoin).is_ok());
}

#[test]
fn addresses_must_belong_to_the_network() {
    let address = "bc1qw508d6qejxtdg4y5r3zarvary0c5xw7kv8f3t4";
    assert_eq!(check_address(address, Network::Bitcoin), Ok(address.to_string()));
    let upper = "BC1QW508D6QEJXTDG4Y5R3ZARVARY0C5XW7KV8F3T4";
    assert_eq!(check_address(upper, Network::Bitcoin), Ok(address.to_string()));
    assert!(check_address(address, Network::Regtest).is_err());
    assert!(check_address("not an address", Network::Bitcoin).is_err());
    assert!(check_address("", Network::Bitcoin).is_err());
}

#[test]
fn a_refusal_comes_with_its_causes() {
    let error = "not an address"
        .parse::<bitcoin::Address<bitcoin::address::NetworkUnchecked>>()
        .unwrap_err();
    let messages = check_address("not an address", Network::Bitcoin).unwrap_err();
    assert_eq!(messages[0], error.to_string());
    assert!(messages.len() > 1);
    assert_eq!(messages[1], std::error::Error::source(&error).unwrap().to_string());
}

#[test]
fn derivation_paths_are_written() {
    assert_eq!(secp256k1_derivation(0, 0), "m/44'/0'/0'/1/0");
    assert_eq!(secp256k1_derivation(12, 345), "m/44'/0'/12'/1/345");
    assert_eq!(ed25519_derivation(0, 0), "m/42'/0'/0'/1/0");
    assert_eq!(ed25519_derivation(u32::MAX, 9), "m/42'/0'/4294967295'/1/9");
}

#[test]
fn ed25519_keys_are_addressed_in_hexadecimal() {
    assert_eq!(ed25519_address_text(&[0x00, 0x0f, 0xa5, 0xff]), "0x000fa5ff");
    assert_eq!(ed25519_address_text(&[]), "0x");
}

#[test]
fn additional_data_is_fixed() {
    assert_eq!(keystore_aad_bytes(), b"ns-inscriber");
    assert_eq!(transfer_aad_bytes(), b"NS:COSE/Transfer.Key");
    assert_eq!(message_aad_bytes(), b"NS:COSE/Sign.Mesage");
}

#[test]
fn key_files_are_named_after_their_keys() {
    assert_eq!(key_file_name("seed"), "seed.cose.key");
    assert_eq!(key_file_name(""), ".cose.key");
}

#[test]
fn settings_have_defaults() {
    let none = Settings::new(None, None, None, None, None, None);
    assert_eq!(none.network, Network::Regtest);
    assert_eq!(none.kek, "");
    assert_eq!(none.rpc_url, None);
    assert_eq!(none.rpc_user, "");
    assert_eq!(none.rpc_password, "");
    assert_eq!(none.rpc_token, "");
    let some = Settings::new(
        Some("main".to_string()),
        Some("k".to_string()),
        Some("u".to_string()),
        Some("a".to_string()),
        Some("b".to_string()),
        Some("c".to_string()),
    );
    assert_eq!(some.network, Network::Bitcoin);
    assert_eq!(some.kek, "k");
    assert_eq!(some.rpc_url, Some("u".to_string()));
    assert_eq!(some.rpc_user, "a");
    assert_eq!(some.rpc_password, "b");
    assert_eq!(some.rpc_token, "c");
    assert_eq!(keys_dir(None), "./keys");
    assert_eq!(keys_dir(Some("/k".to_string())), "/k");
    assert_eq!(keys_dir(Some(String::new())), "");
}

#[test]
fn the_config_file_is_that_of_the_command_line() {
    let cli = Cli { config: Some(".env".to_string()), command: Some(Commands::NewSeed {}) };
    assert_eq!(cli.config_file(), ".env");
}

#[test]
fn amounts_are_shown_in_bitcoin() {
    assert_eq!(
        write_fee_lines(150_000_000, 50_000_000),
        "estimate fee: 1 BTC\nmin balance (fee + min change): 1.5 BTC"
    );
    assert_eq!(
        write_fee_lines(12_345, 12_345),
        "estimate fee: 0 BTC\nmin balance (fee + min change): 0.00012345 BTC"
    );
    assert_eq!(
        write_fee_lines(2_100_000_000_000_010, 10),
        "estimate fee: 21000000 BTC\nmin balance (fee + min change): 21000000.0000001 BTC"
    );
    assert_eq!(
        write_fee_lines(u64::MAX, 0),
        "estimate fee: 184467440737.09551615 BTC\n\
         min balance (fee + min change): 184467440737.09551615 BTC"
    );
}

fn sizes() -> PreviewSizes {
    PreviewSizes {
        commit_size: 235,
        commit_vsize: 153,
        reveal_size: 420,
        reveal_vsize: 201,
        min_balance: 2_000,
        reveal_output: Some(546),
    }
}

#[test]
fn sizes_are_shown() {
    assert_eq!(
        write_size_lines(2, &sizes()),
        "inscriptions: 2\ncommit_tx: 235 bytes, 153 vBytes\nreveal_tx: 420 bytes, 201 vBytes"
    );
    assert_eq!(write_total_line(&sizes()), Some("total bytes: 655, 354 vBytes".to_string()));
    let mut large = sizes();
    large.commit_size = usize::MAX;
    assert_eq!(write_total_line(&large), None);
    let mut large = sizes();
    large.reveal_vsize = usize::MAX;
    assert_eq!(write_total_line(&large), None);
}

fn output(value: u64, script: &[u8]) -> TxOutput<Vec<u8>> {
    TxOutput { value, script_pubkey: script.to_vec() }
}

#[test]
fn the_first_matching_output_is_chosen() {
    let p2wpkh = vec![0u8, 20, 1];
    let p2tr = vec![0x51u8, 32, 2];
    let outputs =
        vec![output(900, &[9]), output(500, &p2tr), output(700, &p2wpkh), output(800, &p2tr)];
    let found = choose_output(vec![7], &outputs, Some(500), &p2wpkh, &p2tr).unwrap();
    assert_eq!(found.txid, vec![7]);
    assert_eq!(found.vout, 2);
    assert_eq!(found.amount, 700);
    assert_eq!(found.script_pubkey, p2wpkh);
    let found = choose_output(vec![7], &outputs, None, &p2wpkh, &p2tr).unwrap();
    assert_eq!(found.vout, 1);
    assert_eq!(found.amount, 500);
    assert_eq!(found.script_pubkey, p2tr);
    assert!(choose_output(vec![7], &outputs, Some(800), &p2wpkh, &p2tr).is_none());
    assert!(choose_output(vec![7], &outputs, None, &vec![], &vec![9, 9]).is_none());
    assert!(choose_output(vec![7], &vec![], None, &p2wpkh, &p2tr).is_none());
}

#[test]
fn a_registration_is_the_first_of_its_name() {
    let name = register_name("a".to_string(), vec![1, 2], vec![vec![3]]);
    assert_eq!(name.name, "a");
    assert_eq!(name.sequence, 0);
    assert_eq!(name.service.code, 0);
    assert_eq!(name.service.operation.subcode, 1);
    assert_eq!(name.service.operation.params.public_keys, vec![vec![1, 2]]);
    assert_eq!(name.service.operation.params.threshold, None);
    assert_eq!(name.service.operation.params.kind, None);
    assert!(name.service.attesters.is_none());
    assert_eq!(name.signatures, vec![vec![3]]);
}

#[test]
fn the_first_cid_among_the_headers_counts() {
    let header = |label: HeaderLabel<String>, shown: &str| HeaderItem {
        label,
        shown: shown.to_string(),
    };
    let text = |t: &str| HeaderLabel::Text(t.to_string());
    let items = vec![
        header(HeaderLabel::Int(3), "n"),
        header(text("CID"), "x"),
        header(text("cid"), "y"),
        header(text("cid"), "z"),
    ];
    assert_eq!(find_cid(&items), Some("y".to_string()));
    assert_eq!(find_cid(&vec![header(text("id"), "x")]), None);
    assert_eq!(find_cid(&vec![]), None);
}

#[test]
fn the_cid_is_read_from_a_protected_file() {
    let unprotected = coset::HeaderBuilder::new()
        .text_value("other".to_string(), coset::cbor::value::Value::Integer(5.into()))
        .text_value("cid".to_string(), coset::cbor::value::Value::Text("mykey".to_string()))
        .build();
    let e0 = coset::CoseEncrypt0Builder::new()
        .unprotected(unprotected)
        .ciphertext(vec![1, 2, 3])
        .build();
    let tagged = e0.clone().to_tagged_vec().unwrap();
    assert_eq!(read_cid(&tagged), Ok(Some("Text(\"mykey\")".to_string())));
    let plain = coset::CoseEncrypt0Builder::new().ciphertext(vec![1]).build();
    assert_eq!(read_cid(&plain.to_tagged_vec().unwrap()), Ok(None));
    assert!(read_cid(&e0.to_vec().unwrap()).is_err());
    assert!(read_cid(&[]).is_err());
}

#[test]
fn failures_have_messages() {
    let texts = |failure: Failure<Concrete>| failure.messages();
    assert_eq!(texts(Failure::KekMissing), vec!["INSCRIBER_KEK not found"]);
    let name = || "k".to_string();
    assert_eq!(texts(Failure::NotSecp256k1 { name: name() }), vec!["k is not a secp256k1 key"]);
    assert_eq!(texts(Failure::NotEd25519 { name: name() }), vec!["k is not a ed25519 key"]);
    assert_eq!(texts(Failure::InvalidName { name: name() }), vec!["invalid name to inscribe: k"]);
    assert_eq!(texts(Failure::NoNames), vec!["no names to inscribe"]);
    assert_eq!(texts(Failure::NoMatchedOutput), vec!["no matched transaction out to spend"]);
    let messages = vec!["m".to_string(), "cause".to_string()];
    assert_eq!(texts(Failure::Outside { messages }), vec!["m", "cause"]);
    assert_eq!(texts(Failure::Misreply), vec!["the answer does not fit the question"]);
}
