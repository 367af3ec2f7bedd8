use coset::CborSerializable;
use ns_inscriber_core::cli::Commands;
use ns_inscriber_core::form::{
    Concrete, DirEntry, Encrypt0, KeyFacts, KeyId, ThresholdLevel, TxOutput, UnspentTxOut,
};
use ns_inscriber_core::session::Session;
use ns_inscriber_core::state::Settings;
use ns_inscriber_core::wire::{Defect, Failure, Outcome, PreviewSizes, Reply, Request};

type Turn = (Session, Request<Concrete>);

fn owned(s: &str) -> String {
    s.to_string()
}

fn text(s: &str) -> Reply<Concrete> {
    Reply::Text(owned(s))
}

fn bytes(b: &[u8]) -> Reply<Concrete> {
    Reply::Bytes(b.to_vec())
}

fn settings_with(kek: &str, rpc_url: Option<&str>) -> Settings<Concrete> {
    Settings::new(
        Some(owned("main")),
        Some(owned(kek)),
        rpc_url.map(owned),
        Some(owned("user")),
        None,
        Some(owned("token")),
    )
}

fn settings() -> Settings<Concrete> {
    settings_with(" c2VhbGVk\n", Some("http://node"))
}

fn start(command: Commands) -> Turn {
    Session::start(settings(), Some(command))
}

fn printed(turn: &Turn) -> &str {
    match &turn.1 {
        Request::Print { text } => text,
        _ => panic!("not a print"),
    }
}

fn next(turn: Turn, reply: Reply<Concrete>) -> Turn {
    turn.0.answer(reply)
}

fn assert_success(turn: Turn) {
    assert!(matches!(turn.1, Request::Exit(Outcome::Success)));
}

fn assert_closing(turn: Turn, line: &str) {
    assert_eq!(printed(&turn), line);
    assert_success(next(turn, Reply::Done));
}

fn failure(turn: Turn) -> Failure<Concrete> {
    match turn.1 {
        Request::Exit(Outcome::Failure(failure)) => failure,
        _ => panic!("not a failure"),
    }
}

fn assert_outside(turn: Turn, expected: &str) {
    match failure(turn) {
        Failure::Outside { messages } => assert_eq!(messages, vec![expected]),
        _ => panic!("another failure"),
    }
}

fn assert_panics(turn: Turn, expected: Defect) {
    match turn.1 {
        Request::Exit(Outcome::Panic(defect)) => assert_eq!(defect, expected),
        _ => panic!("no panic"),
    }
}

fn symmetric_key(fill: u8) -> Vec<u8> {
    coset::CoseKeyBuilder::new_symmetric_key(vec![fill; 32]).build().to_vec().unwrap()
}

fn facts(secp256k1: bool, ed25519: bool, secret: Result<Vec<u8>, String>) -> Reply<Concrete> {
    let secret = secret.map_err(|message| vec![message]);
    Reply::Facts(KeyFacts {
        secp256k1,
        ed25519,
        secret,
        kid: Some(KeyId::Text(owned("kid"))),
        kid_debug: owned("Some(Text(\"kid\"))"),
        kid_text: owned("kid"),
    })
}

fn secret_one() -> Vec<u8> {
    let mut secret = vec![0u8; 32];
    secret[31] = 1;
    secret
}

fn assert_kek(encryptor: &Encrypt0<Concrete>) {
    assert_eq!(encryptor.key, vec![7u8; 32]);
    match &encryptor.kid {
        Some(KeyId::Text(kid)) => assert_eq!(kid, "mykek"),
        _ => panic!("another identifier"),
    }
}

/// Opens the key encryption key, which has 32 times 7 as its secret and is called `mykek`.
fn open(turn: Turn) -> Turn {
    match &turn.1 {
        Request::PromptSecret { text } => assert_eq!(text, "Enter the password protected KEK: "),
        _ => panic!("no prompt"),
    }
    let turn = next(turn, text("p\u{e4}ss"));
    match &turn.1 {
        Request::Hash256 { data } => assert_eq!(data, "p\u{e4}ss".as_bytes()),
        _ => panic!("no hash"),
    }
    let turn = next(turn, bytes(&[1; 32]));
    match &turn.1 {
        Request::DecodeBase64Url { text } => assert_eq!(text, "c2VhbGVk"),
        _ => panic!("no decoding"),
    }
    let turn = next(turn, bytes(&[2, 2]));
    match &turn.1 {
        Request::SkipTag { data } => assert_eq!(data, &vec![2, 2]),
        _ => panic!("no tag"),
    }
    let turn = next(turn, bytes(&[2]));
    match &turn.1 {
        Request::Decrypt { encryptor, ciphertext, aad } => {
            assert_eq!(encryptor.key, vec![1u8; 32]);
            assert!(encryptor.kid.is_none());
            assert_eq!(ciphertext, &vec![2]);
            assert_eq!(aad, b"ns-inscriber");
        }
        _ => panic!("no decryption"),
    }
    let turn = next(turn, bytes(&symmetric_key(7)));
    match &turn.1 {
        Request::InspectKey { key } => assert_eq!(key, &symmetric_key(7)),
        _ => panic!("no inspection"),
    }
    next(
        turn,
        Reply::Facts(KeyFacts {
            secp256k1: false,
            ed25519: false,
            secret: Ok(vec![7; 32]),
            kid: Some(KeyId::Text(owned("mykek"))),
            kid_debug: owned("-"),
            kid_text: owned("-"),
        }),
    )
}

/// Reads a key file up to the inspection of the key in it.
fn read(turn: Turn, expected: &str, key: &[u8]) -> Turn {
    match &turn.1 {
        Request::ReadKeyFile { file } => assert_eq!(file, expected),
        _ => panic!("no file is read"),
    }
    read_data(turn, key)
}

fn read_data(turn: Turn, key: &[u8]) -> Turn {
    let turn = next(turn, bytes(&[3, 3]));
    match &turn.1 {
        Request::SkipTag { data } => assert_eq!(data, &vec![3, 3]),
        _ => panic!("no tag"),
    }
    let turn = next(turn, bytes(&[3]));
    match &turn.1 {
        Request::Decrypt { encryptor, ciphertext, aad } => {
            assert_kek(encryptor);
            assert_eq!(ciphertext, &vec![3]);
            assert_eq!(aad, b"ns-inscriber");
        }
        _ => panic!("no decryption"),
    }
    let turn = next(turn, bytes(key));
    match &turn.1 {
        Request::InspectKey { key: inspected } => assert_eq!(inspected, key),
        _ => panic!("no inspection"),
    }
    turn
}

/// Saves a key, and answers with the path of its file.
fn save(turn: Turn, expected: &str, key: &[u8], path: &str) -> (Turn, Option<KeyId<Concrete>>) {
    let (session, request) = turn;
    let cid = match request {
        Request::Encrypt { encryptor, plaintext, aad, cid } => {
            assert_kek(&encryptor);
            assert_eq!(plaintext, key);
            assert_eq!(aad, b"ns-inscriber");
            cid
        }
        _ => panic!("no encryption"),
    };
    let turn = session.answer(bytes(&[8]));
    match &turn.1 {
        Request::AddTag { data } => assert_eq!(data, &vec![8]),
        _ => panic!("no tag"),
    }
    let turn = next(turn, bytes(&[9, 8]));
    match &turn.1 {
        Request::WriteKeyFile { file, data } => {
            assert_eq!(file, expected);
            assert_eq!(data, &vec![9, 8]);
        }
        _ => panic!("no file is written"),
    }
    (next(turn, text(path)), cid)
}

#[test]
fn without_a_command_nothing_is_asked() {
    assert_success(Session::start(settings(), None));
}

#[test]
fn after_the_end_nothing_fits() {
    let turn = next(Session::start(settings(), None), Reply::Done);
    assert!(matches!(failure(turn), Failure::Misreply));
}

#[test]
fn a_failure_ends_the_command() {
    let turn = start(Commands::NewSeed {});
    assert_outside(next(turn, Reply::Failed { messages: vec![owned("disk")] }), "disk");
    let turn = start(Commands::ListKeys { detail: true });
    assert_outside(next(turn, Reply::Failed { messages: vec![owned("tty")] }), "tty");
}

#[test]
fn an_answer_must_fit() {
    let turn = start(Commands::NewSeed {});
    assert!(matches!(failure(next(turn, Reply::Done)), Failure::Misreply));
}

#[test]
fn without_a_kek_there_is_advice() {
    let (session, request) =
        Session::start(settings_with("", None), Some(Commands::ListKeys { detail: true }));
    let turn = (session, request);
    assert_eq!(
        printed(&turn),
        "INSCRIBER_KEK not found\nKEK is used to protect other keys\n\
         Run `ns-inscriber new-kek --alias=mykek` to generate a new KEK`"
    );
    assert!(matches!(failure(next(turn, Reply::Done)), Failure::KekMissing));
}

#[test]
fn a_kek_that_is_no_key_is_refused() {
    let turn = start(Commands::ListKeys { detail: true });
    let turn = next(turn, text("pw"));
    let turn = next(turn, bytes(&[1]));
    let turn = next(turn, bytes(&[2]));
    let turn = next(turn, bytes(&[2]));
    let turn = next(turn, bytes(&[0xff, 0xff]));
    let expected = coset::CoseKey::from_slice(&[0xff, 0xff]).unwrap_err().to_string();
    assert_outside(turn, &expected);
}

#[test]
fn a_kek_without_a_secret_is_refused() {
    let turn = start(Commands::ListKeys { detail: true });
    let turn = next(turn, text("pw"));
    let turn = next(turn, bytes(&[1]));
    let turn = next(turn, bytes(&[2]));
    let turn = next(turn, bytes(&[2]));
    let turn = next(turn, bytes(&symmetric_key(7)));
    assert_outside(next(turn, facts(false, false, Err(owned("no secret")))), "no secret");
}

#[test]
fn a_stored_key_is_read_in_its_own_encoding() {
    let wide = [0xa1u8, 0x18, 0x01, 0x04];
    let narrow = coset::CoseKey::from_slice(&wide).unwrap().to_vec().unwrap();
    assert_ne!(narrow, wide.to_vec());
    let turn = open(start(Commands::ExportSeed { seed: owned("s") }));
    let turn = next(next(turn, bytes(&[3])), bytes(&[3]));
    let turn = next(turn, bytes(&wide));
    match &turn.1 {
        Request::InspectKey { key } => assert_eq!(key, &narrow),
        _ => panic!("no inspection"),
    }
}

fn new_kek(alias: &str) -> Turn {
    let turn = start(Commands::NewKEK { alias: owned(alias) });
    match &turn.1 {
        Request::PromptSecret { text } => assert_eq!(text, "Enter a password to protect KEK: "),
        _ => panic!("no prompt"),
    }
    let turn = next(turn, text("pw"));
    match &turn.1 {
        Request::Hash256 { data } => assert_eq!(data, b"pw"),
        _ => panic!("no hash"),
    }
    next(turn, bytes(&[1; 32]))
}

fn finish_new_kek(turn: Turn, name: &str) {
    match &turn.1 {
        Request::NewSymmetricKey { kid: KeyId::Text(kid) } => assert_eq!(kid, name),
        _ => panic!("no key"),
    }
    let turn = next(turn, bytes(&[4, 4]));
    match &turn.1 {
        Request::Encrypt { encryptor, plaintext, aad, cid: Some(KeyId::Text(cid)) } => {
            assert_eq!(encryptor.key, vec![1u8; 32]);
            assert!(encryptor.kid.is_none());
            assert_eq!(plaintext, &vec![4, 4]);
            assert_eq!(aad, b"ns-inscriber");
            assert_eq!(cid, name);
        }
        _ => panic!("no encryption"),
    }
    let turn = next(turn, bytes(&[5]));
    match &turn.1 {
        Request::AddTag { data } => assert_eq!(data, &vec![5]),
        _ => panic!("no tag"),
    }
    let turn = next(turn, bytes(&[6, 5]));
    match &turn.1 {
        Request::EncodeBase64Url { data } => assert_eq!(data, &vec![6, 5]),
        _ => panic!("no encoding"),
    }
    assert_closing(
        next(turn, text("BgU")),
        "Put this new KEK as INSCRIBER_KEK on config file:\nBgU",
    );
}

#[test]
fn a_new_kek_is_named_by_its_alias() {
    finish_new_kek(new_kek("mykek"), "mykek");
}

#[test]
fn a_new_kek_without_an_alias_is_named_by_the_time() {
    let turn = new_kek("");
    assert!(matches!(turn.1, Request::Clock));
    finish_new_kek(next(turn, text("2024-01-02T03:04:05+00:00")), "2024-01-02T03:04:05+00:00");
}

#[test]
fn a_new_seed_is_saved_under_its_public_key() {
    let turn = start(Commands::NewSeed {});
    match &turn.1 {
        Request::FindKeyFile { file } => assert_eq!(file, "seed.cose.key"),
        _ => panic!("no file is looked for"),
    }
    let turn = next(turn, Reply::Found { exists: false, path: owned("k/seed.cose.key") });
    let turn = open(turn);
    assert!(matches!(turn.1, Request::NewSeedKey));
    let turn = next(turn, Reply::KeyPair { key: vec![4], public_key: vec![0xab, 0x01] });
    match &turn.1 {
        Request::SetKeyId { key, kid: KeyId::Bytes(kid) } => {
            assert_eq!(key, &vec![4]);
            assert_eq!(kid, &vec![0xab, 0x01]);
        }
        _ => panic!("no identifier"),
    }
    let key = symmetric_key(3);
    let turn = next(turn, bytes(&key));
    let (turn, cid) = save(turn, "seed.cose.key", &key, "k/seed.cose.key");
    assert!(matches!(cid, Some(KeyId::Bytes(b)) if b == vec![0xab, 0x01]));
    assert_closing(turn, "New seed key: k/seed.cose.key, key id: \"ab01\"");
}

#[test]
fn an_existing_seed_is_left() {
    let turn = start(Commands::NewSeed {});
    let turn = next(turn, Reply::Found { exists: true, path: owned("k/seed.cose.key") });
    assert_closing(turn, "k/seed.cose.key exists, skipping key generation");
}

#[test]
fn an_existing_import_is_left() {
    let turn = start(Commands::ImportSeed { alias: owned("old") });
    let turn = next(turn, Reply::Found { exists: true, path: owned("k/old.cose.key") });
    assert_closing(turn, "k/old.cose.key exists, skipping key generation");
}

#[test]
fn a_seed_is_imported_under_its_alias() {
    let turn = start(Commands::ImportSeed { alias: owned("old") });
    match &turn.1 {
        Request::FindKeyFile { file } => assert_eq!(file, "old.cose.key"),
        _ => panic!("no file is looked for"),
    }
    let turn = next(turn, Reply::Found { exists: false, path: owned("k/old.cose.key") });
    match &turn.1 {
        Request::Prompt { text } => {
            assert_eq!(text, "Enter the seed key (base64url encoded) to import: ")
        }
        _ => panic!("no prompt"),
    }
    let turn = next(turn, text("\tc2VlZA \n"));
    match &turn.1 {
        Request::PromptSecret { text } => {
            assert_eq!(text, "Enter the password that protected the seed: ")
        }
        _ => panic!("no prompt"),
    }
    let turn = next(turn, text("pw"));
    match &turn.1 {
        Request::Hash256 { data } => assert_eq!(data, b"pw"),
        _ => panic!("no hash"),
    }
    let turn = next(turn, bytes(&[5; 32]));
    match &turn.1 {
        Request::DecodeBase64Url { text } => assert_eq!(text, "c2VlZA"),
        _ => panic!("no decoding"),
    }
    let turn = next(turn, bytes(&[6, 6]));
    match &turn.1 {
        Request::SkipTag { data } => assert_eq!(data, &vec![6, 6]),
        _ => panic!("no tag"),
    }
    let turn = next(turn, bytes(&[6]));
    match &turn.1 {
        Request::Decrypt { encryptor, ciphertext, aad } => {
            assert_eq!(encryptor.key, vec![5u8; 32]);
            assert!(encryptor.kid.is_none());
            assert_eq!(ciphertext, &vec![6]);
            assert_eq!(aad, b"NS:COSE/Transfer.Key");
        }
        _ => panic!("no decryption"),
    }
    let turn = next(turn, bytes(&[4]));
    match &turn.1 {
        Request::ReadSeedKey { data } => assert_eq!(data, &vec![4]),
        _ => panic!("no key"),
    }
    let key = symmetric_key(3);
    let turn = open(next(turn, bytes(&key)));
    match &turn.1 {
        Request::InspectKey { key: inspected } => assert_eq!(inspected, &key),
        _ => panic!("no inspection"),
    }
    let turn = next(turn, facts(false, true, Ok(vec![])));
    let (turn, cid) = save(turn, "old.cose.key", &key, "k/old.cose.key");
    assert!(matches!(cid, Some(KeyId::Text(t)) if t == "kid"));
    assert_closing(turn, "Imported seed key: k/old.cose.key, key id: Some(Text(\"kid\"))");
}

#[test]
fn an_import_without_an_alias_is_named_by_the_time() {
    let turn = start(Commands::ImportSeed { alias: owned("") });
    assert!(matches!(turn.1, Request::Clock));
    let turn = next(turn, text("2024-01-02T03:04:05Z"));
    match &turn.1 {
        Request::FindKeyFile { file } => assert_eq!(file, "2024-01-02T03:04:05Z.seed.cose.key"),
        _ => panic!("no file is looked for"),
    }
}

#[test]
fn a_seed_is_exported() {
    let turn = open(start(Commands::ExportSeed { seed: owned("seed") }));
    let key = symmetric_key(3);
    let turn = next(read(turn, "seed.cose.key", &key), facts(false, true, Err(owned("-"))));
    match &turn.1 {
        Request::PromptSecret { text } => {
            assert_eq!(text, "Enter a password to protect the seed: ")
        }
        _ => panic!("no prompt"),
    }
    let turn = next(turn, text("pw"));
    match &turn.1 {
        Request::Hash256 { data } => assert_eq!(data, b"pw"),
        _ => panic!("no hash"),
    }
    let turn = next(turn, bytes(&[5; 32]));
    match &turn.1 {
        Request::EncodeSeedKey { key: exported } => assert_eq!(exported, &key),
        _ => panic!("no key"),
    }
    let turn = next(turn, bytes(&[4]));
    match &turn.1 {
        Request::Encrypt { encryptor, plaintext, aad, cid: Some(KeyId::Text(cid)) } => {
            assert_eq!(encryptor.key, vec![5u8; 32]);
            assert!(encryptor.kid.is_none());
            assert_eq!(plaintext, &vec![4]);
            assert_eq!(aad, b"NS:COSE/Transfer.Key");
            assert_eq!(cid, "kid");
        }
        _ => panic!("no encryption"),
    }
    let turn = next(turn, bytes(&[6]));
    match &turn.1 {
        Request::EncodeBase64Url { data } => assert_eq!(data, &vec![6]),
        _ => panic!("no encoding"),
    }
    assert_closing(
        next(turn, text("Bg")),
        "The exported seed key (base64url encoded):\n\nBg\n\n",
    );
}

const HARDENED: u32 = 0x8000_0000;

#[test]
fn a_secp256k1_key_is_derived() {
    let command = Commands::Secp256k1Derive { seed: owned("seed"), acc: 3, idx: 14 };
    let turn = open(start(command));
    let seed = symmetric_key(3);
    let turn = next(read(turn, "seed.cose.key", &seed), facts(false, true, Ok(vec![])));
    match &turn.1 {
        Request::SeedSecret { key } => assert_eq!(key, &seed),
        _ => panic!("no secret"),
    }
    let turn = next(turn, bytes(&[1, 2]));
    match &turn.1 {
        Request::DeriveSecp256k1 { secret, path, .. } => {
            assert_eq!(secret, &vec![1, 2]);
            assert_eq!(path, &vec![44 + HARDENED, HARDENED, 3 + HARDENED, 1, 14]);
        }
        _ => panic!("no derivation"),
    }
    let turn = next(turn, bytes(&secret_one()));
    match &turn.1 {
        Request::MakeSecp256k1Key { secret, kid: KeyId::Text(kid) } => {
            assert_eq!(secret, &secret_one());
            assert_eq!(kid, "m/44'/0'/3'/1/14");
        }
        _ => panic!("no key"),
    }
    let key = symmetric_key(9);
    let file = "bc1qw508d6qejxtdg4y5r3zarvary0c5xw7kv8f3t4.cose.key";
    let (turn, cid) = save(next(turn, bytes(&key)), file, &key, "k/f");
    assert!(matches!(cid, Some(KeyId::Text(t)) if t == "m/44'/0'/3'/1/14"));
    assert_closing(turn, "key: k/f, address: bc1qw508d6qejxtdg4y5r3zarvary0c5xw7kv8f3t4");
}

#[test]
fn a_derived_secret_out_of_range_is_refused() {
    let command = Commands::Secp256k1Derive { seed: owned("seed"), acc: 0, idx: 0 };
    let turn = open(start(command));
    let turn = read(turn, "seed.cose.key", &symmetric_key(3));
    let turn = next(next(turn, facts(false, true, Ok(vec![]))), bytes(&[1]));
    assert_outside(next(turn, bytes(&[0; 32])), "malformed or out-of-range secret key");
}

#[test]
fn accounts_and_indices_end_below_the_hardened_ones() {
    let derive = |acc: u32, idx: u32| {
        let turn = open(start(Commands::Secp256k1Derive { seed: owned("s"), acc, idx }));
        next(read(turn, "s.cose.key", &symmetric_key(3)), facts(false, true, Ok(vec![])))
    };
    assert!(matches!(derive(HARDENED - 1, HARDENED - 1).1, Request::SeedSecret { .. }));
    assert!(matches!(failure(derive(HARDENED, 0)), Failure::Outside { .. }));
    assert!(matches!(failure(derive(0, u32::MAX)), Failure::Outside { .. }));
    let derive = |acc: u32, idx: u32| {
        let turn = open(start(Commands::Ed25519Derive { seed: owned("s"), acc, idx }));
        next(read(turn, "s.cose.key", &symmetric_key(3)), facts(false, true, Ok(vec![])))
    };
    assert!(matches!(failure(derive(HARDENED, 0)), Failure::Outside { .. }));
    assert!(matches!(failure(derive(0, HARDENED)), Failure::Outside { .. }));
}

#[test]
fn an_ed25519_key_is_derived() {
    let command = Commands::Ed25519Derive { seed: owned("old"), acc: 0, idx: 2147483647 };
    let turn = open(start(command));
    let seed = symmetric_key(3);
    let turn = next(read(turn, "old.cose.key", &seed), facts(false, true, Ok(vec![])));
    let turn = next(turn, bytes(&[1, 2]));
    match &turn.1 {
        Request::DeriveEd25519 { secret, path } => {
            assert_eq!(secret, &vec![1, 2]);
            assert_eq!(path, &vec![42 + HARDENED, HARDENED, HARDENED, 1, HARDENED - 1]);
        }
        _ => panic!("no derivation"),
    }
    let turn = next(turn, Reply::KeyPair { key: vec![6], public_key: vec![0xfe, 0x0d] });
    match &turn.1 {
        Request::MakeEd25519Key { secret, kid: KeyId::Text(kid) } => {
            assert_eq!(secret, &vec![6]);
            assert_eq!(kid, "m/42'/0'/0'/1/2147483647");
        }
        _ => panic!("no key"),
    }
    let key = symmetric_key(9);
    let (turn, cid) = save(next(turn, bytes(&key)), "0xfe0d.cose.key", &key, "k/f");
    assert!(matches!(cid, Some(KeyId::Text(t)) if t == "m/42'/0'/0'/1/2147483647"));
    assert_closing(turn, "key: k/f, public key: 0xfe0d");
}

#[test]
fn a_key_is_saved_in_the_encoding_that_it_has() {
    let reserved = coset::CoseKey::default().to_vec().unwrap();
    assert!(coset::CoseKey::from_slice(&reserved).is_err());
    for key in [reserved.as_slice(), &[0xa1, 0x18, 0x01, 0x04], &symmetric_key(5)] {
        let command = Commands::Ed25519Derive { seed: owned("s"), acc: 0, idx: 0 };
        let turn = open(start(command));
        let turn = read(turn, "s.cose.key", &symmetric_key(3));
        let turn = next(next(turn, facts(false, true, Ok(vec![]))), bytes(&[1]));
        let turn = next(turn, Reply::KeyPair { key: vec![6], public_key: vec![1] });
        let (turn, _) = save(next(turn, bytes(key)), "0x01.cose.key", key, "k/f");
        assert_closing(turn, "key: k/f, public key: 0x01");
    }
}

#[test]
fn a_failure_keeps_its_causes() {
    let messages = vec![owned("read"), owned("disk")];
    let turn = next(start(Commands::NewSeed {}), Reply::Failed { messages });
    assert_eq!(failure(turn).messages(), vec!["read", "disk"]);
}

fn protected_file(cid: Option<&str>) -> Vec<u8> {
    let mut header = coset::HeaderBuilder::new();
    if let Some(cid) = cid {
        let value = coset::cbor::value::Value::Text(owned(cid));
        header = header.text_value(owned("cid"), value);
    }
    let e0 = coset::CoseEncrypt0Builder::new().unprotected(header.build()).ciphertext(vec![1]);
    coset::TaggedCborSerializable::to_tagged_vec(e0.build()).unwrap()
}

fn file(name: &str) -> DirEntry<String> {
    DirEntry::File { name: owned(name) }
}

#[test]
fn keys_are_listed_from_the_open() {
    let turn = start(Commands::ListKeys { detail: false });
    assert!(matches!(turn.1, Request::ListKeyFiles));
    let entries = vec![DirEntry::Other, file("a"), DirEntry::Other, file("b"), DirEntry::Other];
    let turn = next(turn, Reply::Entries(entries));
    assert_eq!(printed(&turn), "\nkey file: a");
    let turn = next(turn, Reply::Done);
    assert!(matches!(turn.1, Request::ReadListedFile { index: 1 }));
    let turn = next(turn, bytes(&[1, 1]));
    match &turn.1 {
        Request::SkipTag { data } => assert_eq!(data, &vec![1, 1]),
        _ => panic!("no tag"),
    }
    let turn = next(turn, bytes(&protected_file(Some("mykey"))));
    assert_eq!(printed(&turn), "key id: Text(\"mykey\")");
    let turn = next(turn, Reply::Done);
    assert_eq!(printed(&turn), "\nkey file: b");
    let turn = next(turn, Reply::Done);
    assert!(matches!(turn.1, Request::ReadListedFile { index: 3 }));
    let turn = next(next(turn, bytes(&[1])), bytes(&protected_file(None)));
    assert_success(turn);
}

#[test]
fn a_list_stops_at_what_cannot_be_read() {
    let turn = start(Commands::ListKeys { detail: false });
    let broken = DirEntry::Failed { message: owned("io") };
    let turn = next(turn, Reply::Entries(vec![DirEntry::Other, broken, file("a")]));
    assert_outside(turn, "io");
    let turn = start(Commands::ListKeys { detail: false });
    let turn = next(next(turn, Reply::Entries(vec![file("a")])), Reply::Done);
    let turn = next(next(turn, bytes(&[1])), bytes(&[1]));
    assert!(matches!(failure(turn), Failure::Outside { .. }));
}

#[test]
fn an_empty_list_is_no_failure() {
    let turn = start(Commands::ListKeys { detail: false });
    assert_success(next(turn, Reply::Entries(vec![])));
}

#[test]
fn keys_are_listed_from_inside() {
    let turn = open(start(Commands::ListKeys { detail: true }));
    assert!(matches!(turn.1, Request::ListKeyFiles));
    let turn = next(turn, Reply::Entries(vec![file("a"), DirEntry::Other, file("b")]));
    assert_eq!(printed(&turn), "\nkey file: a");
    let turn = next(turn, Reply::Done);
    assert!(matches!(turn.1, Request::ReadListedFile { index: 0 }));
    let turn = next(read_data(turn, &symmetric_key(3)), facts(false, false, Ok(vec![])));
    assert_eq!(printed(&turn), "key id: kid");
    let turn = next(turn, Reply::Done);
    assert_eq!(printed(&turn), "\nkey file: b");
    let turn = next(turn, Reply::Done);
    assert!(matches!(turn.1, Request::ReadListedFile { index: 2 }));
    let turn = next(read_data(turn, &symmetric_key(4)), facts(true, false, Ok(vec![])));
    assert_success(next(turn, Reply::Done));
}

fn with_key(command: Commands, file: &str, facts: Reply<Concrete>) -> Turn {
    next(read(open(start(command)), file, &symmetric_key(3)), facts)
}

#[test]
fn addresses_are_shown() {
    let command = || Commands::Secp256k1Address { key: owned("a") };
    assert_closing(
        with_key(command(), "a.cose.key", facts(true, false, Ok(secret_one()))),
        "p2tr address: bc1pmfr3p9j00pfxjh0zmgp99y8zftmd3s5pmedqhyptwy6lm87hf5sspknck9\n\
         p2pkh address: 1BgGZ9tcN4rm9KBzDn7KprQz87SZ26SAMH\n\
         p2wpkh address: bc1qw508d6qejxtdg4y5r3zarvary0c5xw7kv8f3t4",
    );
    let turn = with_key(command(), "a.cose.key", facts(false, true, Ok(secret_one())));
    assert!(matches!(failure(turn), Failure::NotSecp256k1 { name } if name == "a"));
    let turn = with_key(command(), "a.cose.key", facts(true, false, Err(owned("no secret"))));
    assert_outside(turn, "no secret");
    let turn = with_key(command(), "a.cose.key", facts(true, false, Ok(vec![0; 32])));
    assert_outside(turn, "malformed or out-of-range secret key");
}

fn sign(enc: &str) -> Commands {
    Commands::SignMessage { key: owned("k"), msg: owned("hi"), enc: owned(enc) }
}

#[test]
fn a_message_is_signed_with_secp256k1() {
    let begin = |enc: &str| {
        let turn = with_key(sign(enc), "k.cose.key", facts(true, false, Ok(secret_one())));
        assert_eq!(printed(&turn), "message: hi");
        let turn = next(turn, Reply::Done);
        match &turn.1 {
            Request::SignSecp256k1 { secret, message } => {
                assert_eq!(secret, &secret_one());
                assert_eq!(message, "hi");
            }
            _ => panic!("no signature"),
        }
        next(turn, bytes(&[0xde, 0xad]))
    };
    assert_closing(begin("hex"), "signature:\ndead");
    let turn = begin("base64");
    match &turn.1 {
        Request::EncodeBase64Url { data } => assert_eq!(data, &vec![0xde, 0xad]),
        _ => panic!("no encoding"),
    }
    assert_closing(next(turn, text("3q0")), "signature:\n3q0");
    assert!(matches!(begin("HEX").1, Request::EncodeBase64Url { .. }));
}

#[test]
fn a_message_is_signed_with_ed25519() {
    let turn = with_key(sign("hex"), "k.cose.key", facts(false, true, Err(owned("-"))));
    assert_eq!(printed(&turn), "message: hi");
    let turn = next(turn, Reply::Done);
    match &turn.1 {
        Request::SignEd25519 { key, payload, aad } => {
            assert_eq!(key, &symmetric_key(3));
            assert_eq!(payload, b"hi");
            assert_eq!(aad, b"NS:COSE/Sign.Mesage");
        }
        _ => panic!("no signature"),
    }
    assert_closing(next(turn, bytes(&[0xbe, 0xef])), "signed message:\nbeef");
    let turn = with_key(sign(""), "k.cose.key", facts(false, true, Ok(vec![])));
    let turn = next(next(turn, Reply::Done), bytes(&[1]));
    assert_closing(next(turn, text("AQ")), "signed message:\nAQ");
}

#[test]
fn a_message_is_not_signed_with_another_key() {
    let turn = with_key(sign("hex"), "k.cose.key", facts(false, false, Ok(secret_one())));
    assert_closing(next(turn, Reply::Done), "unsupported key type");
    let turn = with_key(sign("hex"), "k.cose.key", facts(true, false, Err(owned("no secret"))));
    assert_outside(next(turn, Reply::Done), "no secret");
    let turn = with_key(sign("hex"), "k.cose.key", facts(true, false, Ok(vec![1])));
    assert_outside(next(turn, Reply::Done), "malformed or out-of-range secret key");
}

fn verify(msg: &str, sig: &str, enc: &str) -> Commands {
    let owned_texts = (owned(msg), owned(sig), owned(enc));
    Commands::VerifyMessage {
        key: owned("k"),
        msg: owned_texts.0,
        sig: owned_texts.1,
        enc: owned_texts.2,
    }
}

fn assert_checks_secp256k1(turn: Turn) {
    match &turn.1 {
        Request::VerifySecp256k1 { public_key, message, signature } => {
            assert_eq!(
                hex::encode(public_key),
                "0279be667ef9dcbbac55a06295ce870b07029bfcdb2dce28d959f2815b16f81798"
            );
            assert_eq!(message, "hi");
            assert_eq!(signature, &vec![0xde, 0xad]);
        }
        _ => panic!("no check"),
    }
    assert_closing(next(turn, Reply::Done), "signature is valid");
}

#[test]
fn a_signature_is_verified_with_secp256k1() {
    let key = || facts(true, false, Ok(secret_one()));
    assert_checks_secp256k1(with_key(verify("hi", "DEad", "hex"), "k.cose.key", key()));
    let turn = with_key(verify("hi", "3q0", "base64"), "k.cose.key", key());
    match &turn.1 {
        Request::DecodeBase64 { text } => assert_eq!(text, "3q0"),
        _ => panic!("no decoding"),
    }
    assert_checks_secp256k1(next(turn, bytes(&[0xde, 0xad])));
    let turn = with_key(verify("hi", "dea", "hex"), "k.cose.key", key());
    assert_outside(turn, &hex::decode("dea").unwrap_err().to_string());
    let turn = with_key(verify("hi", "zz", "hex"), "k.cose.key", key());
    assert_outside(turn, &hex::decode("zz").unwrap_err().to_string());
}

#[test]
fn the_secret_is_needed_to_verify() {
    let key = || facts(true, false, Err(owned("no secret")));
    assert_outside(with_key(verify("hi", "", "hex"), "k.cose.key", key()), "no secret");
    let turn = with_key(verify("hi", "AQ", ""), "k.cose.key", key());
    assert_outside(next(turn, bytes(&[1])), "no secret");
    let turn = with_key(verify("hi", "", "hex"), "k.cose.key", facts(true, false, Ok(vec![])));
    assert_outside(turn, "malformed or out-of-range secret key");
}

fn assert_checks_ed25519(turn: Turn) {
    match &turn.1 {
        Request::VerifyEd25519 { key, signed, aad } => {
            assert_eq!(key, &symmetric_key(3));
            assert_eq!(signed, &vec![0xbe, 0xef]);
            assert_eq!(aad, b"NS:COSE/Sign.Mesage");
        }
        _ => panic!("no check"),
    }
    assert_closing(next(turn, Reply::Done), "signature is valid");
}

#[test]
fn a_signed_message_is_verified_with_ed25519() {
    let key = || facts(false, true, Err(owned("-")));
    assert_checks_ed25519(with_key(verify("beef", "", "hex"), "k.cose.key", key()));
    let turn = with_key(verify("vu8", "", "base64"), "k.cose.key", key());
    match &turn.1 {
        Request::DecodeBase64 { text } => assert_eq!(text, "vu8"),
        _ => panic!("no decoding"),
    }
    assert_checks_ed25519(next(turn, bytes(&[0xbe, 0xef])));
    let turn = with_key(verify("hi", "", "hex"), "k.cose.key", key());
    assert_outside(turn, &hex::decode("hi").unwrap_err().to_string());
    let turn = with_key(verify("hi", "", "hex"), "k.cose.key", facts(false, false, Ok(vec![])));
    assert_closing(turn, "unsupported key type");
}

const TXID: &str = "000102030405060708090a0b0c0d0e0f101112131415161718191a1b1c1d1e1F";

fn reversed_txid() -> Vec<u8> {
    (0u8..32).rev().collect()
}

fn send(txid: &str, to: &str) -> Commands {
    let owned_texts = (owned(txid), owned(to));
    Commands::SendSats {
        txid: owned_texts.0,
        addr: owned("a"),
        to: owned_texts.1,
        amount: 500,
        fee: 3,
    }
}

const TO: &str = "bc1qw508d6qejxtdg4y5r3zarvary0c5xw7kv8f3t4";

fn begin_send(settings: Settings<Concrete>, txid: &str, to: &str) -> Turn {
    let turn = Session::start(settings, Some(send(txid, to)));
    assert_eq!(printed(&turn), "Bitcoin network: bitcoin");
    next(turn, Reply::Done)
}

fn scripts() -> Reply<Concrete> {
    Reply::Scripts { p2wpkh: vec![0, 20], p2tr: vec![0x51, 32] }
}

fn output(value: u64, script: &[u8]) -> TxOutput<Vec<u8>> {
    TxOutput { value, script_pubkey: script.to_vec() }
}

fn assert_connects(turn: &Turn) {
    match &turn.1 {
        Request::Connect { options } => {
            assert_eq!(options.rpcurl, "http://node");
            assert_eq!(options.rpcuser, "user");
            assert_eq!(options.rpcpassword, "");
            assert_eq!(options.rpctoken, "token");
            assert_eq!(options.network, ns_inscriber_core::chain::Network::Bitcoin);
        }
        _ => panic!("no connection"),
    }
}

fn send_up_to_outputs() -> Turn {
    let turn = open(begin_send(settings(), TXID, TO));
    let turn = read(turn, "a.cose.key", &symmetric_key(3));
    let turn = next(turn, facts(true, false, Ok(secret_one())));
    match &turn.1 {
        Request::ScriptPubkeys { secret } => assert_eq!(secret, &secret_one()),
        _ => panic!("no scripts"),
    }
    let turn = next(turn, scripts());
    assert_connects(&turn);
    let turn = next(turn, Reply::Done);
    assert!(matches!(turn.1, Request::Ping));
    let turn = next(turn, Reply::Done);
    match &turn.1 {
        Request::FetchTransaction { txid } => assert_eq!(txid, &reversed_txid()),
        _ => panic!("no transaction"),
    }
    turn
}

#[test]
fn satoshis_are_sent() {
    let outputs = vec![output(500, &[0, 20]), output(900, &[1]), output(501, &[0x51, 32])];
    let turn = next(send_up_to_outputs(), Reply::Outputs(outputs));
    match &turn.1 {
        Request::SendSats { fee_rate, secret, unspent, to, amount } => {
            assert_eq!(*fee_rate, 3);
            assert_eq!(secret, &secret_one());
            assert_eq!(unspent.txid, reversed_txid());
            assert_eq!(unspent.vout, 2);
            assert_eq!(unspent.amount, 501);
            assert_eq!(unspent.script_pubkey, vec![0x51, 32]);
            assert_eq!(to, TO);
            assert_eq!(*amount, 500);
        }
        _ => panic!("nothing is sent"),
    }
    assert_closing(next(turn, text("cafe")), "txid: cafe");
}

#[test]
fn satoshis_need_a_matching_output() {
    let outputs = vec![output(500, &[0, 20]), output(900, &[1])];
    let turn = next(send_up_to_outputs(), Reply::Outputs(outputs));
    assert!(matches!(failure(turn), Failure::NoMatchedOutput));
}

#[test]
fn satoshis_need_a_transaction_and_an_address() {
    let turn = begin_send(settings(), "0001", TO);
    let expected = "0001".parse::<bitcoin::Txid>().unwrap_err().to_string();
    assert_outside(turn, &expected);
    let turn = begin_send(settings(), &TXID.replace('F', "g"), TO);
    assert!(matches!(failure(turn), Failure::Outside { .. }));
    let turn = begin_send(settings(), TXID, "nowhere");
    assert!(matches!(failure(turn), Failure::Outside { .. }));
    let turn = begin_send(settings(), TXID, "bcrt1qw508d6qejxtdg4y5r3zarvary0c5xw7kygt080");
    assert!(matches!(failure(turn), Failure::Outside { .. }));
}

#[test]
fn satoshis_need_a_secp256k1_key() {
    let begin = || read(open(begin_send(settings(), TXID, TO)), "a.cose.key", &symmetric_key(3));
    let turn = next(begin(), facts(false, true, Ok(secret_one())));
    assert!(matches!(failure(turn), Failure::NotSecp256k1 { name } if name == "a"));
    let turn = next(begin(), facts(true, false, Err(owned("no secret"))));
    assert_outside(turn, "no secret");
    let turn = next(begin(), facts(true, false, Ok(vec![0xff; 32])));
    assert_outside(turn, "malformed or out-of-range secret key");
}

#[test]
fn a_node_that_does_not_answer_is_not_used() {
    let begin = || {
        let turn = open(begin_send(settings(), TXID, TO));
        let turn = read(turn, "a.cose.key", &symmetric_key(3));
        next(next(turn, facts(true, false, Ok(secret_one()))), scripts())
    };
    let no_client = Reply::Failed { messages: vec![owned("url")] };
    assert_outside(next(begin(), no_client), "url");
    let no_ping = Reply::Failed { messages: vec![owned("timeout")] };
    assert_outside(next(next(begin(), Reply::Done), no_ping), "timeout");
}

#[test]
fn without_a_node_the_program_panics() {
    let turn = open(begin_send(settings_with("c2VhbGVk", None), TXID, TO));
    let turn = read(turn, "a.cose.key", &symmetric_key(3));
    let turn = next(turn, facts(true, false, Ok(secret_one())));
    assert_panics(next(turn, scripts()), Defect::RpcUrlMissing);
}

fn preview(names: &str) -> Commands {
    Commands::Preview { fee: 9, key: owned("author"), names: owned(names) }
}

fn inscribe(txid: &str, txout_json: &str) -> Commands {
    let owned_texts = (owned(txid), owned(txout_json));
    Commands::Inscribe {
        txid: owned_texts.0,
        txout_json: owned_texts.1,
        addr: owned("payer"),
        fee: 9,
        key: owned("author"),
        names: owned("a, b"),
    }
}

fn assert_checks(turn: &Turn, expected: &str) {
    match &turn.1 {
        Request::CheckName { name } => assert_eq!(name, expected),
        _ => panic!("no check"),
    }
}

fn checked(command: Commands) -> Turn {
    let turn = start(command);
    assert_eq!(printed(&turn), "Bitcoin network: bitcoin");
    let turn = next(turn, Reply::Done);
    assert_checks(&turn, "a");
    let turn = next(turn, Reply::Verdict(true));
    assert_checks(&turn, "b");
    next(turn, Reply::Verdict(true))
}

fn sign_one(turn: Turn, expected: &str, signature: &[u8]) -> Turn {
    match &turn.1 {
        Request::SignName { name, params, level, secret } => {
            assert_eq!(name.name, expected);
            assert_eq!(name.sequence, 0);
            assert_eq!(name.service.code, 0);
            assert_eq!(name.service.operation.subcode, 1);
            assert_eq!(name.service.operation.params.public_keys, vec![vec![0xaa]]);
            assert!(name.service.attesters.is_none());
            assert!(name.signatures.is_empty());
            assert_eq!(params.public_keys, vec![vec![0xaa]]);
            assert_eq!(params.threshold, None);
            assert_eq!(params.kind, None);
            assert_eq!(*level, ThresholdLevel::All);
            assert_eq!(secret, &vec![5; 32]);
        }
        _ => panic!("no signature"),
    }
    let turn = next(turn, Reply::Signatures(vec![signature.to_vec()]));
    match &turn.1 {
        Request::ValidateName { name } => {
            assert_eq!(name.name, expected);
            assert_eq!(name.signatures, vec![signature.to_vec()]);
        }
        _ => panic!("no validation"),
    }
    next(turn, Reply::Done)
}

fn signed(command: Commands) -> Turn {
    let turn = read(open(checked(command)), "author.cose.key", &symmetric_key(3));
    let turn = next(turn, facts(false, true, Ok(vec![5; 32])));
    match &turn.1 {
        Request::Ed25519PublicKey { secret } => assert_eq!(secret, &vec![5; 32]),
        _ => panic!("no public key"),
    }
    let turn = next(turn, bytes(&[0xaa]));
    let turn = sign_one(turn, "a", &[1]);
    sign_one(turn, "b", &[2])
}

fn sizes(min_balance: u64, reveal_output: Option<u64>) -> PreviewSizes {
    PreviewSizes {
        commit_size: 235,
        commit_vsize: 153,
        reveal_size: 420,
        reveal_vsize: 201,
        min_balance,
        reveal_output,
    }
}

fn previewed(sizes: PreviewSizes) -> Turn {
    let turn = signed(preview("a,b"));
    match &turn.1 {
        Request::Preview { names, fee_rate } => {
            assert_eq!(*fee_rate, 9);
            assert_eq!(names.len(), 2);
            assert_eq!(names[0].name, "a");
            assert_eq!(names[0].signatures, vec![vec![1]]);
            assert_eq!(names[1].name, "b");
            assert_eq!(names[1].signatures, vec![vec![2]]);
        }
        _ => panic!("no preview"),
    }
    let turn = next(turn, Reply::Sizes(sizes));
    assert!(printed(&turn).starts_with("inscriptions: 2\ncommit_tx: "));
    next(turn, Reply::Done)
}

#[test]
fn names_are_previewed() {
    let turn = previewed(sizes(2_000, Some(546)));
    assert_eq!(printed(&turn), "total bytes: 655, 354 vBytes");
    assert_closing(
        next(turn, Reply::Done),
        "estimate fee: 0.00001454 BTC\nmin balance (fee + min change): 0.00002 BTC",
    );
}

#[test]
fn a_preview_out_of_range_panics() {
    let mut large = sizes(2_000, Some(546));
    large.commit_size = usize::MAX;
    assert_panics(previewed(large), Defect::OutOfRange);
    let turn = previewed(sizes(545, Some(546)));
    assert_panics(next(turn, Reply::Done), Defect::OutOfRange);
    let turn = previewed(sizes(2_000, None));
    assert_panics(next(turn, Reply::Done), Defect::NoRevealOutput);
}

#[test]
fn an_invalid_name_ends_the_command() {
    let turn = next(start(preview("a, B ,c")), Reply::Done);
    let turn = next(turn, Reply::Verdict(true));
    assert_checks(&turn, "B");
    let turn = next(turn, Reply::Verdict(false));
    assert!(matches!(failure(turn), Failure::InvalidName { name } if name == "B"));
}

#[test]
fn an_empty_list_is_one_empty_name() {
    let turn = next(start(preview("")), Reply::Done);
    assert_checks(&turn, "");
    let turn = next(turn, Reply::Verdict(false));
    assert!(matches!(failure(turn), Failure::InvalidName { name } if name.is_empty()));
}

#[test]
fn names_need_an_ed25519_key() {
    let begin = || read(open(checked(preview("a,b"))), "author.cose.key", &symmetric_key(3));
    let turn = next(begin(), facts(true, false, Ok(vec![5; 32])));
    assert!(matches!(failure(turn), Failure::NotEd25519 { name } if name == "author"));
    let turn = next(begin(), facts(false, true, Err(owned("no secret"))));
    assert_outside(turn, "no secret");
}

#[test]
fn a_name_that_is_not_valid_once_signed_ends_the_command() {
    let turn = read(open(checked(preview("a,b"))), "author.cose.key", &symmetric_key(3));
    let turn = next(next(turn, facts(false, true, Ok(vec![5; 32]))), bytes(&[0xaa]));
    let turn = next(turn, Reply::Signatures(vec![vec![1]]));
    assert_outside(next(turn, Reply::Failed { messages: vec![owned("invalid")] }), "invalid");
}

fn connected(txid: &str, txout_json: &str) -> Turn {
    let turn = signed(inscribe(txid, txout_json));
    let turn = read(turn, "payer.cose.key", &symmetric_key(4));
    let turn = next(turn, facts(true, false, Ok(secret_one())));
    match &turn.1 {
        Request::ScriptPubkeys { secret } => assert_eq!(secret, &secret_one()),
        _ => panic!("no scripts"),
    }
    let turn = next(turn, scripts());
    assert_connects(&turn);
    let turn = next(turn, Reply::Done);
    assert!(matches!(turn.1, Request::Ping));
    next(turn, Reply::Done)
}

fn assert_inscribes(turn: Turn, txid: &[u8], vout: u32, amount: u64) {
    match &turn.1 {
        Request::Inscribe { names, fee_rate, secret, unspent } => {
            assert_eq!(names.len(), 2);
            assert_eq!(names[0].name, "a");
            assert_eq!(names[1].name, "b");
            assert_eq!(names[1].service.operation.params.public_keys, vec![vec![0xaa]]);
            assert_eq!(*fee_rate, 9);
            assert_eq!(secret, &secret_one());
            assert_eq!(unspent.txid, txid);
            assert_eq!(unspent.vout, vout);
            assert_eq!(unspent.amount, amount);
        }
        _ => panic!("nothing is inscribed"),
    }
    assert_closing(next(turn, text("cafe")), "txid: cafe");
}

#[test]
fn names_are_inscribed_from_a_transaction() {
    let turn = connected(TXID, "");
    match &turn.1 {
        Request::FetchTransaction { txid } => assert_eq!(txid, &reversed_txid()),
        _ => panic!("no transaction"),
    }
    let outputs = vec![output(9, &[1]), output(1, &[0, 20]), output(5, &[0x51, 32])];
    assert_inscribes(next(turn, Reply::Outputs(outputs)), &reversed_txid(), 1, 1);
}

fn unspent() -> Reply<Concrete> {
    Reply::Unspent(UnspentTxOut { txid: vec![6], vout: 4, amount: 77, script_pubkey: vec![1] })
}

#[test]
fn names_are_inscribed_from_an_output() {
    let turn = connected("", "{\"vout\":4}");
    match &turn.1 {
        Request::ReadTxOut { json } => assert_eq!(json, "{\"vout\":4}"),
        _ => panic!("no output"),
    }
    assert_inscribes(next(turn, unspent()), &[6], 4, 77);
}

#[test]
fn an_output_that_is_provided_is_used() {
    let turn = connected(TXID, "{}");
    assert!(matches!(turn.1, Request::ReadTxOut { .. }));
    assert_inscribes(next(turn, unspent()), &[6], 4, 77);
}

#[test]
fn with_neither_the_output_cannot_be_read() {
    let turn = connected("", "");
    match &turn.1 {
        Request::ReadTxOut { json } => assert_eq!(json, ""),
        _ => panic!("no output"),
    }
}

#[test]
fn names_need_a_matching_output() {
    let turn = next(connected(TXID, ""), Reply::Outputs(vec![output(9, &[1])]));
    assert!(matches!(failure(turn), Failure::NoMatchedOutput));
    let turn = connected("12", "");
    assert!(matches!(failure(turn), Failure::Outside { .. }));
}

#[test]
fn names_need_a_payer() {
    let begin = || read(signed(inscribe(TXID, "")), "payer.cose.key", &symmetric_key(4));
    let turn = next(begin(), facts(false, true, Ok(secret_one())));
    assert!(matches!(failure(turn), Failure::NotSecp256k1 { name } if name == "author"));
    let turn = next(begin(), facts(true, false, Err(owned("no secret"))));
    assert_outside(turn, "no secret");
    let turn = next(begin(), facts(true, false, Ok(vec![])));
    assert_outside(turn, "malformed or out-of-range secret key");
}
