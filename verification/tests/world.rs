use std::collections::BTreeMap;

use coset::CborSerializable;
use ns_inscriber_core::cli::Commands;
use ns_inscriber_core::form::{Concrete, DirEntry, Encrypt0, KeyFacts, KeyId};
use ns_inscriber_core::session::Session;
use ns_inscriber_core::state::Settings;
use ns_inscriber_core::wire::{Failure, Outcome, Reply, Request};

/// A small world that answers what the program asks: its cipher and its encodings are toys that
/// read back what they wrote.
struct World {
    files: BTreeMap<String, Vec<u8>>,
    secrets: Vec<String>,
    texts: Vec<String>,
    printed: Vec<String>,
    fresh: u8,
    asked: Vec<String>,
}

fn world() -> World {
    World {
        files: BTreeMap::new(),
        secrets: vec![],
        texts: vec![],
        printed: vec![],
        fresh: 0,
        asked: vec![],
    }
}

const TAG: [u8; 3] = [0xd9, 0xd9, 0xf7];

fn cose_key(fill: u8, kid: Option<&[u8]>) -> Vec<u8> {
    let builder = coset::CoseKeyBuilder::new_symmetric_key(vec![fill; 32]);
    match kid {
        Some(kid) => builder.key_id(kid.to_vec()).build().to_vec().unwrap(),
        None => builder.build().to_vec().unwrap(),
    }
}

fn secret_of(key: &coset::CoseKey) -> Result<Vec<u8>, Vec<String>> {
    match key.params.first() {
        Some((_, coset::cbor::value::Value::Bytes(secret))) => Ok(secret.clone()),
        _ => Err(vec!["no secret".to_string()]),
    }
}

fn seal(encryptor: &Encrypt0<Concrete>, data: &[u8], aad: &[u8]) -> Vec<u8> {
    let mut sealed: Vec<u8> = data.iter().map(|b| b ^ encryptor.key[0]).collect();
    sealed.extend(aad);
    sealed.push(encryptor.key[0]);
    sealed
}

fn unseal(encryptor: &Encrypt0<Concrete>, data: &[u8], aad: &[u8]) -> Option<Vec<u8>> {
    let (last, rest) = data.split_last()?;
    if *last != encryptor.key[0] || !rest.ends_with(aad) {
        return None;
    }
    Some(rest[..rest.len() - aad.len()].iter().map(|b| b ^ encryptor.key[0]).collect())
}

fn done_or(result: Option<Vec<u8>>, message: &str) -> Reply<Concrete> {
    match result {
        Some(data) => Reply::Bytes(data),
        None => Reply::Failed { messages: vec![message.to_string()] },
    }
}

fn kind(request: &Request<Concrete>) -> &'static str {
    match request {
        Request::FindKeyFile { .. } => "find",
        Request::WriteKeyFile { .. } => "write",
        Request::Encrypt { .. } => "encrypt",
        Request::AddTag { .. } => "tag",
        _ => "-",
    }
}

impl World {
    fn reply(&mut self, request: &Request<Concrete>) -> Reply<Concrete> {
        match request {
            Request::Print { text } => {
                self.printed.push(text.clone());
                Reply::Done
            }
            Request::Clock => Reply::Text("now".to_string()),
            Request::Prompt { .. } => Reply::Text(self.texts.remove(0)),
            Request::PromptSecret { .. } => Reply::Text(self.secrets.remove(0)),
            Request::FindKeyFile { file } => {
                Reply::Found { exists: self.files.contains_key(file), path: format!("k/{}", file) }
            }
            Request::ReadKeyFile { file } => {
                done_or(self.files.get(file).cloned(), "no such file")
            }
            Request::WriteKeyFile { file, data } => {
                self.files.insert(file.clone(), data.clone());
                Reply::Text(format!("k/{}", file))
            }
            Request::ListKeyFiles => Reply::Entries(
                self.files.keys().map(|name| DirEntry::File { name: name.clone() }).collect(),
            ),
            Request::ReadListedFile { index } => {
                Reply::Bytes(self.files.values().nth(*index).unwrap().clone())
            }
            Request::Hash256 { data } => {
                let sum = data.iter().fold(1u8, |sum, b| sum.wrapping_mul(31).wrapping_add(*b));
                Reply::Bytes(vec![sum; 32])
            }
            Request::EncodeBase64Url { data } => Reply::Text(hex::encode(data)),
            Request::DecodeBase64Url { text } => done_or(hex::decode(text).ok(), "bad base64"),
            Request::DecodeBase64 { text } => done_or(hex::decode(text).ok(), "bad base64"),
            Request::AddTag { data } => Reply::Bytes([&TAG, data.as_slice()].concat()),
            Request::SkipTag { data } => {
                Reply::Bytes(data.strip_prefix(&TAG).unwrap_or(data.as_slice()).to_vec())
            }
            Request::Encrypt { encryptor, plaintext, aad, .. } => {
                Reply::Bytes(seal(encryptor, plaintext, aad))
            }
            Request::Decrypt { encryptor, ciphertext, aad } => {
                done_or(unseal(encryptor, ciphertext, aad), "wrong key")
            }
            Request::NewSymmetricKey { .. } => {
                self.fresh += 1;
                Reply::Bytes(cose_key(self.fresh, None))
            }
            Request::NewSeedKey => {
                self.fresh += 1;
                Reply::KeyPair { key: cose_key(self.fresh, None), public_key: vec![self.fresh; 2] }
            }
            Request::SetKeyId { key, kid } => match kid {
                KeyId::Bytes(kid) => Reply::Bytes(cose_key(key[key.len() - 1], Some(kid))),
                _ => Reply::Failed { messages: vec!["kid".to_string()] },
            },
            Request::ReadSeedKey { data } => Reply::Bytes(data.clone()),
            Request::EncodeSeedKey { key } => Reply::Bytes(key.clone()),
            Request::InspectKey { key } => {
                let key = coset::CoseKey::from_slice(key).unwrap();
                Reply::Facts(KeyFacts {
                    secp256k1: false,
                    ed25519: true,
                    secret: secret_of(&key),
                    kid: Some(KeyId::Bytes(key.key_id.clone())),
                    kid_debug: format!("{:?}", key.key_id),
                    kid_text: hex::encode(&key.key_id),
                })
            }
            Request::SignEd25519 { key, payload, aad } => {
                Reply::Bytes([key.as_slice(), payload, aad].concat())
            }
            Request::VerifyEd25519 { key, signed, aad } => {
                if signed.starts_with(key) && signed.ends_with(aad) {
                    Reply::Done
                } else {
                    Reply::Failed { messages: vec!["bad signature".to_string()] }
                }
            }
            _ => Reply::Failed { messages: vec!["not of this world".to_string()] },
        }
    }

    /// Runs a command to its end.
    fn run(&mut self, kek: &str, command: Commands) -> Outcome<Concrete> {
        self.asked.clear();
        let settings = Settings::new(None, Some(kek.to_string()), None, None, None, None);
        let (mut session, mut request) = Session::start(settings, Some(command));
        loop {
            if let Request::Exit(outcome) = request {
                return outcome;
            }
            assert!(self.asked.len() < 1000);
            self.asked.push(kind(&request).to_string());
            let reply = self.reply(&request);
            let turn = session.answer(reply);
            session = turn.0;
            request = turn.1;
        }
    }

    fn new_kek(&mut self, password: &str) -> String {
        self.secrets = vec![password.to_string()];
        let outcome = self.run("", Commands::NewKEK { alias: "mykek".to_string() });
        assert!(matches!(outcome, Outcome::Success));
        self.printed.pop().unwrap().lines().last().unwrap().to_string()
    }

    fn succeed(&mut self, kek: &str, secrets: &[&str], command: Commands) -> String {
        self.secrets = secrets.iter().map(|s| s.to_string()).collect();
        assert!(matches!(self.run(kek, command), Outcome::Success));
        assert!(self.secrets.is_empty());
        self.printed.pop().unwrap()
    }
}

#[test]
fn a_new_kek_opens_with_its_password() {
    let mut w = world();
    let kek = w.new_kek("pw");
    let line = w.succeed(&kek, &["pw"], Commands::NewSeed {});
    assert_eq!(line, "New seed key: k/seed.cose.key, key id: \"0202\"");
    let spaced = format!("  {}\n", kek);
    w.succeed(&spaced, &["pw"], Commands::ListKeys { detail: true });
    assert_eq!(w.printed, vec!["\nkey file: seed.cose.key"]);
}

#[test]
fn another_password_does_not_open_a_kek() {
    let mut w = world();
    let kek = w.new_kek("pw");
    w.secrets = vec!["other".to_string()];
    let outcome = w.run(&kek, Commands::NewSeed {});
    assert!(matches!(
        outcome,
        Outcome::Failure(Failure::Outside { messages }) if messages == vec!["wrong key"]
    ));
    assert!(w.files.is_empty());
}

#[test]
fn a_saved_key_reads_back_from_its_file() {
    let mut w = world();
    let kek = w.new_kek("pw");
    w.succeed(&kek, &["pw"], Commands::NewSeed {});
    let line = w.succeed(&kek, &["pw"], Commands::ListKeys { detail: true });
    assert_eq!(line, "key id: 0202");
    assert!(w.files["seed.cose.key"].starts_with(&TAG));
}

#[test]
fn a_written_key_was_encrypted_and_tagged() {
    let mut w = world();
    let kek = w.new_kek("pw");
    w.succeed(&kek, &["pw"], Commands::NewSeed {});
    let order: Vec<&str> = w.asked.iter().map(|s| s.as_str()).filter(|s| *s != "-").collect();
    assert_eq!(order, vec!["find", "encrypt", "tag", "write"]);
    let key = cose_key(2, Some(&[2, 2]));
    let data = &w.files["seed.cose.key"];
    assert!(!data.windows(key.len()).any(|part| part == key));
}

#[test]
fn a_second_seed_leaves_the_first() {
    let mut w = world();
    let kek = w.new_kek("pw");
    w.succeed(&kek, &["pw"], Commands::NewSeed {});
    let before = w.files.clone();
    let line = w.succeed(&kek, &[], Commands::NewSeed {});
    assert_eq!(line, "k/seed.cose.key exists, skipping key generation");
    assert_eq!(w.files, before);
}

#[test]
fn an_exported_seed_imports_under_another_kek() {
    let mut w = world();
    let kek = w.new_kek("pw");
    w.succeed(&kek, &["pw"], Commands::NewSeed {});
    let seed = || "seed".to_string();
    let shown = w.succeed(&kek, &["pw", "transfer"], Commands::ExportSeed { seed: seed() });
    let exported = shown.lines().nth(2).unwrap().to_string();

    let mut other = world();
    other.fresh = 100;
    let other_kek = other.new_kek("pw2");
    other.texts = vec![format!(" {}\t", exported)];
    let line = other.succeed(
        &other_kek,
        &["transfer", "pw2"],
        Commands::ImportSeed { alias: "moved".to_string() },
    );
    assert_eq!(line, "Imported seed key: k/moved.cose.key, key id: [2, 2]");
    let sealed = &other.files["moved.cose.key"][TAG.len()..];
    let encryptor = Encrypt0 { key: vec![101; 32], kid: None };
    assert_eq!(
        unseal(&encryptor, sealed, b"ns-inscriber"),
        Some(cose_key(2, Some(&[2, 2])))
    );

    let mut wrong = world();
    wrong.texts = vec![exported];
    wrong.secrets = vec!["other".to_string()];
    let outcome = wrong.run(&other_kek, Commands::ImportSeed { alias: "x".to_string() });
    assert!(matches!(outcome, Outcome::Failure(Failure::Outside { .. })));
    assert!(wrong.files.is_empty());
}

#[test]
fn the_tag_is_optional_on_reading() {
    let mut w = world();
    let kek = w.new_kek("pw");
    w.succeed(&kek, &["pw"], Commands::NewSeed {});
    let untagged = kek.strip_prefix("d9d9f7").unwrap().to_string();
    let line = w.succeed(&untagged, &["pw"], Commands::ListKeys { detail: true });
    assert_eq!(line, "key id: 0202");
    let data = w.files["seed.cose.key"][TAG.len()..].to_vec();
    w.files.insert("seed.cose.key".to_string(), data);
    let line = w.succeed(&kek, &["pw"], Commands::ListKeys { detail: true });
    assert_eq!(line, "key id: 0202");
}

#[test]
fn another_kek_reads_no_key() {
    let mut w = world();
    let kek = w.new_kek("pw");
    w.succeed(&kek, &["pw"], Commands::NewSeed {});
    let other = w.new_kek("pw");
    w.secrets = vec!["pw".to_string()];
    let outcome = w.run(&other, Commands::ExportSeed { seed: "seed".to_string() });
    assert!(matches!(
        outcome,
        Outcome::Failure(Failure::Outside { messages }) if messages == vec!["wrong key"]
    ));
}

#[test]
fn a_key_is_read_in_a_later_run() {
    let mut first = world();
    let kek = first.new_kek("pw");
    first.succeed(&kek, &["pw"], Commands::NewSeed {});
    let mut later = world();
    later.files = first.files.clone();
    let line = later.succeed(&kek, &["pw"], Commands::ListKeys { detail: true });
    assert_eq!(line, "key id: 0202");
}

#[test]
fn a_signed_message_verifies_in_either_encoding() {
    let mut w = world();
    let kek = w.new_kek("pw");
    w.succeed(&kek, &["pw"], Commands::NewSeed {});
    for enc in ["hex", "base64"] {
        let shown = w.succeed(
            &kek,
            &["pw"],
            Commands::SignMessage {
                key: "seed".to_string(),
                msg: "hello".to_string(),
                enc: enc.to_string(),
            },
        );
        let signed = shown.lines().last().unwrap().to_string();
        let line = w.succeed(
            &kek,
            &["pw"],
            Commands::VerifyMessage {
                key: "seed".to_string(),
                msg: signed,
                sig: String::new(),
                enc: enc.to_string(),
            },
        );
        assert_eq!(line, "signature is valid");
    }
}

#[test]
fn an_unknown_key_is_a_failure() {
    let mut w = world();
    let kek = w.new_kek("pw");
    w.secrets = vec!["pw".to_string()];
    let outcome = w.run(&kek, Commands::ExportSeed { seed: "none".to_string() });
    assert!(matches!(
        outcome,
        Outcome::Failure(Failure::Outside { messages }) if messages == vec!["no such file"]
    ));
}

#[test]
fn whatever_is_answered_a_run_ends() {
    let commands = || {
        vec![
            Commands::NewKEK { alias: String::new() },
            Commands::NewSeed {},
            Commands::ImportSeed { alias: String::new() },
            Commands::ListKeys { detail: false },
            Commands::Preview { fee: 1, key: "k".to_string(), names: "a,b,c".to_string() },
        ]
    };
    let replies: [fn() -> Reply<Concrete>; 5] = [
        || Reply::Done,
        || Reply::Text("t".to_string()),
        || Reply::Bytes(vec![1]),
        || Reply::Verdict(true),
        || Reply::Entries(vec![]),
    ];
    for command in commands() {
        let settings = Settings::new(None, Some("k".to_string()), None, None, None, None);
        let (mut session, mut request) = Session::start(settings, Some(command));
        let mut steps = 0;
        while !matches!(request, Request::Exit(_)) {
            let turn = session.answer(replies[steps % replies.len()]());
            session = turn.0;
            request = turn.1;
            steps += 1;
            assert!(steps < 100);
        }
    }
}
