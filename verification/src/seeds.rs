//! Making, importing and exporting seeds, and deriving keys from them.

use vstd::prelude::*;
use vstd::string::*;
use vstd::utf8::encode_utf8;

use crate::chain::{
    p2wpkh_address, p2wpkh_text, parse_path, path_children, path_error, public_key_of,
    secp256k1_public_key, secret_key_error, valid_secret_key,
};
use crate::derivation::{ed25519_derivation, ed25519_path, secp256k1_derivation, secp256k1_path};
use crate::form::{Concrete, Encrypt0, KeyId, Model, copy_bytes};
use crate::hexadecimal::{encode_hex, hex_text};
use crate::keystore::{key_file, key_file_name, keystore_aad, keystore_aad_bytes, opening, saving};
use crate::state::{
    AfterOpen, DeriveStage, ExportStage, ImportStage, KekEncryptor, NewKekStage, Note, SeedStage,
    Settings, State, Step, close, closing, fail_outside, failed_outside, misreplied, misreply,
};
use crate::text::{join2, join3, trim, trimmed};
use crate::wire::{Reply, Request};

verus! {

/// What binds an exported seed to its purpose.
pub open spec fn transfer_aad() -> Seq<u8> {
    encode_utf8("NS:COSE/Transfer.Key"@)
}

/// What binds an exported seed to its purpose.
pub fn transfer_aad_bytes() -> (r: Vec<u8>)
    ensures
        r@ == transfer_aad(),
{
    "NS:COSE/Transfer.Key".as_bytes_vec()
}

/// The line that tells of a key file that is left as it is.
pub open spec fn exists_line(path: Seq<char>) -> Seq<char> {
    path + " exists, skipping key generation"@
}

/// The first step of making a key encryption key.
pub open spec fn new_kek_begun(alias: Seq<char>) -> Step<Model> {
    Step {
        state: State::NewKek(NewKekStage::Password { alias }),
        request: Request::PromptSecret { text: "Enter a password to protect KEK: "@ },
    }
}

/// The step that makes a key encryption key with an identifier.
pub open spec fn new_kek_named(mkek: Seq<u8>, kid: Seq<char>) -> Step<Model> {
    Step {
        state: State::NewKek(NewKekStage::Key { mkek, kid }),
        request: Request::NewSymmetricKey { kid: KeyId::Text(kid) },
    }
}

/// The next step of making a key encryption key: it is named by its alias, or by the time where
/// that is empty, and protected by the password.
pub open spec fn new_kek_next(stage: NewKekStage<Model>, reply: Reply<Model>) -> Step<Model> {
    match (stage, reply) {
        (NewKekStage::Password { alias }, Reply::Text(password)) => Step {
            state: State::NewKek(NewKekStage::Hash { alias }),
            request: Request::Hash256 { data: encode_utf8(password) },
        },
        (NewKekStage::Hash { alias }, Reply::Bytes(mkek)) => if alias.len() == 0 {
            Step { state: State::NewKek(NewKekStage::Clock { mkek }), request: Request::Clock }
        } else {
            new_kek_named(mkek, alias)
        },
        (NewKekStage::Clock { mkek }, Reply::Text(now)) => new_kek_named(mkek, now),
        (NewKekStage::Key { mkek, kid }, Reply::Bytes(key)) => Step {
            state: State::NewKek(NewKekStage::Encrypt),
            request: Request::Encrypt {
                encryptor: Encrypt0 { key: mkek, kid: None },
                plaintext: key,
                aad: keystore_aad(),
                cid: Some(KeyId::Text(kid)),
            },
        },
        (NewKekStage::Encrypt, Reply::Bytes(data)) => Step {
            state: State::NewKek(NewKekStage::Tag),
            request: Request::AddTag { data },
        },
        (NewKekStage::Tag, Reply::Bytes(data)) => Step {
            state: State::NewKek(NewKekStage::Encode),
            request: Request::EncodeBase64Url { data },
        },
        (NewKekStage::Encode, Reply::Text(text)) => closing(
            "Put this new KEK as INSCRIBER_KEK on config file:\n"@ + text,
        ),
        _ => misreplied(),
    }
}

/// Begins to make a key encryption key.
pub(crate) fn begin_new_kek(alias: String) -> (r: Step<Concrete>)
    ensures
        r@ == new_kek_begun(alias@),
{
    Step {
        state: State::NewKek(NewKekStage::Password { alias }),
        request: Request::PromptSecret { text: "Enter a password to protect KEK: ".to_owned() },
    }
}

/// Makes a key encryption key with an identifier.
fn name_new_kek(mkek: Vec<u8>, kid: String) -> (r: Step<Concrete>)
    ensures
        r@ == new_kek_named(mkek@, kid@),
{
    let name: String = kid.clone();
    Step {
        state: State::NewKek(NewKekStage::Key { mkek, kid }),
        request: Request::NewSymmetricKey { kid: KeyId::Text(name) },
    }
}

/// Goes on with making a key encryption key.
pub(crate) fn new_kek_step(stage: NewKekStage<Concrete>, reply: Reply<Concrete>) -> (r: Step<
    Concrete,
>)
    ensures
        r@ == new_kek_next(stage@, reply@),
{
    match (stage, reply) {
        (NewKekStage::Password { alias }, Reply::Text(password)) => Step {
            state: State::NewKek(NewKekStage::Hash { alias }),
            request: Request::Hash256 { data: password.as_str().as_bytes_vec() },
        },
        (NewKekStage::Hash { alias }, Reply::Bytes(mkek)) => {
            if alias.as_str().is_empty() {
                Step { state: State::NewKek(NewKekStage::Clock { mkek }), request: Request::Clock }
            } else {
                name_new_kek(mkek, alias)
            }
        },
        (NewKekStage::Clock { mkek }, Reply::Text(now)) => name_new_kek(mkek, now),
        (NewKekStage::Key { mkek, kid }, Reply::Bytes(key)) => Step {
            state: State::NewKek(NewKekStage::Encrypt),
            request: Request::Encrypt {
                encryptor: Encrypt0 { key: mkek, kid: None },
                plaintext: key,
                aad: keystore_aad_bytes(),
                cid: Some(KeyId::Text(kid)),
            },
        },
        (NewKekStage::Encrypt, Reply::Bytes(data)) => Step {
            state: State::NewKek(NewKekStage::Tag),
            request: Request::AddTag { data },
        },
        (NewKekStage::Tag, Reply::Bytes(data)) => Step {
            state: State::NewKek(NewKekStage::Encode),
            request: Request::EncodeBase64Url { data },
        },
        (NewKekStage::Encode, Reply::Text(text)) => close(
            join2("Put this new KEK as INSCRIBER_KEK on config file:\n", text.as_str()),
        ),
        _ => misreply(),
    }
}

/// The first step of making a seed.
pub open spec fn seed_begun() -> Step<Model> {
    let file = "seed.cose.key"@;
    Step {
        state: State::Seed(SeedStage::Find { file }),
        request: Request::FindKeyFile { file },
    }
}

/// The next step of making a seed: a file that exists is left as it is; else a key is made, named
/// by its public half and saved.
pub open spec fn seed_next(
    settings: Settings<Model>,
    stage: SeedStage<Model>,
    reply: Reply<Model>,
) -> Step<Model> {
    match (stage, reply) {
        (SeedStage::Find { file }, Reply::Found { exists, path }) => if exists {
            closing(exists_line(path))
        } else {
            opening(settings, AfterOpen::Seed { file })
        },
        (SeedStage::Key { kek, file }, Reply::KeyPair { key, public_key }) => Step {
            state: State::Seed(SeedStage::KeyId { kek, file, public_key }),
            request: Request::SetKeyId { key, kid: KeyId::Bytes(public_key) },
        },
        (SeedStage::KeyId { kek, file, public_key }, Reply::Bytes(key)) => saving(
            kek,
            file,
            key,
            Some(KeyId::Bytes(public_key)),
            Note {
                front: "New seed key: "@,
                back: ", key id: \""@ + hex_text(public_key) + "\""@,
            },
        ),
        _ => misreplied(),
    }
}

/// Begins to make a seed.
pub(crate) fn begin_seed() -> (r: Step<Concrete>)
    ensures
        r@ == seed_begun(),
{
    let file: String = "seed.cose.key".to_owned();
    let request: Request<Concrete> = KekEncryptor::key_exists(&file);
    Step { state: State::Seed(SeedStage::Find { file }), request }
}

/// Goes on with making a seed.
pub(crate) fn seed_step(
    settings: &Settings<Concrete>,
    stage: SeedStage<Concrete>,
    reply: Reply<Concrete>,
) -> (r: Step<Concrete>)
    ensures
        r@ == seed_next(settings@, stage@, reply@),
{
    match (stage, reply) {
        (SeedStage::Find { file }, Reply::Found { exists, path }) => {
            if exists {
                close(join2(path.as_str(), " exists, skipping key generation"))
            } else {
                KekEncryptor::open(settings, AfterOpen::Seed { file })
            }
        },
        (SeedStage::Key { kek, file }, Reply::KeyPair { key, public_key }) => {
            let kid: KeyId<Concrete> = KeyId::Bytes(copy_bytes(&public_key));
            Step {
                state: State::Seed(SeedStage::KeyId { kek, file, public_key }),
                request: Request::SetKeyId { key, kid },
            }
        },
        (SeedStage::KeyId { kek, file, public_key }, Reply::Bytes(key)) => {
            let note: Note<Concrete> = Note {
                front: "New seed key: ".to_owned(),
                back: join3(", key id: \"", encode_hex(public_key.as_slice()).as_str(), "\""),
            };
            kek.save_key(file, key, Some(KeyId::Bytes(public_key)), note)
        },
        _ => misreply(),
    }
}

/// The step that looks for the file of an imported seed.
pub open spec fn import_named(alias: Seq<char>) -> Step<Model> {
    let file = key_file(alias);
    Step {
        state: State::Import(ImportStage::Find { file }),
        request: Request::FindKeyFile { file },
    }
}

/// The first step of importing a seed: where it has no alias, the time is asked for.
pub open spec fn import_begun(alias: Seq<char>) -> Step<Model> {
    if alias.len() == 0 {
        Step { state: State::Import(ImportStage::Clock), request: Request::Clock }
    } else {
        import_named(alias)
    }
}

/// The next step of importing a seed: a file that exists is left as it is; else the seed is
/// decoded, untagged and decrypted with the password, and saved under its own identifier.
pub open spec fn import_next(
    settings: Settings<Model>,
    stage: ImportStage<Model>,
    reply: Reply<Model>,
) -> Step<Model> {
    match (stage, reply) {
        (ImportStage::Clock, Reply::Text(now)) => import_named(now + ".seed"@),
        (ImportStage::Find { file }, Reply::Found { exists, path }) => if exists {
            closing(exists_line(path))
        } else {
            Step {
                state: State::Import(ImportStage::Sealed { file }),
                request: Request::Prompt {
                    text: "Enter the seed key (base64url encoded) to import: "@,
                },
            }
        },
        (ImportStage::Sealed { file }, Reply::Text(sealed)) => Step {
            state: State::Import(ImportStage::Password { file, sealed }),
            request: Request::PromptSecret { text: "Enter the password that protected the seed: "@ },
        },
        (ImportStage::Password { file, sealed }, Reply::Text(password)) => Step {
            state: State::Import(ImportStage::Hash { file, sealed }),
            request: Request::Hash256 { data: encode_utf8(password) },
        },
        (ImportStage::Hash { file, sealed }, Reply::Bytes(key)) => Step {
            state: State::Import(ImportStage::Decode { file, key }),
            request: Request::DecodeBase64Url { text: trimmed(sealed) },
        },
        (ImportStage::Decode { file, key }, Reply::Bytes(data)) => Step {
            state: State::Import(ImportStage::Untag { file, key }),
            request: Request::SkipTag { data },
        },
        (ImportStage::Untag { file, key }, Reply::Bytes(data)) => Step {
            state: State::Import(ImportStage::Decrypt { file }),
            request: Request::Decrypt {
                encryptor: Encrypt0 { key, kid: None },
                ciphertext: data,
                aad: transfer_aad(),
            },
        },
        (ImportStage::Decrypt { file }, Reply::Bytes(data)) => Step {
            state: State::Import(ImportStage::Key { file }),
            request: Request::ReadSeedKey { data },
        },
        (ImportStage::Key { file }, Reply::Bytes(key)) => opening(
            settings,
            AfterOpen::Import { file, key },
        ),
        (ImportStage::Inspect { kek, file, key }, Reply::Facts(facts)) => saving(
            kek,
            file,
            key,
            facts.kid,
            Note { front: "Imported seed key: "@, back: ", key id: "@ + facts.kid_debug },
        ),
        _ => misreplied(),
    }
}

/// Looks for the file of an imported seed.
fn name_import(alias: &str) -> (r: Step<Concrete>)
    ensures
        r@ == import_named(alias@),
{
    let file: String = key_file_name(alias);
    let request: Request<Concrete> = KekEncryptor::key_exists(&file);
    Step { state: State::Import(ImportStage::Find { file }), request }
}

/// Begins to import a seed.
pub(crate) fn begin_import(alias: String) -> (r: Step<Concrete>)
    ensures
        r@ == import_begun(alias@),
{
    if alias.as_str().is_empty() {
        Step { state: State::Import(ImportStage::Clock), request: Request::Clock }
    } else {
        name_import(alias.as_str())
    }
}

/// Goes on with importing a seed.
pub(crate) fn import_step(
    settings: &Settings<Concrete>,
    stage: ImportStage<Concrete>,
    reply: Reply<Concrete>,
) -> (r: Step<Concrete>)
    ensures
        r@ == import_next(settings@, stage@, reply@),
{
    match (stage, reply) {
        (ImportStage::Clock, Reply::Text(now)) => {
            let alias: String = join2(now.as_str(), ".seed");
            name_import(alias.as_str())
        },
        (ImportStage::Find { file }, Reply::Found { exists, path }) => {
            if exists {
                close(join2(path.as_str(), " exists, skipping key generation"))
            } else {
                Step {
                    state: State::Import(ImportStage::Sealed { file }),
                    request: Request::Prompt {
                        text: "Enter the seed key (base64url encoded) to import: ".to_owned(),
                    },
                }
            }
        },
        (ImportStage::Sealed { file }, Reply::Text(sealed)) => Step {
            state: State::Import(ImportStage::Password { file, sealed }),
            request: Request::PromptSecret {
                text: "Enter the password that protected the seed: ".to_owned(),
            },
        },
        (ImportStage::Password { file, sealed }, Reply::Text(password)) => Step {
            state: State::Import(ImportStage::Hash { file, sealed }),
            request: Request::Hash256 { data: password.as_str().as_bytes_vec() },
        },
        (ImportStage::Hash { file, sealed }, Reply::Bytes(key)) => Step {
            state: State::Import(ImportStage::Decode { file, key }),
            request: Request::DecodeBase64Url { text: trim(sealed.as_str()) },
        },
        (ImportStage::Decode { file, key }, Reply::Bytes(data)) => Step {
            state: State::Import(ImportStage::Untag { file, key }),
            request: Request::SkipTag { data },
        },
        (ImportStage::Untag { file, key }, Reply::Bytes(data)) => Step {
            state: State::Import(ImportStage::Decrypt { file }),
            request: Request::Decrypt {
                encryptor: Encrypt0 { key, kid: None },
                ciphertext: data,
                aad: transfer_aad_bytes(),
            },
        },
        (ImportStage::Decrypt { file }, Reply::Bytes(data)) => Step {
            state: State::Import(ImportStage::Key { file }),
            request: Request::ReadSeedKey { data },
        },
        (ImportStage::Key { file }, Reply::Bytes(key)) => KekEncryptor::open(
            settings,
            AfterOpen::Import { file, key },
        ),
        (ImportStage::Inspect { kek, file, key }, Reply::Facts(facts)) => {
            let note: Note<Concrete> = Note {
                front: "Imported seed key: ".to_owned(),
                back: join2(", key id: ", facts.kid_debug.as_str()),
            };
            kek.save_key(file, key, facts.kid, note)
        },
        _ => misreply(),
    }
}

/// The first step of exporting a seed.
pub open spec fn export_begun(key: Seq<u8>, kid: Option<KeyId<Model>>) -> Step<Model> {
    Step {
        state: State::Export(ExportStage::Password { key, kid }),
        request: Request::PromptSecret { text: "Enter a password to protect the seed: "@ },
    }
}

/// The next step of exporting a seed: it is encrypted with the password, and encoded.
pub open spec fn export_next(stage: ExportStage<Model>, reply: Reply<Model>) -> Step<Model> {
    match (stage, reply) {
        (ExportStage::Password { key, kid }, Reply::Text(password)) => Step {
            state: State::Export(ExportStage::Hash { key, kid }),
            request: Request::Hash256 { data: encode_utf8(password) },
        },
        (ExportStage::Hash { key, kid }, Reply::Bytes(wrap)) => Step {
            state: State::Export(ExportStage::Key { wrap, kid }),
            request: Request::EncodeSeedKey { key },
        },
        (ExportStage::Key { wrap, kid }, Reply::Bytes(data)) => Step {
            state: State::Export(ExportStage::Encrypt),
            request: Request::Encrypt {
                encryptor: Encrypt0 { key: wrap, kid: None },
                plaintext: data,
                aad: transfer_aad(),
                cid: kid,
            },
        },
        (ExportStage::Encrypt, Reply::Bytes(data)) => Step {
            state: State::Export(ExportStage::Encode),
            request: Request::EncodeBase64Url { data },
        },
        (ExportStage::Encode, Reply::Text(text)) => closing(
            "The exported seed key (base64url encoded):\n\n"@ + text + "\n\n"@,
        ),
        _ => misreplied(),
    }
}

/// Begins to export a seed.
pub(crate) fn begin_export(key: Vec<u8>, kid: Option<KeyId<Concrete>>) -> (r: Step<Concrete>)
    ensures
        r@ == export_begun(key@, crate::form::maybe_kid(kid)),
{
    Step {
        state: State::Export(ExportStage::Password { key, kid }),
        request: Request::PromptSecret {
            text: "Enter a password to protect the seed: ".to_owned(),
        },
    }
}

/// Goes on with exporting a seed.
pub(crate) fn export_step(stage: ExportStage<Concrete>, reply: Reply<Concrete>) -> (r: Step<
    Concrete,
>)
    ensures
        r@ == export_next(stage@, reply@),
{
    match (stage, reply) {
        (ExportStage::Password { key, kid }, Reply::Text(password)) => Step {
            state: State::Export(ExportStage::Hash { key, kid }),
            request: Request::Hash256 { data: password.as_str().as_bytes_vec() },
        },
        (ExportStage::Hash { key, kid }, Reply::Bytes(wrap)) => Step {
            state: State::Export(ExportStage::Key { wrap, kid }),
            request: Request::EncodeSeedKey { key },
        },
        (ExportStage::Key { wrap, kid }, Reply::Bytes(data)) => Step {
            state: State::Export(ExportStage::Encrypt),
            request: Request::Encrypt {
                encryptor: Encrypt0 { key: wrap, kid: None },
                plaintext: data,
                aad: transfer_aad_bytes(),
                cid: kid,
            },
        },
        (ExportStage::Encrypt, Reply::Bytes(data)) => Step {
            state: State::Export(ExportStage::Encode),
            request: Request::EncodeBase64Url { data },
        },
        (ExportStage::Encode, Reply::Text(text)) => close(
            join3("The exported seed key (base64url encoded):\n\n", text.as_str(), "\n\n"),
        ),
        _ => misreply(),
    }
}

/// How an Ed25519 key is addressed: by its public half.
pub open spec fn ed25519_address(public_key: Seq<u8>) -> Seq<char> {
    "0x"@ + hex_text(public_key)
}

/// How an Ed25519 key is addressed: by its public half.
pub fn ed25519_address_text(public_key: &[u8]) -> (r: String)
    ensures
        r@ == ed25519_address(public_key@),
{
    join2("0x", encode_hex(public_key).as_str())
}

/// The first step of deriving a secp256k1 key from a seed.
pub open spec fn secp256k1_begun(
    kek: KekEncryptor<Model>,
    seed: Seq<u8>,
    acc: u32,
    idx: u32,
) -> Step<Model> {
    let kid = secp256k1_path(acc, idx);
    match path_children(kid) {
        Some(path) => Step {
            state: State::Derive(DeriveStage::Secp256k1Seed { kek, kid, path }),
            request: Request::SeedSecret { key: seed },
        },
        None => failed_outside(path_error(kid)),
    }
}

/// The first step of deriving an Ed25519 key from a seed.
pub open spec fn ed25519_begun(
    kek: KekEncryptor<Model>,
    seed: Seq<u8>,
    acc: u32,
    idx: u32,
) -> Step<Model> {
    let kid = ed25519_path(acc, idx);
    match path_children(kid) {
        Some(path) => Step {
            state: State::Derive(DeriveStage::Ed25519Seed { kek, kid, path }),
            request: Request::SeedSecret { key: seed },
        },
        None => failed_outside(path_error(kid)),
    }
}

/// The next step of deriving a key: the secret is derived along the path, and the key is saved in
/// the file of its address, named by the path.
pub open spec fn derive_next(
    settings: Settings<Model>,
    stage: DeriveStage<Model>,
    reply: Reply<Model>,
) -> Step<Model> {
    match (stage, reply) {
        (DeriveStage::Secp256k1Seed { kek, kid, path }, Reply::Bytes(secret)) => Step {
            state: State::Derive(DeriveStage::Secp256k1Secret { kek, kid }),
            request: Request::DeriveSecp256k1 { secret, path, network: settings.network },
        },
        (DeriveStage::Secp256k1Secret { kek, kid }, Reply::Bytes(secret)) => if valid_secret_key(
            secret,
        ) {
            let address = p2wpkh_address(secp256k1_public_key(secret), settings.network);
            Step {
                state: State::Derive(DeriveStage::Secp256k1Key { kek, kid, address }),
                request: Request::MakeSecp256k1Key { secret, kid: KeyId::Text(kid) },
            }
        } else {
            failed_outside(secret_key_error())
        },
        (DeriveStage::Secp256k1Key { kek, kid, address }, Reply::Bytes(key)) => saving(
            kek,
            key_file(address),
            key,
            Some(KeyId::Text(kid)),
            Note { front: "key: "@, back: ", address: "@ + address },
        ),
        (DeriveStage::Ed25519Seed { kek, kid, path }, Reply::Bytes(secret)) => Step {
            state: State::Derive(DeriveStage::Ed25519Secret { kek, kid }),
            request: Request::DeriveEd25519 { secret, path },
        },
        (DeriveStage::Ed25519Secret { kek, kid }, Reply::KeyPair { key: secret, public_key }) =>
            Step {
            state: State::Derive(
                DeriveStage::Ed25519Key { kek, kid, address: ed25519_address(public_key) },
            ),
            request: Request::MakeEd25519Key { secret, kid: KeyId::Text(kid) },
        },
        (DeriveStage::Ed25519Key { kek, kid, address }, Reply::Bytes(key)) => saving(
            kek,
            key_file(address),
            key,
            Some(KeyId::Text(kid)),
            Note { front: "key: "@, back: ", public key: "@ + address },
        ),
        _ => misreplied(),
    }
}

/// Begins to derive a secp256k1 key from a seed.
pub(crate) fn begin_secp256k1(
    kek: KekEncryptor<Concrete>,
    seed: Vec<u8>,
    acc: u32,
    idx: u32,
) -> (r: Step<Concrete>)
    ensures
        r@ == secp256k1_begun(kek@, seed@, acc, idx),
{
    let kid: String = secp256k1_derivation(acc, idx);
    match parse_path(kid.as_str()) {
        Ok(path) => Step {
            state: State::Derive(DeriveStage::Secp256k1Seed { kek, kid, path }),
            request: Request::SeedSecret { key: seed },
        },
        Err(message) => fail_outside(message),
    }
}

/// Begins to derive an Ed25519 key from a seed.
pub(crate) fn begin_ed25519(
    kek: KekEncryptor<Concrete>,
    seed: Vec<u8>,
    acc: u32,
    idx: u32,
) -> (r: Step<Concrete>)
    ensures
        r@ == ed25519_begun(kek@, seed@, acc, idx),
{
    let kid: String = ed25519_derivation(acc, idx);
    match parse_path(kid.as_str()) {
        Ok(path) => Step {
            state: State::Derive(DeriveStage::Ed25519Seed { kek, kid, path }),
            request: Request::SeedSecret { key: seed },
        },
        Err(message) => fail_outside(message),
    }
}

/// Goes on with deriving a key.
pub(crate) fn derive_step(
    settings: &Settings<Concrete>,
    stage: DeriveStage<Concrete>,
    reply: Reply<Concrete>,
) -> (r: Step<Concrete>)
    ensures
        r@ == derive_next(settings@, stage@, reply@),
{
    match (stage, reply) {
        (DeriveStage::Secp256k1Seed { kek, kid, path }, Reply::Bytes(secret)) => Step {
            state: State::Derive(DeriveStage::Secp256k1Secret { kek, kid }),
            request: Request::DeriveSecp256k1 { secret, path, network: settings.network },
        },
        (DeriveStage::Secp256k1Secret { kek, kid }, Reply::Bytes(secret)) => {
            match public_key_of(secret.as_slice()) {
                Ok(public_key) => {
                    let address: String = p2wpkh_text(public_key.as_slice(), settings.network);
                    let name: KeyId<Concrete> = KeyId::Text(kid.clone());
                    Step {
                        state: State::Derive(DeriveStage::Secp256k1Key { kek, kid, address }),
                        request: Request::MakeSecp256k1Key { secret, kid: name },
                    }
                },
                Err(message) => fail_outside(message),
            }
        },
        (DeriveStage::Secp256k1Key { kek, kid, address }, Reply::Bytes(key)) => {
            let note: Note<Concrete> = Note {
                front: "key: ".to_owned(),
                back: join2(", address: ", address.as_str()),
            };
            kek.save_key(key_file_name(address.as_str()), key, Some(KeyId::Text(kid)), note)
        },
        (DeriveStage::Ed25519Seed { kek, kid, path }, Reply::Bytes(secret)) => Step {
            state: State::Derive(DeriveStage::Ed25519Secret { kek, kid }),
            request: Request::DeriveEd25519 { secret, path },
        },
        (DeriveStage::Ed25519Secret { kek, kid }, Reply::KeyPair { key: secret, public_key }) => {
            let address: String = ed25519_address_text(public_key.as_slice());
            let name: KeyId<Concrete> = KeyId::Text(kid.clone());
            Step {
                state: State::Derive(DeriveStage::Ed25519Key { kek, kid, address }),
                request: Request::MakeEd25519Key { secret, kid: name },
            }
        },
        (DeriveStage::Ed25519Key { kek, kid, address }, Reply::Bytes(key)) => {
            let note: Note<Concrete> = Note {
                front: "key: ".to_owned(),
                back: join2(", public key: ", address.as_str()),
            };
            kek.save_key(key_file_name(address.as_str()), key, Some(KeyId::Text(kid)), note)
        },
        _ => misreply(),
    }
}

} // verus!
