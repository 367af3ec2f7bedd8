//! The key encryption key, and the keys that it protects.

use vstd::prelude::*;
use vstd::string::*;
use vstd::utf8::encode_utf8;

use crate::cose::{key_encoding, read_cose_key};
use crate::form::{Concrete, Encrypt0, KeyId, Model, copy_bytes, maybe_kid};
use crate::session::{obtain, obtained};
use crate::state::{
    AfterOpen, AfterRead, ImportStage, KekEncryptor, ListStage, Note, OpenStage, ReadStage,
    SaveStage, SeedStage, Settings, State, Step, close, closing, fail_outside, failed_outside,
    misreplied, misreply,
};
use crate::text::{join2, join3, one_text, trim, trimmed};
use crate::wire::{Reply, Request};

verus! {

/// What binds a protected key to this program.
pub open spec fn keystore_aad() -> Seq<u8> {
    encode_utf8("ns-inscriber"@)
}

/// What binds a protected key to this program.
pub fn keystore_aad_bytes() -> (r: Vec<u8>)
    ensures
        r@ == keystore_aad(),
{
    "ns-inscriber".as_bytes_vec()
}

/// The file that holds the key with this name.
pub open spec fn key_file(name: Seq<char>) -> Seq<char> {
    name + ".cose.key"@
}

/// The file that holds the key with this name.
pub fn key_file_name(name: &str) -> (r: String)
    ensures
        r@ == key_file(name@),
{
    join2(name, ".cose.key")
}

/// What to do about a missing key encryption key.
pub open spec fn missing_kek_advice() -> Seq<char> {
    "INSCRIBER_KEK not found\nKEK is used to protect other keys\nRun `ns-inscriber new-kek --alias=mykek` to generate a new KEK`"@
}

impl Encrypt0<Concrete> {
    /// Another encryptor with the same key and identifier.
    pub fn duplicate(&self) -> (r: Encrypt0<Concrete>)
        ensures
            r@ == self@,
    {
        Encrypt0 {
            key: copy_bytes(&self.key),
            kid: match &self.kid {
                Some(kid) => Some(kid.duplicate()),
                None => None,
            },
        }
    }
}

/// The first step of opening the key encryption key.
pub open spec fn opening(settings: Settings<Model>, after: AfterOpen<Model>) -> Step<Model> {
    if settings.kek.len() == 0 {
        Step { state: State::Refused, request: Request::Print { text: missing_kek_advice() } }
    } else {
        Step {
            state: State::Open { stage: OpenStage::Password { sealed: settings.kek }, after },
            request: Request::PromptSecret { text: "Enter the password protected KEK: "@ },
        }
    }
}

/// The step that follows once the key encryption key is open.
pub open spec fn opened(kek: KekEncryptor<Model>, after: AfterOpen<Model>) -> Step<Model> {
    match after {
        AfterOpen::Seed { file } => Step {
            state: State::Seed(SeedStage::Key { kek, file }),
            request: Request::NewSeedKey,
        },
        AfterOpen::Import { file, key } => Step {
            state: State::Import(ImportStage::Inspect { kek, file, key }),
            request: Request::InspectKey { key },
        },
        AfterOpen::Read { file, after } => reading(kek, file, after),
        AfterOpen::List => Step {
            state: State::List(ListStage::Entries { kek: Some(kek) }),
            request: Request::ListKeyFiles,
        },
    }
}

/// The next step of opening the key encryption key: the password is hashed to the key that
/// protects it, its text is decoded, untagged and decrypted, and the key in it is read.
pub open spec fn open_next(
    stage: OpenStage<Model>,
    after: AfterOpen<Model>,
    reply: Reply<Model>,
) -> Step<Model> {
    match (stage, reply) {
        (OpenStage::Password { sealed }, Reply::Text(password)) => Step {
            state: State::Open { stage: OpenStage::Hash { sealed }, after },
            request: Request::Hash256 { data: encode_utf8(password) },
        },
        (OpenStage::Hash { sealed }, Reply::Bytes(mkek)) => Step {
            state: State::Open { stage: OpenStage::Decode { mkek }, after },
            request: Request::DecodeBase64Url { text: trimmed(sealed) },
        },
        (OpenStage::Decode { mkek }, Reply::Bytes(data)) => Step {
            state: State::Open { stage: OpenStage::Untag { mkek }, after },
            request: Request::SkipTag { data },
        },
        (OpenStage::Untag { mkek }, Reply::Bytes(data)) => Step {
            state: State::Open { stage: OpenStage::Decrypt, after },
            request: Request::Decrypt {
                encryptor: Encrypt0 { key: mkek, kid: None },
                ciphertext: data,
                aad: keystore_aad(),
            },
        },
        (OpenStage::Decrypt, Reply::Bytes(data)) => match key_encoding(data) {
            Ok(key) => Step {
                state: State::Open { stage: OpenStage::Inspect, after },
                request: Request::InspectKey { key },
            },
            Err(message) => failed_outside(seq![message]),
        },
        (OpenStage::Inspect, Reply::Facts(facts)) => match facts.secret {
            Ok(secret) => opened(
                KekEncryptor { encryptor: Encrypt0 { key: secret, kid: facts.kid } },
                after,
            ),
            Err(message) => failed_outside(message),
        },
        _ => misreplied(),
    }
}

/// The first step of reading a key.
pub open spec fn reading(
    kek: KekEncryptor<Model>,
    file: Seq<char>,
    after: AfterRead<Model>,
) -> Step<Model> {
    Step {
        state: State::Read { kek, stage: ReadStage::Data, after },
        request: Request::ReadKeyFile { file },
    }
}

/// The next step of reading a key: its file is untagged and decrypted, and the key in it is read.
pub open spec fn read_next(
    settings: Settings<Model>,
    kek: KekEncryptor<Model>,
    stage: ReadStage<Model>,
    after: AfterRead<Model>,
    reply: Reply<Model>,
) -> Step<Model> {
    match (stage, reply) {
        (ReadStage::Data, Reply::Bytes(data)) => Step {
            state: State::Read { kek, stage: ReadStage::Untag, after },
            request: Request::SkipTag { data },
        },
        (ReadStage::Untag, Reply::Bytes(data)) => Step {
            state: State::Read { kek, stage: ReadStage::Decrypt, after },
            request: Request::Decrypt {
                encryptor: kek.encryptor,
                ciphertext: data,
                aad: keystore_aad(),
            },
        },
        (ReadStage::Decrypt, Reply::Bytes(data)) => match key_encoding(data) {
            Ok(key) => Step {
                state: State::Read { kek, stage: ReadStage::Inspect { key }, after },
                request: Request::InspectKey { key },
            },
            Err(message) => failed_outside(seq![message]),
        },
        (ReadStage::Inspect { key }, Reply::Facts(facts)) => obtained(
            settings,
            kek,
            key,
            facts,
            after,
        ),
        _ => misreplied(),
    }
}

/// The first step of saving a key. A key is held in the encoding that `CoseKey::to_vec` gives it,
/// and that is what is encrypted.
pub open spec fn saving(
    kek: KekEncryptor<Model>,
    file: Seq<char>,
    key: Seq<u8>,
    cid: Option<KeyId<Model>>,
    note: Note<Model>,
) -> Step<Model> {
    Step {
        state: State::Save { stage: SaveStage::Encrypt { file }, note },
        request: Request::Encrypt {
            encryptor: kek.encryptor,
            plaintext: key,
            aad: keystore_aad(),
            cid,
        },
    }
}

/// The next step of saving a key: what was encrypted is tagged and written to its file.
pub open spec fn save_next(
    stage: SaveStage<Model>,
    note: Note<Model>,
    reply: Reply<Model>,
) -> Step<Model> {
    match (stage, reply) {
        (SaveStage::Encrypt { file }, Reply::Bytes(data)) => Step {
            state: State::Save { stage: SaveStage::Tag { file }, note },
            request: Request::AddTag { data },
        },
        (SaveStage::Tag { file }, Reply::Bytes(data)) => Step {
            state: State::Save { stage: SaveStage::Write, note },
            request: Request::WriteKeyFile { file, data },
        },
        (SaveStage::Write, Reply::Text(path)) => closing(note.front + path + note.back),
        _ => misreplied(),
    }
}

impl KekEncryptor<Concrete> {
    /// Begins to open the key encryption key of the settings, or refuses where there is none.
    pub fn open(settings: &Settings<Concrete>, after: AfterOpen<Concrete>) -> (r: Step<Concrete>)
        ensures
            r@ == opening(settings@, after@),
    {
        if settings.kek.as_str().is_empty() {
            Step {
                state: State::Refused,
                request: Request::Print {
                    text:
                        "INSCRIBER_KEK not found\nKEK is used to protect other keys\nRun `ns-inscriber new-kek --alias=mykek` to generate a new KEK`".to_owned(),
                },
            }
        } else {
            Step {
                state: State::Open {
                    stage: OpenStage::Password { sealed: settings.kek.clone() },
                    after,
                },
                request: Request::PromptSecret {
                    text: "Enter the password protected KEK: ".to_owned(),
                },
            }
        }
    }

    /// Goes on with what the open key encryption key is for.
    fn proceed(self, after: AfterOpen<Concrete>) -> (r: Step<Concrete>)
        ensures
            r@ == opened(self@, after@),
    {
        match after {
            AfterOpen::Seed { file } => Step {
                state: State::Seed(SeedStage::Key { kek: self, file }),
                request: Request::NewSeedKey,
            },
            AfterOpen::Import { file, key } => {
                let shown: Vec<u8> = copy_bytes(&key);
                Step {
                    state: State::Import(ImportStage::Inspect { kek: self, file, key }),
                    request: Request::InspectKey { key: shown },
                }
            },
            AfterOpen::Read { file, after } => self.read_key(file, after),
            AfterOpen::List => Step {
                state: State::List(ListStage::Entries { kek: Some(self) }),
                request: Request::ListKeyFiles,
            },
        }
    }

    /// Goes on with opening the key encryption key.
    pub(crate) fn open_step(
        stage: OpenStage<Concrete>,
        after: AfterOpen<Concrete>,
        reply: Reply<Concrete>,
    ) -> (r: Step<Concrete>)
        ensures
            r@ == open_next(stage@, after@, reply@),
    {
        match (stage, reply) {
            (OpenStage::Password { sealed }, Reply::Text(password)) => Step {
                state: State::Open { stage: OpenStage::Hash { sealed }, after },
                request: Request::Hash256 { data: password.as_str().as_bytes_vec() },
            },
            (OpenStage::Hash { sealed }, Reply::Bytes(mkek)) => Step {
                state: State::Open { stage: OpenStage::Decode { mkek }, after },
                request: Request::DecodeBase64Url { text: trim(sealed.as_str()) },
            },
            (OpenStage::Decode { mkek }, Reply::Bytes(data)) => Step {
                state: State::Open { stage: OpenStage::Untag { mkek }, after },
                request: Request::SkipTag { data },
            },
            (OpenStage::Untag { mkek }, Reply::Bytes(data)) => Step {
                state: State::Open { stage: OpenStage::Decrypt, after },
                request: Request::Decrypt {
                    encryptor: Encrypt0 { key: mkek, kid: None },
                    ciphertext: data,
                    aad: keystore_aad_bytes(),
                },
            },
            (OpenStage::Decrypt, Reply::Bytes(data)) => match read_cose_key(data.as_slice()) {
                Ok(key) => Step {
                    state: State::Open { stage: OpenStage::Inspect, after },
                    request: Request::InspectKey { key },
                },
                Err(message) => fail_outside(one_text(message.as_str())),
            },
            (OpenStage::Inspect, Reply::Facts(facts)) => match facts.secret {
                Ok(secret) => {
                    let kek: KekEncryptor<Concrete> = KekEncryptor {
                        encryptor: Encrypt0 { key: secret, kid: facts.kid },
                    };
                    kek.proceed(after)
                },
                Err(message) => fail_outside(message),
            },
            _ => misreply(),
        }
    }

    /// Asks whether the key directory holds a file.
    pub fn key_exists(file: &String) -> (r: Request<Concrete>)
        ensures
            r@ == (Request::<Model>::FindKeyFile { file: file@ }),
    {
        Request::FindKeyFile { file: file.clone() }
    }

    /// Begins to read a key.
    pub fn read_key(self, file: String, after: AfterRead<Concrete>) -> (r: Step<Concrete>)
        ensures
            r@ == reading(self@, file@, after@),
    {
        Step {
            state: State::Read { kek: self, stage: ReadStage::Data, after },
            request: Request::ReadKeyFile { file },
        }
    }

    /// Goes on with reading a key.
    pub(crate) fn read_step(
        self,
        settings: &Settings<Concrete>,
        stage: ReadStage<Concrete>,
        after: AfterRead<Concrete>,
        reply: Reply<Concrete>,
    ) -> (r: Step<Concrete>)
        ensures
            r@ == read_next(settings@, self@, stage@, after@, reply@),
    {
        match (stage, reply) {
            (ReadStage::Data, Reply::Bytes(data)) => Step {
                state: State::Read { kek: self, stage: ReadStage::Untag, after },
                request: Request::SkipTag { data },
            },
            (ReadStage::Untag, Reply::Bytes(data)) => {
                let encryptor: Encrypt0<Concrete> = self.encryptor.duplicate();
                Step {
                    state: State::Read { kek: self, stage: ReadStage::Decrypt, after },
                    request: Request::Decrypt {
                        encryptor,
                        ciphertext: data,
                        aad: keystore_aad_bytes(),
                    },
                }
            },
            (ReadStage::Decrypt, Reply::Bytes(data)) => match read_cose_key(data.as_slice()) {
                Ok(key) => {
                    let shown: Vec<u8> = copy_bytes(&key);
                    Step {
                        state: State::Read { kek: self, stage: ReadStage::Inspect { key }, after },
                        request: Request::InspectKey { key: shown },
                    }
                },
                Err(message) => fail_outside(one_text(message.as_str())),
            },
            (ReadStage::Inspect { key }, Reply::Facts(facts)) => obtain(
                settings,
                self,
                key,
                facts,
                after,
            ),
            _ => misreply(),
        }
    }

    /// Begins to save a key, given in its encoding, under an identifier.
    pub fn save_key(
        self,
        file: String,
        key: Vec<u8>,
        cid: Option<KeyId<Concrete>>,
        note: Note<Concrete>,
    ) -> (r: Step<Concrete>)
        ensures
            r@ == saving(self@, file@, key@, maybe_kid(cid), note@),
    {
        Step {
            state: State::Save { stage: SaveStage::Encrypt { file }, note },
            request: Request::Encrypt {
                encryptor: self.encryptor,
                plaintext: key,
                aad: keystore_aad_bytes(),
                cid,
            },
        }
    }

    /// Goes on with saving a key.
    pub(crate) fn save_step(
        stage: SaveStage<Concrete>,
        note: Note<Concrete>,
        reply: Reply<Concrete>,
    ) -> (r: Step<Concrete>)
        ensures
            r@ == save_next(stage@, note@, reply@),
    {
        match (stage, reply) {
            (SaveStage::Encrypt { file }, Reply::Bytes(data)) => Step {
                state: State::Save { stage: SaveStage::Tag { file }, note },
                request: Request::AddTag { data },
            },
            (SaveStage::Tag { file }, Reply::Bytes(data)) => Step {
                state: State::Save { stage: SaveStage::Write, note },
                request: Request::WriteKeyFile { file, data },
            },
            (SaveStage::Write, Reply::Text(path)) => close(
                join3(note.front.as_str(), path.as_str(), note.back.as_str()),
            ),
            _ => misreply(),
        }
    }
}

} // verus!
