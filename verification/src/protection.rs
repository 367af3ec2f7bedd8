//! Keys are stored only under the key encryption key, and that is opened only with its password.

use vstd::prelude::*;
use vstd::utf8::encode_utf8;

use crate::cose::key_encoding;
use crate::form::{DirEntry, Encrypt0, KeyFacts, KeyId, Model};
use crate::keystore::keystore_aad;
use crate::listing::list_from;
use crate::run::{Run, exchanges_are_kept, the_last_exchange};
use crate::session::next;
use crate::state::{
    DeriveStage, ImportStage, KekEncryptor, ListStage, OpenStage, RegisterStage, SaveStage,
    SeedStage, State, Step,
};
use crate::text::trimmed;
use crate::wire::{Reply, Request};

verus! {

/// The question for the password of the key encryption key.
pub open spec fn password_question() -> Request<Model> {
    Request::PromptSecret { text: "Enter the password protected KEK: "@ }
}

/// Whether `mkek` is the hash of the password that the user gave.
pub open spec fn hashed(run: Run, mkek: Seq<u8>) -> bool {
    exists|password: Seq<char>|
        {
            &&& #[trigger] run.exchanged(password_question(), Reply::Text(password))
            &&& run.exchanged(
                Request::Hash256 { data: encode_utf8(password) },
                Reply::Bytes(mkek),
            )
        }
}

/// Whether `sealed` is what the key encryption key of the settings decodes to.
pub open spec fn decoded(run: Run, sealed: Seq<u8>) -> bool {
    run.exchanged(
        Request::DecodeBase64Url { text: trimmed(run.settings.kek) },
        Reply::Bytes(sealed),
    )
}

/// Whether `data` is what the key encryption key of the settings decodes to, without its tag.
pub open spec fn untagged(run: Run, data: Seq<u8>) -> bool {
    exists|sealed: Seq<u8>|
        {
            &&& decoded(run, sealed)
            &&& #[trigger] run.exchanged(Request::SkipTag { data: sealed }, Reply::Bytes(data))
        }
}

/// The request to decrypt the key encryption key.
pub open spec fn decryption(mkek: Seq<u8>, data: Seq<u8>) -> Request<Model> {
    Request::Decrypt {
        encryptor: Encrypt0 { key: mkek, kid: None },
        ciphertext: data,
        aad: keystore_aad(),
    }
}

/// Whether `plain` is what the key encryption key of the settings decrypts to with the password.
pub open spec fn decrypted(run: Run, plain: Seq<u8>) -> bool {
    exists|mkek: Seq<u8>, data: Seq<u8>|
        {
            &&& hashed(run, mkek)
            &&& untagged(run, data)
            &&& #[trigger] run.exchanged(decryption(mkek, data), Reply::Bytes(plain))
        }
}

/// Whether `key` is the key that the settings hold, read with the password.
pub open spec fn is_the_kek(run: Run, key: Seq<u8>) -> bool {
    exists|plain: Seq<u8>| #[trigger]
        decrypted(run, plain) && key_encoding(plain) == Ok::<Seq<u8>, Seq<char>>(key)
}

/// Whether an encryptor works with the secret and the identifier of the key that the settings hold.
pub open spec fn kek_is_open(run: Run, kek: KekEncryptor<Model>) -> bool {
    exists|key: Seq<u8>, facts: KeyFacts<Model>|
        {
            &&& is_the_kek(run, key)
            &&& #[trigger] run.exchanged(Request::InspectKey { key }, Reply::Facts(facts))
            &&& facts.secret == Ok::<Seq<u8>, Seq<Seq<char>>>(kek.encryptor.key)
            &&& facts.kid == kek.encryptor.kid
        }
}

/// The request to encrypt a key for its file.
pub open spec fn encryption(
    kek: KekEncryptor<Model>,
    plaintext: Seq<u8>,
    cid: Option<KeyId<Model>>,
) -> Request<Model> {
    Request::Encrypt { encryptor: kek.encryptor, plaintext, aad: keystore_aad(), cid }
}

/// Whether `sealed` was encrypted under the key encryption key.
pub open spec fn encrypted(run: Run, sealed: Seq<u8>) -> bool {
    exists|kek: KekEncryptor<Model>, plaintext: Seq<u8>, cid: Option<KeyId<Model>>|
        {
            &&& kek_is_open(run, kek)
            &&& #[trigger] run.exchanged(encryption(kek, plaintext, cid), Reply::Bytes(sealed))
        }
}

/// Whether `data` was encrypted under the key encryption key, and tagged.
pub open spec fn protected(run: Run, data: Seq<u8>) -> bool {
    exists|sealed: Seq<u8>|
        {
            &&& encrypted(run, sealed)
            &&& #[trigger] run.exchanged(Request::AddTag { data: sealed }, Reply::Bytes(data))
        }
}

/// Whether every key encryption key that a state holds was opened.
spec fn keks_are_open(run: Run, state: State<Model>) -> bool {
    match state {
        State::Read { kek, .. } => kek_is_open(run, kek),
        State::Seed(stage) => match stage {
            SeedStage::Find { .. } => true,
            SeedStage::Key { kek, .. } => kek_is_open(run, kek),
            SeedStage::KeyId { kek, .. } => kek_is_open(run, kek),
        },
        State::Import(stage) => match stage {
            ImportStage::Inspect { kek, .. } => kek_is_open(run, kek),
            _ => true,
        },
        State::Derive(stage) => match stage {
            DeriveStage::Secp256k1Seed { kek, .. } => kek_is_open(run, kek),
            DeriveStage::Secp256k1Secret { kek, .. } => kek_is_open(run, kek),
            DeriveStage::Secp256k1Key { kek, .. } => kek_is_open(run, kek),
            DeriveStage::Ed25519Seed { kek, .. } => kek_is_open(run, kek),
            DeriveStage::Ed25519Secret { kek, .. } => kek_is_open(run, kek),
            DeriveStage::Ed25519Key { kek, .. } => kek_is_open(run, kek),
        },
        State::List(stage) => match stage {
            ListStage::Entries { kek } => kek matches Some(kek) ==> kek_is_open(run, kek),
            ListStage::Header { kek, .. } => kek matches Some(kek) ==> kek_is_open(run, kek),
            ListStage::Shown { kek, .. } => kek matches Some(kek) ==> kek_is_open(run, kek),
            _ => true,
        },
        State::Register(stage) => match stage {
            RegisterStage::PublicKey { kek, .. } => kek_is_open(run, kek),
            RegisterStage::Sign { kek, .. } => kek_is_open(run, kek),
            RegisterStage::Validate { kek, .. } => kek_is_open(run, kek),
            _ => true,
        },
        _ => true,
    }
}

/// What is known of the key encryption key while it is opened.
spec fn opening_stands(run: Run, stage: OpenStage<Model>, request: Request<Model>) -> bool {
    match stage {
        OpenStage::Password { sealed } => {
            &&& sealed == run.settings.kek
            &&& request == password_question()
        },
        OpenStage::Hash { sealed } => {
            &&& sealed == run.settings.kek
            &&& exists|password: Seq<char>|
                {
                    &&& #[trigger] run.exchanged(password_question(), Reply::Text(password))
                    &&& request == (Request::<Model>::Hash256 { data: encode_utf8(password) })
                }
        },
        OpenStage::Decode { mkek } => {
            &&& hashed(run, mkek)
            &&& request == (Request::<Model>::DecodeBase64Url { text: trimmed(run.settings.kek) })
        },
        OpenStage::Untag { mkek } => {
            &&& hashed(run, mkek)
            &&& request matches Request::SkipTag { data }
            &&& decoded(run, data)
        },
        OpenStage::Decrypt => exists|mkek: Seq<u8>, data: Seq<u8>|
            {
                &&& #[trigger] hashed(run, mkek)
                &&& #[trigger] untagged(run, data)
                &&& request == decryption(mkek, data)
            },
        OpenStage::Inspect => request matches Request::InspectKey { key } && is_the_kek(run, key),
    }
}

/// What is known of a key while it is saved.
spec fn saving_stands(run: Run, stage: SaveStage<Model>, request: Request<Model>) -> bool {
    match stage {
        SaveStage::Encrypt { .. } => exists|
            kek: KekEncryptor<Model>,
            plaintext: Seq<u8>,
            cid: Option<KeyId<Model>>,
        |
            kek_is_open(run, kek) && request == #[trigger] encryption(kek, plaintext, cid),
        SaveStage::Tag { .. } => request matches Request::AddTag { data } && encrypted(run, data),
        SaveStage::Write => true,
    }
}

/// What is known of the keys where a command stands.
spec fn standing(run: Run, step: Step<Model>) -> bool {
    &&& keks_are_open(run, step.state)
    &&& step.state matches State::Open { stage, .. } ==> opening_stands(run, stage, step.request)
    &&& step.state matches State::Save { stage, .. } ==> saving_stands(run, stage, step.request)
    &&& step.request matches Request::WriteKeyFile { data, .. } ==> protected(run, data)
}

/// What is known of a key encryption key is so after a further answer too.
proof fn opening_is_kept(run: Run)
    requires
        run.replies.len() > 0,
    ensures
        forall|mkek: Seq<u8>| #[trigger] hashed(run.before(), mkek) ==> hashed(run, mkek),
        forall|sealed: Seq<u8>| #[trigger] decoded(run.before(), sealed) ==> decoded(run, sealed),
        forall|data: Seq<u8>| #[trigger] untagged(run.before(), data) ==> untagged(run, data),
        forall|plain: Seq<u8>| #[trigger] decrypted(run.before(), plain) ==> decrypted(run, plain),
        forall|key: Seq<u8>| #[trigger] is_the_kek(run.before(), key) ==> is_the_kek(run, key),
{
    exchanges_are_kept(run);
    let before = run.before();
    assert forall|mkek: Seq<u8>| #[trigger] hashed(before, mkek) implies hashed(run, mkek) by {
        let password = choose|password: Seq<char>|
            {
                &&& #[trigger] before.exchanged(password_question(), Reply::Text(password))
                &&& before.exchanged(
                    Request::Hash256 { data: encode_utf8(password) },
                    Reply::Bytes(mkek),
                )
            };
        assert(run.exchanged(password_question(), Reply::Text(password)));
    }
    assert forall|data: Seq<u8>| #[trigger] untagged(before, data) implies untagged(run, data) by {
        let sealed = choose|sealed: Seq<u8>|
            {
                &&& decoded(before, sealed)
                &&& #[trigger] before.exchanged(
                    Request::SkipTag { data: sealed },
                    Reply::Bytes(data),
                )
            };
        assert(run.exchanged(Request::SkipTag { data: sealed }, Reply::Bytes(data)));
    }
    assert forall|plain: Seq<u8>| #[trigger] decrypted(before, plain) implies decrypted(
        run,
        plain,
    ) by {
        let (mkek, data) = choose|mkek: Seq<u8>, data: Seq<u8>|
            {
                &&& hashed(before, mkek)
                &&& untagged(before, data)
                &&& #[trigger] before.exchanged(decryption(mkek, data), Reply::Bytes(plain))
            };
        assert(run.exchanged(decryption(mkek, data), Reply::Bytes(plain)));
    }
    assert forall|key: Seq<u8>| #[trigger] is_the_kek(before, key) implies is_the_kek(run, key) by {
        let plain = choose|plain: Seq<u8>| #[trigger]
            decrypted(before, plain) && key_encoding(plain) == Ok::<Seq<u8>, Seq<char>>(key);
        assert(decrypted(run, plain));
    }
}

/// What is known of stored keys is so after a further answer too.
pub proof fn protection_is_kept(run: Run)
    requires
        run.replies.len() > 0,
    ensures
        forall|kek: KekEncryptor<Model>| #[trigger]
            kek_is_open(run.before(), kek) ==> kek_is_open(run, kek),
        forall|sealed: Seq<u8>| #[trigger]
            encrypted(run.before(), sealed) ==> encrypted(run, sealed),
        forall|data: Seq<u8>| #[trigger] protected(run.before(), data) ==> protected(run, data),
{
    exchanges_are_kept(run);
    opening_is_kept(run);
    let before = run.before();
    assert forall|kek: KekEncryptor<Model>| #[trigger] kek_is_open(before, kek) implies kek_is_open(
        run,
        kek,
    ) by {
        let (key, facts) = choose|key: Seq<u8>, facts: KeyFacts<Model>|
            {
                &&& is_the_kek(before, key)
                &&& #[trigger] before.exchanged(Request::InspectKey { key }, Reply::Facts(facts))
                &&& facts.secret == Ok::<Seq<u8>, Seq<Seq<char>>>(kek.encryptor.key)
                &&& facts.kid == kek.encryptor.kid
            };
        assert(run.exchanged(Request::InspectKey { key }, Reply::Facts(facts)));
    }
    assert forall|sealed: Seq<u8>| #[trigger] encrypted(before, sealed) implies encrypted(
        run,
        sealed,
    ) by {
        let (kek, plaintext, cid) = choose|
            kek: KekEncryptor<Model>,
            plaintext: Seq<u8>,
            cid: Option<KeyId<Model>>,
        |
            {
                &&& kek_is_open(before, kek)
                &&& #[trigger] before.exchanged(
                    encryption(kek, plaintext, cid),
                    Reply::Bytes(sealed),
                )
            };
        assert(run.exchanged(encryption(kek, plaintext, cid), Reply::Bytes(sealed)));
    }
    assert forall|data: Seq<u8>| #[trigger] protected(before, data) implies protected(run, data) by {
        let sealed = choose|sealed: Seq<u8>|
            {
                &&& encrypted(before, sealed)
                &&& #[trigger] before.exchanged(
                    Request::AddTag { data: sealed },
                    Reply::Bytes(data),
                )
            };
        assert(run.exchanged(Request::AddTag { data: sealed }, Reply::Bytes(data)));
    }
}

/// What is known of the keys is so after a further answer too.
proof fn standing_is_kept(run: Run, step: Step<Model>)
    requires
        run.replies.len() > 0,
        standing(run.before(), step),
    ensures
        standing(run, step),
{
    exchanges_are_kept(run);
    opening_is_kept(run);
    protection_is_kept(run);
    let before = run.before();
    if let State::Open { stage, .. } = step.state {
        match stage {
            OpenStage::Hash { .. } => {
                let password = choose|password: Seq<char>|
                    {
                        &&& #[trigger] before.exchanged(password_question(), Reply::Text(password))
                        &&& step.request == (Request::<Model>::Hash256 {
                            data: encode_utf8(password),
                        })
                    };
                assert(run.exchanged(password_question(), Reply::Text(password)));
            },
            OpenStage::Decrypt => {
                let (mkek, data) = choose|mkek: Seq<u8>, data: Seq<u8>|
                    {
                        &&& #[trigger] hashed(before, mkek)
                        &&& #[trigger] untagged(before, data)
                        &&& step.request == decryption(mkek, data)
                    };
                assert(hashed(run, mkek));
                assert(untagged(run, data));
            },
            _ => {},
        }
    }
    if let State::Save { stage: SaveStage::Encrypt { .. }, .. } = step.state {
        let (kek, plaintext, cid) = choose|
            kek: KekEncryptor<Model>,
            plaintext: Seq<u8>,
            cid: Option<KeyId<Model>>,
        |
            kek_is_open(before, kek) && step.request == #[trigger] encryption(kek, plaintext, cid);
        assert(step.request == encryption(kek, plaintext, cid));
    }
}

/// The opening of the key encryption key goes on.
proof fn an_opening_goes_on(run: Run, step: Step<Model>, reply: Reply<Model>)
    requires
        step.state is Open,
        standing(run, step),
        run.exchanged(step.request, reply),
    ensures
        standing(run, next(run.settings, step.state, reply)),
{
    let after = next(run.settings, step.state, reply);
    if let State::Open { stage, .. } = step.state {
        match (stage, reply) {
            (OpenStage::Password { .. }, Reply::Text(password)) => {
                assert(run.exchanged(password_question(), Reply::Text(password)));
            },
            (OpenStage::Hash { .. }, Reply::Bytes(mkek)) => {
                let password = choose|password: Seq<char>|
                    {
                        &&& #[trigger] run.exchanged(password_question(), Reply::Text(password))
                        &&& step.request == (Request::<Model>::Hash256 {
                            data: encode_utf8(password),
                        })
                    };
                assert(run.exchanged(password_question(), Reply::Text(password)));
                assert(hashed(run, mkek));
            },
            (OpenStage::Decode { .. }, Reply::Bytes(data)) => {
                assert(decoded(run, data));
            },
            (OpenStage::Untag { mkek }, Reply::Bytes(data)) => {
                if let Request::SkipTag { data: sealed } = step.request {
                    assert(run.exchanged(Request::SkipTag { data: sealed }, Reply::Bytes(data)));
                }
                assert(untagged(run, data));
                assert(hashed(run, mkek));
                assert(after.request == decryption(mkek, data));
            },
            (OpenStage::Decrypt, Reply::Bytes(plain)) => {
                let (mkek, data) = choose|mkek: Seq<u8>, data: Seq<u8>|
                    {
                        &&& #[trigger] hashed(run, mkek)
                        &&& #[trigger] untagged(run, data)
                        &&& step.request == decryption(mkek, data)
                    };
                assert(run.exchanged(decryption(mkek, data), Reply::Bytes(plain)));
                assert(decrypted(run, plain));
            },
            (OpenStage::Inspect, Reply::Facts(facts)) => {
                if let Request::InspectKey { key } = step.request {
                    assert(run.exchanged(Request::InspectKey { key }, Reply::Facts(facts)));
                }
                if let Ok(secret) = facts.secret {
                    assert(kek_is_open(
                        run,
                        KekEncryptor { encryptor: Encrypt0 { key: secret, kid: facts.kid } },
                    ));
                }
            },
            _ => {},
        }
    }
}

/// The saving of a key goes on.
proof fn a_saving_goes_on(run: Run, step: Step<Model>, reply: Reply<Model>)
    requires
        step.state is Save,
        standing(run, step),
        run.exchanged(step.request, reply),
    ensures
        standing(run, next(run.settings, step.state, reply)),
{
    if let State::Save { stage, .. } = step.state {
        match (stage, reply) {
            (SaveStage::Encrypt { .. }, Reply::Bytes(sealed)) => {
                let (kek, plaintext, cid) = choose|
                    kek: KekEncryptor<Model>,
                    plaintext: Seq<u8>,
                    cid: Option<KeyId<Model>>,
                |
                    kek_is_open(run, kek) && step.request == #[trigger] encryption(
                        kek,
                        plaintext,
                        cid,
                    );
                assert(run.exchanged(encryption(kek, plaintext, cid), Reply::Bytes(sealed)));
                assert(encrypted(run, sealed));
            },
            (SaveStage::Tag { .. }, Reply::Bytes(data)) => {
                if let Request::AddTag { data: sealed } = step.request {
                    assert(run.exchanged(Request::AddTag { data: sealed }, Reply::Bytes(data)));
                }
                assert(protected(run, data));
            },
            _ => {},
        }
    }
}

/// A list holds no other key encryption key than the one that was opened for it.
proof fn a_list_keeps_its_kek(
    run: Run,
    kek: Option<KekEncryptor<Model>>,
    entries: Seq<DirEntry<Seq<char>>>,
    from: int,
)
    requires
        kek matches Some(kek) ==> kek_is_open(run, kek),
    ensures
        standing(run, list_from(kek, entries, from)),
    decreases entries.len() - from,
{
    if from < entries.len() && entries[from] is Other {
        a_list_keeps_its_kek(run, kek, entries, from + 1);
    }
}

/// Any other step keeps to the key encryption key that was opened.
#[verifier::rlimit(60)]
proof fn another_step_goes_on(run: Run, step: Step<Model>, reply: Reply<Model>)
    requires
        !(step.state is Open || step.state is Save),
        standing(run, step),
    ensures
        standing(run, next(run.settings, step.state, reply)),
{
    let after = next(run.settings, step.state, reply);
    match step.state {
        State::List(stage) => match stage {
            ListStage::Entries { kek } => {
                if let Reply::Entries(entries) = reply {
                    a_list_keeps_its_kek(run, kek, entries, 0);
                }
            },
            ListStage::Untag { entries, index } => {
                a_list_keeps_its_kek(run, None, entries, index + 1);
            },
            ListStage::Shown { kek, entries, index } => {
                a_list_keeps_its_kek(run, kek, entries, index + 1);
            },
            _ => {},
        },
        State::Seed(SeedStage::KeyId { kek, .. }) => {
            if let Request::Encrypt { plaintext, cid, .. } = after.request {
                assert(after.request == encryption(kek, plaintext, cid));
            }
        },
        State::Import(ImportStage::Inspect { kek, .. }) => {
            if let Request::Encrypt { plaintext, cid, .. } = after.request {
                assert(after.request == encryption(kek, plaintext, cid));
            }
        },
        State::Derive(DeriveStage::Secp256k1Key { kek, .. }) => {
            if let Request::Encrypt { plaintext, cid, .. } = after.request {
                assert(after.request == encryption(kek, plaintext, cid));
            }
        },
        State::Derive(DeriveStage::Ed25519Key { kek, .. }) => {
            if let Request::Encrypt { plaintext, cid, .. } = after.request {
                assert(after.request == encryption(kek, plaintext, cid));
            }
        },
        _ => {},
    }
}

/// Throughout a run, every key encryption key was opened and every written key is protected.
proof fn run_protects(run: Run)
    ensures
        standing(run, run.step()),
    decreases run.replies.len(),
{
    if run.replies.len() > 0 {
        let step = run.before().step();
        let reply = run.replies.last();
        run_protects(run.before());
        standing_is_kept(run, step);
        the_last_exchange(run);
        if step.state is Open {
            an_opening_goes_on(run, step, reply);
        } else if step.state is Save {
            a_saving_goes_on(run, step, reply);
        } else {
            another_step_goes_on(run, step, reply);
        }
    }
}

/// Every key is read with the key that the settings hold and that the password of the user opened.
pub proof fn every_reader_was_opened(run: Run, kek: KekEncryptor<Model>)
    requires
        run.step().state matches State::Read { kek: reader, .. } && reader == kek,
    ensures
        kek_is_open(run, kek),
{
    run_protects(run);
}

/// Every key that is written is protected: what is written was encrypted and tagged, under the key
/// that the settings hold and that the password of the user opened.
pub proof fn every_written_key_is_protected(run: Run, file: Seq<char>, data: Seq<u8>)
    requires
        run.step().request == (Request::<Model>::WriteKeyFile { file, data }),
    ensures
        protected(run, data),
{
    run_protects(run);
}

} // verus!
