//! What is written can be read back: keys, key encryption keys, seeds and signatures.

use vstd::prelude::*;
use vstd::utf8::encode_utf8;

use crate::chain::{secp256k1_public_key, valid_secret_key};
use crate::cli::Commands;
use crate::cose::key_encoding;
use crate::files::the_seed_has_a_name;
use crate::form::{Encrypt0, KeyFacts, KeyId, Model};
use crate::hexadecimal::{hex_reads_back, hex_text};
use crate::keystore::{key_file, keystore_aad, opened, opening, reading, saving};
use crate::messages::{message_aad, sign_begun, verify_begun};
use crate::seeds::{export_begun, new_kek_begun, transfer_aad};
use crate::session::{next, started};
use crate::state::{
    AfterOpen, AfterRead, ImportStage, KekEncryptor, Note, ReadStage, Settings, State, Step,
    VerifyStage, closing, failed_outside,
};
use crate::text::trimmed;
use crate::wire::{Reply, Request};

verus! {

/// What a wallet computes, whichever wallet it is.
pub struct Wallet {
    /// The 256-bit hash of some bytes.
    pub hash: spec_fn(Seq<u8>) -> Seq<u8>,
    /// What encrypting gives.
    pub encrypt: spec_fn(Encrypt0<Model>, Seq<u8>, Seq<u8>, Option<KeyId<Model>>) -> Seq<u8>,
    /// What decrypting gives, or why it fails.
    pub decrypt: spec_fn(Encrypt0<Model>, Seq<u8>, Seq<u8>) -> Result<Seq<u8>, Seq<Seq<char>>>,
    /// Bytes with the tag in front.
    pub tag: spec_fn(Seq<u8>) -> Seq<u8>,
    /// Bytes without the tag.
    pub untag: spec_fn(Seq<u8>) -> Seq<u8>,
    /// Bytes in the URL-safe base64 alphabet.
    pub encode: spec_fn(Seq<u8>) -> Seq<char>,
    /// The bytes that a text in the URL-safe base64 alphabet stands for, or why there are none.
    pub decode: spec_fn(Seq<char>) -> Result<Seq<u8>, Seq<Seq<char>>>,
    /// The bytes that a base64 text stands for, or why there are none.
    pub decode_base64: spec_fn(Seq<char>) -> Result<Seq<u8>, Seq<Seq<char>>>,
}

/// Whether a wallet reads back what it wrote itself.
pub open spec fn faithful(wallet: Wallet) -> bool {
    &&& forall|e: Encrypt0<Model>, p: Seq<u8>, a: Seq<u8>, c: Option<KeyId<Model>>|
        (wallet.decrypt)(e, #[trigger] (wallet.encrypt)(e, p, a, c), a) == Ok::<
            Seq<u8>,
            Seq<Seq<char>>,
        >(p)
    &&& forall|d: Seq<u8>| (wallet.untag)(#[trigger] (wallet.tag)(d)) == d
    &&& forall|d: Seq<u8>|
        (wallet.decode)(#[trigger] (wallet.encode)(d)) == Ok::<Seq<u8>, Seq<Seq<char>>>(d)
}

/// The answer that carries what was computed, or the failure.
pub open spec fn computed(result: Result<Seq<u8>, Seq<Seq<char>>>) -> Reply<Model> {
    match result {
        Ok(data) => Reply::Bytes(data),
        Err(messages) => Reply::Failed { messages },
    }
}

/// What a wallet answers to a request that only computes.
pub open spec fn wallet_reply(wallet: Wallet, request: Request<Model>) -> Option<Reply<Model>> {
    match request {
        Request::Hash256 { data } => Some(Reply::Bytes((wallet.hash)(data))),
        Request::Encrypt { encryptor, plaintext, aad, cid } => Some(
            Reply::Bytes((wallet.encrypt)(encryptor, plaintext, aad, cid)),
        ),
        Request::Decrypt { encryptor, ciphertext, aad } => Some(
            computed((wallet.decrypt)(encryptor, ciphertext, aad)),
        ),
        Request::AddTag { data } => Some(Reply::Bytes((wallet.tag)(data))),
        Request::SkipTag { data } => Some(Reply::Bytes((wallet.untag)(data))),
        Request::EncodeBase64Url { data } => Some(Reply::Text((wallet.encode)(data))),
        Request::DecodeBase64Url { text } => Some(computed((wallet.decode)(text))),
        Request::DecodeBase64 { text } => Some(computed((wallet.decode_base64)(text))),
        _ => None,
    }
}

/// The step at which a command asks for something that a wallet does not compute, or the one that
/// it reaches with as many answers of the wallet as there is `fuel`.
pub open spec fn carried(
    wallet: Wallet,
    settings: Settings<Model>,
    step: Step<Model>,
    fuel: nat,
) -> Step<Model>
    decreases fuel,
{
    match wallet_reply(wallet, step.request) {
        Some(reply) => if fuel == 0 {
            step
        } else {
            carried(wallet, settings, next(settings, step.state, reply), (fuel - 1) as nat)
        },
        None => step,
    }
}

/// The most answers in a row that a command takes from a wallet.
pub open spec fn enough() -> nat {
    5
}

/// The step that a command reaches from an answer, with a wallet at hand.
pub open spec fn then_carried(
    wallet: Wallet,
    settings: Settings<Model>,
    step: Step<Model>,
    reply: Reply<Model>,
) -> Step<Model> {
    carried(wallet, settings, next(settings, step.state, reply), enough())
}

/// Whether some bytes are the encoding of a key that can be read back.
pub open spec fn is_encoding(key: Seq<u8>) -> bool {
    key_encoding(key) == Ok::<Seq<u8>, Seq<char>>(key)
}

/// A key that was saved can be read: what is written to its file is untagged, decrypted and read to
/// the same key, whatever identifier it was saved for.
pub proof fn a_saved_key_reads_back(
    wallet: Wallet,
    settings: Settings<Model>,
    kek: KekEncryptor<Model>,
    file: Seq<char>,
    key: Seq<u8>,
    cid: Option<KeyId<Model>>,
    note: Note<Model>,
    after: AfterRead<Model>,
)
    requires
        faithful(wallet),
        is_encoding(key),
    ensures
        ({
            let saved = carried(wallet, settings, saving(kek, file, key, cid, note), enough());
            &&& saved.request matches Request::WriteKeyFile { file: written, data }
            &&& written == file
            &&& reading(kek, file, after).request == (Request::<Model>::ReadKeyFile { file })
            &&& then_carried(wallet, settings, reading(kek, file, after), Reply::Bytes(data)) == (
            Step::<Model> {
                state: State::Read { kek, stage: ReadStage::Inspect { key }, after },
                request: Request::InspectKey { key },
            })
        }),
{
    reveal_with_fuel(carried, 6);
    let sealed = (wallet.encrypt)(kek.encryptor, key, keystore_aad(), cid);
    assert((wallet.untag)((wallet.tag)(sealed)) == sealed);
    assert((wallet.decrypt)(kek.encryptor, sealed, keystore_aad()) == Ok::<
        Seq<u8>,
        Seq<Seq<char>>,
    >(key));
}

/// The last step of making a key encryption key, from the alias, the time, the password and the
/// fresh key.
pub open spec fn new_kek_shown(
    wallet: Wallet,
    settings: Settings<Model>,
    alias: Seq<char>,
    now: Seq<char>,
    password: Seq<char>,
    key: Seq<u8>,
) -> Step<Model> {
    let hashed = then_carried(wallet, settings, new_kek_begun(alias), Reply::Text(password));
    let named = if alias.len() == 0 {
        then_carried(wallet, settings, hashed, Reply::Text(now))
    } else {
        hashed
    };
    then_carried(wallet, settings, named, Reply::Bytes(key))
}

/// The step that a command reaches with the password of the key encryption key.
pub open spec fn kek_tried(
    wallet: Wallet,
    settings: Settings<Model>,
    after: AfterOpen<Model>,
    password: Seq<char>,
) -> Step<Model> {
    then_carried(wallet, settings, opening(settings, after), Reply::Text(password))
}

/// The text that stands for a key encryption key: the key encrypted with its password for its name,
/// tagged and encoded.
pub open spec fn kek_text(
    wallet: Wallet,
    kid: Seq<char>,
    password: Seq<char>,
    key: Seq<u8>,
) -> Seq<char> {
    let encryptor = Encrypt0::<Model> { key: (wallet.hash)(encode_utf8(password)), kid: None };
    let sealed = (wallet.encrypt)(encryptor, key, keystore_aad(), Some(KeyId::Text(kid)));
    (wallet.encode)((wallet.tag)(sealed))
}

/// A new key encryption key opens with the password that it was made with: once the text that is
/// shown stands in the settings, with or without white space around it, the key in it is found
/// again, and its secret protects the other keys.
pub proof fn a_new_kek_opens(
    wallet: Wallet,
    settings: Settings<Model>,
    alias: Seq<char>,
    now: Seq<char>,
    password: Seq<char>,
    key: Seq<u8>,
    stored: Seq<u8>,
    kid: Seq<char>,
    after: AfterOpen<Model>,
    facts: KeyFacts<Model>,
    secret: Seq<u8>,
)
    requires
        faithful(wallet),
        key_encoding(key) == Ok::<Seq<u8>, Seq<char>>(stored),
        kid == if alias.len() == 0 {
            now
        } else {
            alias
        },
        trimmed(settings.kek) == kek_text(wallet, kid, password, key),
        settings.kek.len() > 0,
        facts.secret == Ok::<Seq<u8>, Seq<Seq<char>>>(secret),
    ensures
        new_kek_shown(wallet, settings, alias, now, password, key) == closing(
            "Put this new KEK as INSCRIBER_KEK on config file:\n"@ + kek_text(
                wallet,
                kid,
                password,
                key,
            ),
        ),
        kek_tried(wallet, settings, after, password).request == (Request::<Model>::InspectKey {
            key: stored,
        }),
        next(
            settings,
            kek_tried(wallet, settings, after, password).state,
            Reply::Facts(facts),
        ) == opened(KekEncryptor { encryptor: Encrypt0 { key: secret, kid: facts.kid } }, after),
{
    reveal_with_fuel(carried, 6);
    let encryptor = Encrypt0::<Model> { key: (wallet.hash)(encode_utf8(password)), kid: None };
    let sealed = (wallet.encrypt)(encryptor, key, keystore_aad(), Some(KeyId::Text(kid)));
    let data = (wallet.tag)(sealed);
    assert((wallet.decode)((wallet.encode)(data)) == Ok::<Seq<u8>, Seq<Seq<char>>>(data));
    assert((wallet.untag)(data) == sealed);
    assert((wallet.decrypt)(encryptor, sealed, keystore_aad()) == Ok::<Seq<u8>, Seq<Seq<char>>>(
        key,
    ));
}

/// A key encryption key opens alike with and without the tag in front of what its text stands for:
/// the same key is found, and what follows is the same.
pub proof fn the_tag_of_a_kek_is_optional(
    wallet: Wallet,
    plain: Settings<Model>,
    tagged: Settings<Model>,
    sealed: Seq<u8>,
    password: Seq<char>,
    after: AfterOpen<Model>,
    reply: Reply<Model>,
)
    requires
        (wallet.untag)(sealed) == sealed,
        (wallet.untag)((wallet.tag)(sealed)) == sealed,
        plain.kek.len() > 0,
        tagged.kek.len() > 0,
        (wallet.decode)(trimmed(plain.kek)) == Ok::<Seq<u8>, Seq<Seq<char>>>(sealed),
        (wallet.decode)(trimmed(tagged.kek)) == Ok::<Seq<u8>, Seq<Seq<char>>>(
            (wallet.tag)(sealed),
        ),
    ensures
        kek_tried(wallet, plain, after, password) == kek_tried(wallet, tagged, after, password),
        next(plain, kek_tried(wallet, plain, after, password).state, reply) == next(
            tagged,
            kek_tried(wallet, tagged, after, password).state,
            reply,
        ),
{
    reveal_with_fuel(carried, 6);
}

/// A key file reads alike with and without the tag in front: both lead to the same step, be it the
/// key or a failure.
pub proof fn the_tag_of_a_key_file_is_optional(
    wallet: Wallet,
    settings: Settings<Model>,
    kek: KekEncryptor<Model>,
    plain: Seq<char>,
    tagged: Seq<char>,
    data: Seq<u8>,
    after: AfterRead<Model>,
)
    requires
        (wallet.untag)(data) == data,
        (wallet.untag)((wallet.tag)(data)) == data,
    ensures
        then_carried(wallet, settings, reading(kek, plain, after), Reply::Bytes(data))
            == then_carried(
            wallet,
            settings,
            reading(kek, tagged, after),
            Reply::Bytes((wallet.tag)(data)),
        ),
{
    reveal_with_fuel(carried, 6);
}

/// Whether a wallet decrypts nothing that was encrypted with another secret.
pub open spec fn exclusive(wallet: Wallet) -> bool {
    forall|
        e: Encrypt0<Model>,
        other: Encrypt0<Model>,
        p: Seq<u8>,
        a: Seq<u8>,
        c: Option<KeyId<Model>>,
    |
        e.key != other.key ==> #[trigger] (wallet.decrypt)(
            other,
            (wallet.encrypt)(e, p, a, c),
            a,
        ) is Err
}

/// A key file gives no key under another key encryption key than the one that it was saved under:
/// the command fails for the reason of the wallet.
pub proof fn a_saved_key_is_no_key_under_another_kek(
    wallet: Wallet,
    settings: Settings<Model>,
    kek: KekEncryptor<Model>,
    other: KekEncryptor<Model>,
    file: Seq<char>,
    key: Seq<u8>,
    cid: Option<KeyId<Model>>,
    note: Note<Model>,
    after: AfterRead<Model>,
)
    requires
        exclusive(wallet),
        forall|d: Seq<u8>| (wallet.untag)(#[trigger] (wallet.tag)(d)) == d,
        kek.encryptor.key != other.encryptor.key,
    ensures
        ({
            let saved = carried(wallet, settings, saving(kek, file, key, cid, note), enough());
            &&& saved.request matches Request::WriteKeyFile { file: written, data }
            &&& written == file
            &&& exists|messages: Seq<Seq<char>>|
                then_carried(wallet, settings, reading(other, file, after), Reply::Bytes(data))
                    == #[trigger] failed_outside(messages)
        }),
{
    reveal_with_fuel(carried, 6);
    let sealed = (wallet.encrypt)(kek.encryptor, key, keystore_aad(), cid);
    let data = (wallet.tag)(sealed);
    assert((wallet.untag)(data) == sealed);
    assert((wallet.decrypt)(other.encryptor, sealed, keystore_aad()) is Err);
    let messages = (wallet.decrypt)(other.encryptor, sealed, keystore_aad())->Err_0;
    assert(then_carried(wallet, settings, reading(other, file, after), Reply::Bytes(data))
        == failed_outside(messages));
}

/// A key that was saved in one run is read in any later one with the same key encryption key in the
/// settings and the same password: the later run opens the same key encryption key, and finds in
/// the file the key that the first one saved.
pub proof fn a_key_saved_in_one_run_is_read_in_another(
    wallet: Wallet,
    first: Settings<Model>,
    later: Settings<Model>,
    password: Seq<char>,
    facts: KeyFacts<Model>,
    secret: Seq<u8>,
    before: AfterOpen<Model>,
    file: Seq<char>,
    key: Seq<u8>,
    cid: Option<KeyId<Model>>,
    note: Note<Model>,
    after: AfterRead<Model>,
)
    requires
        faithful(wallet),
        is_encoding(key),
        first.kek == later.kek,
        facts.secret == Ok::<Seq<u8>, Seq<Seq<char>>>(secret),
    ensures
        ({
            let kek = KekEncryptor::<Model> { encryptor: Encrypt0 { key: secret, kid: facts.kid } };
            let tried = kek_tried(wallet, first, before, password);
            let saved = carried(wallet, first, saving(kek, file, key, cid, note), enough());
            let wanted = AfterOpen::Read { file, after };
            let again = kek_tried(wallet, later, wanted, password);
            let read = next(later, again.state, Reply::Facts(facts));
            &&& again.request == tried.request
            &&& tried.request is InspectKey ==> {
                &&& next(first, tried.state, Reply::Facts(facts)) == opened(kek, before)
                &&& read == reading(kek, file, after)
            }
            &&& saved.request matches Request::WriteKeyFile { file: written, data }
            &&& written == file
            &&& tried.request is InspectKey ==> then_carried(
                wallet,
                later,
                read,
                Reply::Bytes(data),
            ) == (Step::<Model> {
                state: State::Read { kek, stage: ReadStage::Inspect { key }, after },
                request: Request::InspectKey { key },
            })
        }),
{
    let kek = KekEncryptor::<Model> { encryptor: Encrypt0 { key: secret, kid: facts.kid } };
    a_saved_key_reads_back(wallet, first, kek, file, key, cid, note, after);
    a_saved_key_reads_back(wallet, later, kek, file, key, cid, note, after);
    reveal_with_fuel(carried, 6);
}

/// The key directory once a request is performed: a written file replaces what was there, and
/// leaves the other files alone.
pub open spec fn directory_after(
    files: Map<Seq<char>, Seq<u8>>,
    request: Request<Model>,
) -> Map<Seq<char>, Seq<u8>> {
    match request {
        Request::WriteKeyFile { file, data } => files.insert(file, data),
        _ => files,
    }
}

/// The key directory once a key is saved.
pub open spec fn directory_saved(
    wallet: Wallet,
    settings: Settings<Model>,
    files: Map<Seq<char>, Seq<u8>>,
    kek: KekEncryptor<Model>,
    file: Seq<char>,
    key: Seq<u8>,
    cid: Option<KeyId<Model>>,
    note: Note<Model>,
) -> Map<Seq<char>, Seq<u8>> {
    directory_after(
        files,
        carried(wallet, settings, saving(kek, file, key, cid, note), enough()).request,
    )
}

/// The last key that was saved in a file is the one that is read from it, whatever was saved there
/// before and for whichever identifiers.
pub proof fn the_last_save_wins(
    wallet: Wallet,
    settings: Settings<Model>,
    files: Map<Seq<char>, Seq<u8>>,
    kek: KekEncryptor<Model>,
    file: Seq<char>,
    key: Seq<u8>,
    last: Seq<u8>,
    cid: Option<KeyId<Model>>,
    last_cid: Option<KeyId<Model>>,
    note: Note<Model>,
    after: AfterRead<Model>,
)
    requires
        faithful(wallet),
        is_encoding(last),
    ensures
        ({
            let once = directory_saved(wallet, settings, files, kek, file, key, cid, note);
            let twice = directory_saved(wallet, settings, once, kek, file, last, last_cid, note);
            &&& twice.dom().contains(file)
            &&& then_carried(
                wallet,
                settings,
                reading(kek, file, after),
                Reply::Bytes(twice[file]),
            ) == (Step::<Model> {
                state: State::Read { kek, stage: ReadStage::Inspect { key: last }, after },
                request: Request::InspectKey { key: last },
            })
        }),
{
    a_saved_key_reads_back(wallet, settings, kek, file, last, last_cid, note, after);
}

/// The identifier for which a key is saved changes nothing of the key: saved for two of them, it is
/// read from both files as the same key, with the identifier that it carries itself.
pub proof fn the_identifier_of_a_file_changes_no_key(
    wallet: Wallet,
    settings: Settings<Model>,
    files: Map<Seq<char>, Seq<u8>>,
    kek: KekEncryptor<Model>,
    file: Seq<char>,
    other: Seq<char>,
    key: Seq<u8>,
    cid: Option<KeyId<Model>>,
    other_cid: Option<KeyId<Model>>,
    note: Note<Model>,
    after: AfterRead<Model>,
)
    requires
        faithful(wallet),
        is_encoding(key),
        file != other,
    ensures
        ({
            let once = directory_saved(wallet, settings, files, kek, file, key, cid, note);
            let both = directory_saved(wallet, settings, once, kek, other, key, other_cid, note);
            let found = Step::<Model> {
                state: State::Read { kek, stage: ReadStage::Inspect { key }, after },
                request: Request::InspectKey { key },
            };
            &&& then_carried(
                wallet,
                settings,
                reading(kek, file, after),
                Reply::Bytes(both[file]),
            ) == found
            &&& then_carried(
                wallet,
                settings,
                reading(kek, other, after),
                Reply::Bytes(both[other]),
            ) == found
        }),
{
    a_saved_key_reads_back(wallet, settings, kek, file, key, cid, note, after);
    a_saved_key_reads_back(wallet, settings, kek, other, key, other_cid, note, after);
}

/// The step at which a new seed is written, from the password, the facts of the key encryption key
/// and the fresh key before and after it has its identifier.
pub open spec fn new_seed_written(
    wallet: Wallet,
    settings: Settings<Model>,
    path: Seq<char>,
    password: Seq<char>,
    facts: KeyFacts<Model>,
    fresh: Seq<u8>,
    public_key: Seq<u8>,
    key: Seq<u8>,
) -> Step<Model> {
    let missing = Reply::Found { exists: false, path };
    let asked = next(settings, started(settings, Some(Commands::NewSeed {  })).state, missing);
    let tried = then_carried(wallet, settings, asked, Reply::Text(password));
    let made = next(settings, tried.state, Reply::Facts(facts));
    let named = next(settings, made.state, Reply::KeyPair { key: fresh, public_key });
    then_carried(wallet, settings, named, Reply::Bytes(key))
}

/// The step at which a seed is found for its export, from the password, the facts of the key
/// encryption key and what the file holds.
pub open spec fn seed_found(
    wallet: Wallet,
    settings: Settings<Model>,
    seed: String,
    password: Seq<char>,
    facts: KeyFacts<Model>,
    data: Seq<u8>,
) -> Step<Model> {
    let asked = started(settings, Some(Commands::ExportSeed { seed }));
    let tried = then_carried(wallet, settings, asked, Reply::Text(password));
    let wanted = next(settings, tried.state, Reply::Facts(facts));
    then_carried(wallet, settings, wanted, Reply::Bytes(data))
}

/// A new seed is found again by the name `seed`: what making it writes is the key that a later
/// export reads, with the same key encryption key and the same password.
pub proof fn a_new_seed_is_found_again(
    wallet: Wallet,
    settings: Settings<Model>,
    path: Seq<char>,
    password: Seq<char>,
    facts: KeyFacts<Model>,
    fresh: Seq<u8>,
    public_key: Seq<u8>,
    key: Seq<u8>,
    seed: String,
)
    requires
        faithful(wallet),
        is_encoding(key),
        seed@ == "seed"@,
    ensures
        new_seed_written(
            wallet,
            settings,
            path,
            password,
            facts,
            fresh,
            public_key,
            key,
        ).request matches Request::WriteKeyFile { file, data } ==> {
            &&& file == key_file(seed@)
            &&& seed_found(wallet, settings, seed, password, facts, data).request == (Request::<
                Model,
            >::InspectKey { key })
        },
{
    the_seed_has_a_name();
    let before = AfterOpen::Seed { file: "seed.cose.key"@ };
    let tried = kek_tried(wallet, settings, before, password);
    assert(next(
        settings,
        started(settings, Some(Commands::NewSeed {  })).state,
        Reply::Found { exists: false, path },
    ) == opening(settings, before));
    let written = new_seed_written(
        wallet,
        settings,
        path,
        password,
        facts,
        fresh,
        public_key,
        key,
    );
    if written.request is WriteKeyFile {
        assert(tried.request is InspectKey && facts.secret is Ok) by {
            reveal_with_fuel(carried, 6);
        }
        let secret = facts.secret->Ok_0;
        let kek = KekEncryptor::<Model> { encryptor: Encrypt0 { key: secret, kid: facts.kid } };
        let cid = Some(KeyId::Bytes(public_key));
        let note = Note {
            front: "New seed key: "@,
            back: ", key id: \""@ + hex_text(public_key) + "\""@,
        };
        a_key_saved_in_one_run_is_read_in_another(
            wallet,
            settings,
            settings,
            password,
            facts,
            secret,
            before,
            key_file(seed@),
            key,
            cid,
            note,
            AfterRead::Export,
        );
        let made = next(settings, tried.state, Reply::Facts(facts));
        assert(made == opened(kek, before));
        let named = next(settings, made.state, Reply::KeyPair { key: fresh, public_key });
        assert(next(settings, named.state, Reply::Bytes(key)) == saving(
            kek,
            "seed.cose.key"@,
            key,
            cid,
            note,
        ));
    }
}

/// The last step of exporting a seed, from the key, its identifier, the password and the encoding
/// in which the key is handed over.
pub open spec fn export_shown(
    wallet: Wallet,
    settings: Settings<Model>,
    key: Seq<u8>,
    kid: Option<KeyId<Model>>,
    password: Seq<char>,
    data: Seq<u8>,
) -> Step<Model> {
    let hashed = then_carried(wallet, settings, export_begun(key, kid), Reply::Text(password));
    then_carried(wallet, settings, hashed, Reply::Bytes(data))
}

/// The step that an import reaches with the text that was pasted and the password.
pub open spec fn import_tried(
    wallet: Wallet,
    settings: Settings<Model>,
    file: Seq<char>,
    pasted: Seq<char>,
    password: Seq<char>,
) -> Step<Model> {
    let asked = next(settings, State::Import(ImportStage::Sealed { file }), Reply::Text(pasted));
    then_carried(wallet, settings, asked, Reply::Text(password))
}

/// A seed encrypted with a password for its identifier, as it is exported.
pub open spec fn export_sealed(
    wallet: Wallet,
    kid: Option<KeyId<Model>>,
    password: Seq<char>,
    data: Seq<u8>,
) -> Seq<u8> {
    (wallet.encrypt)(
        Encrypt0 { key: (wallet.hash)(encode_utf8(password)), kid: None },
        data,
        transfer_aad(),
        kid,
    )
}

/// An exported seed imports with the password that it was exported with: the text that is shown,
/// with or without white space around it, gives back the encoding in which the key was handed
/// over. An export carries no tag, so the wallet must leave it as it is where it skips one.
pub proof fn an_exported_seed_imports(
    wallet: Wallet,
    settings: Settings<Model>,
    key: Seq<u8>,
    kid: Option<KeyId<Model>>,
    password: Seq<char>,
    data: Seq<u8>,
    file: Seq<char>,
    pasted: Seq<char>,
)
    requires
        faithful(wallet),
        (wallet.untag)(export_sealed(wallet, kid, password, data)) == export_sealed(
            wallet,
            kid,
            password,
            data,
        ),
        trimmed(pasted) == (wallet.encode)(export_sealed(wallet, kid, password, data)),
    ensures
        export_shown(wallet, settings, key, kid, password, data) == closing(
            "The exported seed key (base64url encoded):\n\n"@ + (wallet.encode)(
                export_sealed(wallet, kid, password, data),
            ) + "\n\n"@,
        ),
        import_tried(wallet, settings, file, pasted, password) == (Step::<Model> {
            state: State::Import(ImportStage::Key { file }),
            request: Request::ReadSeedKey { data },
        }),
{
    reveal_with_fuel(carried, 6);
    let encryptor = Encrypt0::<Model> { key: (wallet.hash)(encode_utf8(password)), kid: None };
    let sealed = export_sealed(wallet, kid, password, data);
    assert((wallet.decode)((wallet.encode)(sealed)) == Ok::<Seq<u8>, Seq<Seq<char>>>(sealed));
    assert((wallet.decrypt)(encryptor, sealed, transfer_aad()) == Ok::<Seq<u8>, Seq<Seq<char>>>(
        data,
    ));
}

/// A signature that was made is the one that is verified: what signing with a secp256k1 key shows
/// is read back to the same signature, and checked with the public half of the same secret.
pub proof fn a_signature_is_verified(
    wallet: Wallet,
    settings: Settings<Model>,
    key: Seq<u8>,
    facts: KeyFacts<Model>,
    secret: Seq<u8>,
    message: Seq<char>,
    hex: bool,
    made: Seq<u8>,
    shown: Seq<char>,
)
    requires
        facts.secp256k1,
        facts.secret == Ok::<Seq<u8>, Seq<Seq<char>>>(secret),
        valid_secret_key(secret),
        !hex ==> (wallet.decode_base64)((wallet.encode)(made)) == Ok::<Seq<u8>, Seq<Seq<char>>>(made),
        shown == if hex {
            hex_text(made)
        } else {
            (wallet.encode)(made)
        },
    ensures
        ({
            let asked = then_carried(
                wallet,
                settings,
                sign_begun(key, facts, message, hex),
                Reply::Done,
            );
            let checked = carried(
                wallet,
                settings,
                verify_begun(key, facts, message, shown, hex),
                enough(),
            );
            &&& asked.request == (Request::<Model>::SignSecp256k1 { secret, message })
            &&& then_carried(wallet, settings, asked, Reply::Bytes(made)) == closing(
                "signature:\n"@ + shown,
            )
            &&& checked == (Step::<Model> {
                state: State::Verify(VerifyStage::Check),
                request: Request::VerifySecp256k1 {
                    public_key: secp256k1_public_key(secret),
                    message,
                    signature: made,
                },
            })
            &&& next(settings, checked.state, Reply::Done) == closing("signature is valid"@)
        }),
{
    reveal_with_fuel(carried, 6);
    hex_reads_back(made);
}

/// A signed message that was made is the one that is verified: what signing with an Ed25519 key
/// shows is read back to the same signed message, and checked with the same key for the same
/// purpose.
pub proof fn a_signed_message_is_verified(
    wallet: Wallet,
    settings: Settings<Model>,
    key: Seq<u8>,
    facts: KeyFacts<Model>,
    message: Seq<char>,
    signature: Seq<char>,
    hex: bool,
    made: Seq<u8>,
    shown: Seq<char>,
)
    requires
        !facts.secp256k1,
        facts.ed25519,
        !hex ==> (wallet.decode_base64)((wallet.encode)(made)) == Ok::<Seq<u8>, Seq<Seq<char>>>(made),
        shown == if hex {
            hex_text(made)
        } else {
            (wallet.encode)(made)
        },
    ensures
        ({
            let asked = then_carried(
                wallet,
                settings,
                sign_begun(key, facts, message, hex),
                Reply::Done,
            );
            let checked = carried(
                wallet,
                settings,
                verify_begun(key, facts, shown, signature, hex),
                enough(),
            );
            &&& asked.request == (Request::<Model>::SignEd25519 {
                key,
                payload: encode_utf8(message),
                aad: message_aad(),
            })
            &&& then_carried(wallet, settings, asked, Reply::Bytes(made)) == closing(
                "signed message:\n"@ + shown,
            )
            &&& checked == (Step::<Model> {
                state: State::Verify(VerifyStage::Check),
                request: Request::VerifyEd25519 { key, signed: made, aad: message_aad() },
            })
            &&& next(settings, checked.state, Reply::Done) == closing("signature is valid"@)
        }),
{
    reveal_with_fuel(carried, 6);
    hex_reads_back(made);
}

} // verus!
