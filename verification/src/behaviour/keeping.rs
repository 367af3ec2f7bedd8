//! The key encryption key, and the keys that are made, imported and exported under it.

use vstd::prelude::*;
use vstd::utf8::encode_utf8;

use crate::behaviour::steps::{does, goes, goes_on, goes_on_thrice, goes_on_twice, over, run_does};
use crate::cli::Commands;
use crate::cose::key_encoding;
use crate::form::{Encrypt0, KeyFacts, KeyId, Model};
use crate::hexadecimal::hex_text;
use crate::keystore::{opened, opening, reading, saving};
use crate::run::Run;
use crate::session::{obtained, started};
use crate::state::{
    AfterOpen, AfterRead, ImportStage, KekEncryptor, Note, Settings, State, Step,
};
use crate::text::trimmed;
use crate::wire::{Outcome, Reply, Request};

verus! {

/// What is answered while the key encryption key is opened.
pub struct Opening {
    /// The password.
    pub password: Seq<char>,
    /// Its hash.
    pub mkek: Seq<u8>,
    /// What the text of the settings decodes to.
    pub sealed: Seq<u8>,
    /// The same without a tag.
    pub data: Seq<u8>,
    /// What it decrypts to.
    pub plain: Seq<u8>,
    /// The key in that.
    pub key: Seq<u8>,
    /// What the key says of itself.
    pub facts: KeyFacts<Model>,
    /// Its secret.
    pub secret: Seq<u8>,
}

/// Whether the settings hold a key encryption key and the answers open it.
pub open spec fn opens(settings: Settings<Model>, o: Opening) -> bool {
    &&& settings.kek.len() > 0
    &&& key_encoding(o.plain) == Ok::<Seq<u8>, Seq<char>>(o.key)
    &&& o.facts.secret == Ok::<Seq<u8>, Seq<Seq<char>>>(o.secret)
}

/// The answers of an opening.
pub open spec fn opening_replies(o: Opening) -> Seq<Reply<Model>> {
    seq![
        Reply::Text(o.password),
        Reply::Bytes(o.mkek),
        Reply::Bytes(o.sealed),
        Reply::Bytes(o.data),
        Reply::Bytes(o.plain),
        Reply::Facts(o.facts),
    ]
}

/// What is asked for while the key encryption key is opened: the password, its hash, and the key
/// that the text of the settings holds.
pub open spec fn opening_requests(settings: Settings<Model>, o: Opening) -> Seq<Request<Model>> {
    seq![
        Request::PromptSecret { text: "Enter the password protected KEK: "@ },
        Request::Hash256 { data: encode_utf8(o.password) },
        Request::DecodeBase64Url { text: trimmed(settings.kek) },
        Request::SkipTag { data: o.sealed },
        Request::Decrypt {
            encryptor: Encrypt0 { key: o.mkek, kid: None },
            ciphertext: o.data,
            aad: encode_utf8("ns-inscriber"@),
        },
        Request::InspectKey { key: o.key },
    ]
}

/// The encryptor that an opening gives: it works with the secret and the identifier of the key.
pub open spec fn encryptor_of(o: Opening) -> Encrypt0<Model> {
    Encrypt0 { key: o.secret, kid: o.facts.kid }
}

/// What is answered while a key is read.
pub struct Reading {
    /// What its file holds.
    pub tagged: Seq<u8>,
    /// The same without a tag.
    pub data: Seq<u8>,
    /// What it decrypts to.
    pub plain: Seq<u8>,
    /// The key in that.
    pub key: Seq<u8>,
    /// What the key says of itself.
    pub facts: KeyFacts<Model>,
}

/// Whether the answers give a key.
pub open spec fn reads(r: Reading) -> bool {
    key_encoding(r.plain) == Ok::<Seq<u8>, Seq<char>>(r.key)
}

/// The answers of a reading.
pub open spec fn reading_replies(r: Reading) -> Seq<Reply<Model>> {
    seq![
        Reply::Bytes(r.tagged),
        Reply::Bytes(r.data),
        Reply::Bytes(r.plain),
        Reply::Facts(r.facts),
    ]
}

/// What is asked for while the key with a name is read: its file, without the tag and decrypted.
pub open spec fn reading_requests(
    encryptor: Encrypt0<Model>,
    name: Seq<char>,
    r: Reading,
) -> Seq<Request<Model>> {
    seq![
        Request::ReadKeyFile { file: name + ".cose.key"@ },
        Request::SkipTag { data: r.tagged },
        Request::Decrypt { encryptor, ciphertext: r.data, aad: encode_utf8("ns-inscriber"@) },
        Request::InspectKey { key: r.key },
    ]
}

/// What is answered while a key is saved.
pub struct Saving {
    /// The encrypted key.
    pub sealed: Seq<u8>,
    /// The same with a tag.
    pub tagged: Seq<u8>,
    /// The path of the file.
    pub path: Seq<char>,
}

/// The answers of a saving, and of the line that tells of it.
pub open spec fn saving_replies(s: Saving) -> Seq<Reply<Model>> {
    seq![
        Reply::Bytes(s.sealed),
        Reply::Bytes(s.tagged),
        Reply::Text(s.path),
        Reply::Done,
    ]
}

/// What is asked for while a key is saved: it is encrypted, tagged and written, and a line tells of
/// it.
pub open spec fn saving_requests(
    encryptor: Encrypt0<Model>,
    file: Seq<char>,
    key: Seq<u8>,
    cid: Option<KeyId<Model>>,
    front: Seq<char>,
    back: Seq<char>,
    s: Saving,
) -> Seq<Request<Model>> {
    seq![
        Request::Encrypt { encryptor, plaintext: key, aad: encode_utf8("ns-inscriber"@), cid },
        Request::AddTag { data: s.sealed },
        Request::WriteKeyFile { file, data: s.tagged },
        Request::Print { text: front + s.path + back },
    ]
}

/// The key encryption key is opened.
pub proof fn an_opening_goes(settings: Settings<Model>, o: Opening, after: AfterOpen<Model>)
    requires
        opens(settings, o),
    ensures
        goes(
            settings,
            opening(settings, after),
            opening_replies(o),
            opening_requests(settings, o),
            opened(KekEncryptor { encryptor: encryptor_of(o) }, after),
        ),
{
    reveal_with_fuel(goes, 7);
}

/// A key is read.
pub proof fn a_reading_goes(
    settings: Settings<Model>,
    encryptor: Encrypt0<Model>,
    name: Seq<char>,
    r: Reading,
    after: AfterRead<Model>,
)
    requires
        reads(r),
    ensures
        goes(
            settings,
            reading(KekEncryptor { encryptor }, name + ".cose.key"@, after),
            reading_replies(r),
            reading_requests(encryptor, name, r),
            obtained(settings, KekEncryptor { encryptor }, r.key, r.facts, after),
        ),
{
    reveal_with_fuel(goes, 5);
}

/// A key is saved.
pub proof fn a_saving_goes(
    settings: Settings<Model>,
    encryptor: Encrypt0<Model>,
    file: Seq<char>,
    key: Seq<u8>,
    cid: Option<KeyId<Model>>,
    front: Seq<char>,
    back: Seq<char>,
    s: Saving,
)
    ensures
        goes(
            settings,
            saving(KekEncryptor { encryptor }, file, key, cid, Note { front, back }),
            saving_replies(s),
            saving_requests(encryptor, file, key, cid, front, back, s),
            over(Outcome::Success),
        ),
{
    reveal_with_fuel(goes, 5);
}

/// The key encryption key is opened and a key is read.
pub proof fn a_key_is_obtained(
    settings: Settings<Model>,
    o: Opening,
    name: Seq<char>,
    r: Reading,
    after: AfterRead<Model>,
)
    requires
        opens(settings, o),
        reads(r),
    ensures
        goes(
            settings,
            opening(settings, AfterOpen::Read { file: name + ".cose.key"@, after }),
            opening_replies(o) + reading_replies(r),
            opening_requests(settings, o) + reading_requests(encryptor_of(o), name, r),
            obtained(settings, KekEncryptor { encryptor: encryptor_of(o) }, r.key, r.facts, after),
        ),
{
    let wanted = AfterOpen::Read { file: name + ".cose.key"@, after };
    let kek = KekEncryptor::<Model> { encryptor: encryptor_of(o) };
    an_opening_goes(settings, o, wanted);
    a_reading_goes(settings, encryptor_of(o), name, r, after);
    goes_on(
        settings,
        opening(settings, wanted),
        opening_replies(o),
        opening_requests(settings, o),
        opened(kek, wanted),
        reading_replies(r),
        reading_requests(encryptor_of(o), name, r),
        obtained(settings, kek, r.key, r.facts, after),
    );
}

/// A run that opens the key encryption key and reads a key, and then goes on to its end.
pub proof fn a_keyed_run_does(
    run: Run,
    o: Opening,
    name: Seq<char>,
    r: Reading,
    after: AfterRead<Model>,
    replies: Seq<Reply<Model>>,
    requests: Seq<Request<Model>>,
    outcome: Outcome<Model>,
)
    requires
        started(run.settings, run.command) == opening(
            run.settings,
            AfterOpen::Read { file: name + ".cose.key"@, after },
        ),
        opens(run.settings, o),
        reads(r),
        run.replies == opening_replies(o) + reading_replies(r) + replies,
        goes(
            run.settings,
            obtained(
                run.settings,
                KekEncryptor { encryptor: encryptor_of(o) },
                r.key,
                r.facts,
                after,
            ),
            replies,
            requests,
            over(outcome),
        ),
    ensures
        does(
            run,
            opening_requests(run.settings, o) + reading_requests(encryptor_of(o), name, r)
                + requests,
            outcome,
        ),
{
    let kek = KekEncryptor::<Model> { encryptor: encryptor_of(o) };
    let front = opening_requests(run.settings, o) + reading_requests(encryptor_of(o), name, r);
    a_key_is_obtained(run.settings, o, name, r, after);
    goes_on(
        run.settings,
        started(run.settings, run.command),
        opening_replies(o) + reading_replies(r),
        front,
        obtained(run.settings, kek, r.key, r.facts, after),
        replies,
        requests,
        over(outcome),
    );
    run_does(run, front + requests, outcome);
}

/// A run that does something, opens the key encryption key and reads a key, and then goes on to its
/// end.
pub proof fn a_run_with_a_key_does(
    run: Run,
    first_replies: Seq<Reply<Model>>,
    first_requests: Seq<Request<Model>>,
    o: Opening,
    name: Seq<char>,
    r: Reading,
    after: AfterRead<Model>,
    replies: Seq<Reply<Model>>,
    requests: Seq<Request<Model>>,
    outcome: Outcome<Model>,
)
    requires
        goes(
            run.settings,
            started(run.settings, run.command),
            first_replies,
            first_requests,
            opening(run.settings, AfterOpen::Read { file: name + ".cose.key"@, after }),
        ),
        opens(run.settings, o),
        reads(r),
        run.replies == first_replies + (opening_replies(o) + reading_replies(r)) + replies,
        goes(
            run.settings,
            obtained(
                run.settings,
                KekEncryptor { encryptor: encryptor_of(o) },
                r.key,
                r.facts,
                after,
            ),
            replies,
            requests,
            over(outcome),
        ),
    ensures
        does(
            run,
            first_requests + (opening_requests(run.settings, o) + reading_requests(
                encryptor_of(o),
                name,
                r,
            )) + requests,
            outcome,
        ),
{
    let kek = KekEncryptor::<Model> { encryptor: encryptor_of(o) };
    let key_requests = opening_requests(run.settings, o) + reading_requests(
        encryptor_of(o),
        name,
        r,
    );
    a_key_is_obtained(run.settings, o, name, r, after);
    goes_on_twice(
        run.settings,
        started(run.settings, run.command),
        first_replies,
        first_requests,
        opening(run.settings, AfterOpen::Read { file: name + ".cose.key"@, after }),
        opening_replies(o) + reading_replies(r),
        key_requests,
        obtained(run.settings, kek, r.key, r.facts, after),
        replies,
        requests,
        over(outcome),
    );
    run_does(run, first_requests + key_requests + requests, outcome);
}

/// What is asked for once a fresh key encryption key has its name: it is made, encrypted with the
/// hash of the password, tagged, encoded and shown.
pub open spec fn kek_requests(
    mkek: Seq<u8>,
    kid: Seq<char>,
    key: Seq<u8>,
    sealed: Seq<u8>,
    tagged: Seq<u8>,
    text: Seq<char>,
) -> Seq<Request<Model>> {
    seq![
        Request::NewSymmetricKey { kid: KeyId::Text(kid) },
        Request::Encrypt {
            encryptor: Encrypt0 { key: mkek, kid: None },
            plaintext: key,
            aad: encode_utf8("ns-inscriber"@),
            cid: Some(KeyId::Text(kid)),
        },
        Request::AddTag { data: sealed },
        Request::EncodeBase64Url { data: tagged },
        Request::Print { text: "Put this new KEK as INSCRIBER_KEK on config file:\n"@ + text },
    ]
}

/// A new key encryption key with an alias is named by it.
pub proof fn a_kek_is_made_for_an_alias(
    run: Run,
    alias: String,
    password: Seq<char>,
    mkek: Seq<u8>,
    key: Seq<u8>,
    sealed: Seq<u8>,
    tagged: Seq<u8>,
    text: Seq<char>,
)
    requires
        run.command == Some(Commands::NewKEK { alias }),
        alias@.len() > 0,
        run.replies == seq![
            Reply::<Model>::Text(password),
            Reply::Bytes(mkek),
            Reply::Bytes(key),
            Reply::Bytes(sealed),
            Reply::Bytes(tagged),
            Reply::Text(text),
            Reply::Done,
        ],
    ensures
        does(
            run,
            seq![
                Request::<Model>::PromptSecret { text: "Enter a password to protect KEK: "@ },
                Request::Hash256 { data: encode_utf8(password) },
            ] + kek_requests(mkek, alias@, key, sealed, tagged, text),
            Outcome::Success,
        ),
{
    let all = seq![
        Request::<Model>::PromptSecret { text: "Enter a password to protect KEK: "@ },
        Request::Hash256 { data: encode_utf8(password) },
    ] + kek_requests(mkek, alias@, key, sealed, tagged, text);
    assert(goes(
        run.settings,
        started(run.settings, run.command),
        run.replies,
        all,
        over(Outcome::Success),
    )) by {
        reveal_with_fuel(goes, 9);
    }
    run_does(run, all, Outcome::Success);
}

/// A new key encryption key without an alias is named by the time.
pub proof fn a_kek_is_made_without_an_alias(
    run: Run,
    alias: String,
    password: Seq<char>,
    mkek: Seq<u8>,
    now: Seq<char>,
    key: Seq<u8>,
    sealed: Seq<u8>,
    tagged: Seq<u8>,
    text: Seq<char>,
)
    requires
        run.command == Some(Commands::NewKEK { alias }),
        alias@.len() == 0,
        run.replies == seq![
            Reply::<Model>::Text(password),
            Reply::Bytes(mkek),
            Reply::Text(now),
            Reply::Bytes(key),
            Reply::Bytes(sealed),
            Reply::Bytes(tagged),
            Reply::Text(text),
            Reply::Done,
        ],
    ensures
        does(
            run,
            seq![
                Request::<Model>::PromptSecret { text: "Enter a password to protect KEK: "@ },
                Request::Hash256 { data: encode_utf8(password) },
                Request::Clock,
            ] + kek_requests(mkek, now, key, sealed, tagged, text),
            Outcome::Success,
        ),
{
    let all = seq![
        Request::<Model>::PromptSecret { text: "Enter a password to protect KEK: "@ },
        Request::Hash256 { data: encode_utf8(password) },
        Request::Clock,
    ] + kek_requests(mkek, now, key, sealed, tagged, text);
    assert(goes(
        run.settings,
        started(run.settings, run.command),
        run.replies,
        all,
        over(Outcome::Success),
    )) by {
        reveal_with_fuel(goes, 9);
    }
    run_does(run, all, Outcome::Success);
}

/// A seed that exists is left as it is: its path is told, and nothing else is asked for.
pub proof fn an_existing_seed_is_left(run: Run, path: Seq<char>)
    requires
        run.command == Some(Commands::NewSeed {  }),
        run.replies == seq![Reply::<Model>::Found { exists: true, path }, Reply::Done],
    ensures
        does(
            run,
            seq![
                Request::<Model>::FindKeyFile { file: "seed.cose.key"@ },
                Request::Print { text: path + " exists, skipping key generation"@ },
            ],
            Outcome::Success,
        ),
{
    let front = seq![
        Request::<Model>::FindKeyFile { file: "seed.cose.key"@ },
        Request::Print { text: path + " exists, skipping key generation"@ },
    ];
    assert(goes(
        run.settings,
        started(run.settings, run.command),
        run.replies,
        front,
        over(Outcome::Success),
    )) by {
        reveal_with_fuel(goes, 3);
    }
    run_does(run, front, Outcome::Success);
}

/// A new seed is made where there is none, gets its public key as its identifier, and is saved.
pub proof fn a_seed_is_made(
    run: Run,
    path: Seq<char>,
    o: Opening,
    fresh: Seq<u8>,
    public_key: Seq<u8>,
    key: Seq<u8>,
    s: Saving,
)
    requires
        run.command == Some(Commands::NewSeed {  }),
        opens(run.settings, o),
        run.replies == seq![Reply::<Model>::Found { exists: false, path }] + opening_replies(o)
            + seq![Reply::<Model>::KeyPair { key: fresh, public_key }, Reply::Bytes(key)]
            + saving_replies(s),
    ensures
        does(
            run,
            seq![Request::<Model>::FindKeyFile { file: "seed.cose.key"@ }] + opening_requests(
                run.settings,
                o,
            ) + seq![
                Request::<Model>::NewSeedKey,
                Request::SetKeyId { key: fresh, kid: KeyId::Bytes(public_key) },
            ] + saving_requests(
                encryptor_of(o),
                "seed.cose.key"@,
                key,
                Some(KeyId::Bytes(public_key)),
                "New seed key: "@,
                ", key id: \""@ + hex_text(public_key) + "\""@,
                s,
            ),
            Outcome::Success,
        ),
{
    let settings = run.settings;
    let file = "seed.cose.key"@;
    let after = AfterOpen::<Model>::Seed { file };
    let kek = KekEncryptor::<Model> { encryptor: encryptor_of(o) };
    let cid = Some(KeyId::Bytes(public_key));
    let front = "New seed key: "@;
    let back = ", key id: \""@ + hex_text(public_key) + "\""@;
    let r1 = seq![Reply::<Model>::Found { exists: false, path }];
    let q1 = seq![Request::<Model>::FindKeyFile { file }];
    let r3 = seq![Reply::<Model>::KeyPair { key: fresh, public_key }, Reply::Bytes(key)];
    let q3 = seq![
        Request::<Model>::NewSeedKey,
        Request::SetKeyId { key: fresh, kid: KeyId::Bytes(public_key) },
    ];
    let begun = started(settings, run.command);
    let saved = saving(kek, file, key, cid, Note { front, back });
    assert(goes(settings, begun, r1, q1, opening(settings, after))) by {
        reveal_with_fuel(goes, 2);
    }
    an_opening_goes(settings, o, after);
    assert(goes(settings, opened(kek, after), r3, q3, saved)) by {
        reveal_with_fuel(goes, 3);
    }
    a_saving_goes(settings, encryptor_of(o), file, key, cid, front, back, s);
    let q2 = opening_requests(settings, o);
    let q4 = saving_requests(encryptor_of(o), file, key, cid, front, back, s);
    goes_on_thrice(
        settings,
        begun,
        r1,
        q1,
        opening(settings, after),
        opening_replies(o),
        q2,
        opened(kek, after),
        r3,
        q3,
        saved,
        saving_replies(s),
        q4,
        over(Outcome::Success),
    );
    run_does(run, q1 + q2 + q3 + q4, Outcome::Success);
}

/// An import whose file exists leaves it as it is: its path is told, and nothing else is asked for.
pub proof fn an_existing_import_is_left(run: Run, alias: String, path: Seq<char>)
    requires
        run.command == Some(Commands::ImportSeed { alias }),
        alias@.len() > 0,
        run.replies == seq![Reply::<Model>::Found { exists: true, path }, Reply::Done],
    ensures
        does(
            run,
            seq![
                Request::<Model>::FindKeyFile { file: alias@ + ".cose.key"@ },
                Request::Print { text: path + " exists, skipping key generation"@ },
            ],
            Outcome::Success,
        ),
{
    let front = seq![
        Request::<Model>::FindKeyFile { file: alias@ + ".cose.key"@ },
        Request::Print { text: path + " exists, skipping key generation"@ },
    ];
    assert(goes(
        run.settings,
        started(run.settings, run.command),
        run.replies,
        front,
        over(Outcome::Success),
    )) by {
        reveal_with_fuel(goes, 3);
    }
    run_does(run, front, Outcome::Success);
}

/// An import without an alias is named by the time; where that file exists, it is left as it is.
pub proof fn an_existing_import_of_this_second_is_left(
    run: Run,
    alias: String,
    now: Seq<char>,
    path: Seq<char>,
)
    requires
        run.command == Some(Commands::ImportSeed { alias }),
        alias@.len() == 0,
        run.replies == seq![
            Reply::<Model>::Text(now),
            Reply::Found { exists: true, path },
            Reply::Done,
        ],
    ensures
        does(
            run,
            seq![
                Request::<Model>::Clock,
                Request::FindKeyFile { file: now + ".seed"@ + ".cose.key"@ },
                Request::Print { text: path + " exists, skipping key generation"@ },
            ],
            Outcome::Success,
        ),
{
    let front = seq![
        Request::<Model>::Clock,
        Request::FindKeyFile { file: now + ".seed"@ + ".cose.key"@ },
        Request::Print { text: path + " exists, skipping key generation"@ },
    ];
    assert(goes(
        run.settings,
        started(run.settings, run.command),
        run.replies,
        front,
        over(Outcome::Success),
    )) by {
        reveal_with_fuel(goes, 4);
    }
    run_does(run, front, Outcome::Success);
}

/// What is answered while a seed is imported: from the text that the user pastes to the key in it.
pub struct Importing {
    /// The path of the file that is missing.
    pub path: Seq<char>,
    /// What the user pastes.
    pub pasted: Seq<char>,
    /// The password.
    pub password: Seq<char>,
    /// Its hash.
    pub wrap: Seq<u8>,
    /// What the text decodes to.
    pub tagged: Seq<u8>,
    /// The same without a tag.
    pub data: Seq<u8>,
    /// What it decrypts to.
    pub plain: Seq<u8>,
    /// The seed key in that.
    pub key: Seq<u8>,
    /// What the seed key says of itself.
    pub facts: KeyFacts<Model>,
}

/// The answers of an import up to the seed key.
pub open spec fn importing_replies(i: Importing) -> Seq<Reply<Model>> {
    seq![
        Reply::Found { exists: false, path: i.path },
        Reply::Text(i.pasted),
        Reply::Text(i.password),
        Reply::Bytes(i.wrap),
        Reply::Bytes(i.tagged),
        Reply::Bytes(i.data),
        Reply::Bytes(i.plain),
        Reply::Bytes(i.key),
    ]
}

/// What is asked for while a seed is imported, up to the seed key.
pub open spec fn importing_requests(file: Seq<char>, i: Importing) -> Seq<Request<Model>> {
    seq![
        Request::FindKeyFile { file },
        Request::Prompt { text: "Enter the seed key (base64url encoded) to import: "@ },
        Request::PromptSecret { text: "Enter the password that protected the seed: "@ },
        Request::Hash256 { data: encode_utf8(i.password) },
        Request::DecodeBase64Url { text: trimmed(i.pasted) },
        Request::SkipTag { data: i.tagged },
        Request::Decrypt {
            encryptor: Encrypt0 { key: i.wrap, kid: None },
            ciphertext: i.data,
            aad: encode_utf8("NS:COSE/Transfer.Key"@),
        },
        Request::ReadSeedKey { data: i.plain },
    ]
}

/// A seed key is saved under the key encryption key and its own identifier.
proof fn an_import_goes(
    settings: Settings<Model>,
    from: Step<Model>,
    file: Seq<char>,
    i: Importing,
    o: Opening,
    s: Saving,
)
    requires
        opens(settings, o),
        from == import_found(file),
    ensures
        goes(
            settings,
            from,
            importing_replies(i) + opening_replies(o) + seq![Reply::<Model>::Facts(i.facts)]
                + saving_replies(s),
            importing_requests(file, i) + opening_requests(settings, o) + seq![
                Request::<Model>::InspectKey { key: i.key },
            ] + saving_requests(
                encryptor_of(o),
                file,
                i.key,
                i.facts.kid,
                "Imported seed key: "@,
                ", key id: "@ + i.facts.kid_debug,
                s,
            ),
            over(Outcome::Success),
        ),
{
    let after = AfterOpen::<Model>::Import { file, key: i.key };
    let kek = KekEncryptor::<Model> { encryptor: encryptor_of(o) };
    let front = "Imported seed key: "@;
    let back = ", key id: "@ + i.facts.kid_debug;
    let saved = saving(kek, file, i.key, i.facts.kid, Note { front, back });
    let r3 = seq![Reply::<Model>::Facts(i.facts)];
    let q3 = seq![Request::<Model>::InspectKey { key: i.key }];
    assert(goes(
        settings,
        from,
        importing_replies(i),
        importing_requests(file, i),
        opening(settings, after),
    )) by {
        reveal_with_fuel(goes, 9);
    }
    an_opening_goes(settings, o, after);
    assert(goes(settings, opened(kek, after), r3, q3, saved)) by {
        reveal_with_fuel(goes, 2);
    }
    a_saving_goes(settings, encryptor_of(o), file, i.key, i.facts.kid, front, back, s);
    goes_on_thrice(
        settings,
        from,
        importing_replies(i),
        importing_requests(file, i),
        opening(settings, after),
        opening_replies(o),
        opening_requests(settings, o),
        opened(kek, after),
        r3,
        q3,
        saved,
        saving_replies(s),
        saving_requests(encryptor_of(o), file, i.key, i.facts.kid, front, back, s),
        over(Outcome::Success),
    );
}

/// The step at which an import looks for its file.
spec fn import_found(file: Seq<char>) -> Step<Model> {
    Step {
        state: State::Import(ImportStage::Find { file }),
        request: Request::FindKeyFile { file },
    }
}

/// A seed with an alias is imported: what the user pastes is decoded and decrypted with the
/// password for the transfer of keys, and the key in it is saved in the file of the alias.
pub proof fn a_seed_is_imported_for_an_alias(
    run: Run,
    alias: String,
    i: Importing,
    o: Opening,
    s: Saving,
)
    requires
        run.command == Some(Commands::ImportSeed { alias }),
        alias@.len() > 0,
        opens(run.settings, o),
        run.replies == importing_replies(i) + opening_replies(o) + seq![
            Reply::<Model>::Facts(i.facts),
        ] + saving_replies(s),
    ensures
        does(
            run,
            importing_requests(alias@ + ".cose.key"@, i) + opening_requests(run.settings, o)
                + seq![Request::<Model>::InspectKey { key: i.key }] + saving_requests(
                encryptor_of(o),
                alias@ + ".cose.key"@,
                i.key,
                i.facts.kid,
                "Imported seed key: "@,
                ", key id: "@ + i.facts.kid_debug,
                s,
            ),
            Outcome::Success,
        ),
{
    let file = alias@ + ".cose.key"@;
    an_import_goes(run.settings, started(run.settings, run.command), file, i, o, s);
    run_does(
        run,
        importing_requests(file, i) + opening_requests(run.settings, o) + seq![
            Request::<Model>::InspectKey { key: i.key },
        ] + saving_requests(
            encryptor_of(o),
            file,
            i.key,
            i.facts.kid,
            "Imported seed key: "@,
            ", key id: "@ + i.facts.kid_debug,
            s,
        ),
        Outcome::Success
    );
}

/// A seed without an alias is imported in the same way, in a file that is named by the time.
pub proof fn a_seed_is_imported_without_an_alias(
    run: Run,
    alias: String,
    now: Seq<char>,
    i: Importing,
    o: Opening,
    s: Saving,
)
    requires
        run.command == Some(Commands::ImportSeed { alias }),
        alias@.len() == 0,
        opens(run.settings, o),
        run.replies == seq![Reply::<Model>::Text(now)] + (importing_replies(i) + opening_replies(o)
            + seq![Reply::<Model>::Facts(i.facts)] + saving_replies(s)),
    ensures
        does(
            run,
            seq![Request::<Model>::Clock] + (importing_requests(
                now + ".seed"@ + ".cose.key"@,
                i,
            ) + opening_requests(run.settings, o) + seq![
                Request::<Model>::InspectKey { key: i.key },
            ] + saving_requests(
                encryptor_of(o),
                now + ".seed"@ + ".cose.key"@,
                i.key,
                i.facts.kid,
                "Imported seed key: "@,
                ", key id: "@ + i.facts.kid_debug,
                s,
            )),
            Outcome::Success,
        ),
{
    let file = now + ".seed"@ + ".cose.key"@;
    let begun = started(run.settings, run.command);
    let clock = seq![Request::<Model>::Clock];
    let time = seq![Reply::<Model>::Text(now)];
    let replies = importing_replies(i) + opening_replies(o) + seq![Reply::<Model>::Facts(i.facts)]
        + saving_replies(s);
    let requests = importing_requests(file, i) + opening_requests(run.settings, o) + seq![
        Request::<Model>::InspectKey { key: i.key },
    ] + saving_requests(
        encryptor_of(o),
        file,
        i.key,
        i.facts.kid,
        "Imported seed key: "@,
        ", key id: "@ + i.facts.kid_debug,
        s,
    );
    assert(goes(run.settings, begun, time, clock, import_found(file))) by {
        reveal_with_fuel(goes, 2);
    }
    an_import_goes(run.settings, import_found(file), file, i, o, s);
    goes_on(
        run.settings,
        begun,
        time,
        clock,
        import_found(file),
        replies,
        requests,
        over(Outcome::Success),
    );
    run_does(run, clock + requests, Outcome::Success);
}

/// A seed is exported: the key with its name is read, encrypted with a password for the transfer of
/// keys and its own identifier, encoded and shown.
pub proof fn a_seed_is_exported(
    run: Run,
    seed: String,
    o: Opening,
    r: Reading,
    password: Seq<char>,
    wrap: Seq<u8>,
    data: Seq<u8>,
    sealed: Seq<u8>,
    text: Seq<char>,
)
    requires
        run.command == Some(Commands::ExportSeed { seed }),
        opens(run.settings, o),
        reads(r),
        run.replies == opening_replies(o) + reading_replies(r) + seq![
            Reply::<Model>::Text(password),
            Reply::Bytes(wrap),
            Reply::Bytes(data),
            Reply::Bytes(sealed),
            Reply::Text(text),
            Reply::Done,
        ],
    ensures
        does(
            run,
            opening_requests(run.settings, o) + reading_requests(encryptor_of(o), seed@, r)
                + seq![
                Request::<Model>::PromptSecret { text: "Enter a password to protect the seed: "@ },
                Request::Hash256 { data: encode_utf8(password) },
                Request::EncodeSeedKey { key: r.key },
                Request::Encrypt {
                    encryptor: Encrypt0 { key: wrap, kid: None },
                    plaintext: data,
                    aad: encode_utf8("NS:COSE/Transfer.Key"@),
                    cid: r.facts.kid,
                },
                Request::EncodeBase64Url { data: sealed },
                Request::Print {
                    text: "The exported seed key (base64url encoded):\n\n"@ + text + "\n\n"@,
                },
            ],
            Outcome::Success,
        ),
{
    let settings = run.settings;
    let kek = KekEncryptor::<Model> { encryptor: encryptor_of(o) };
    let after = AfterRead::<Model>::Export;
    let replies = seq![
        Reply::<Model>::Text(password),
        Reply::Bytes(wrap),
        Reply::Bytes(data),
        Reply::Bytes(sealed),
        Reply::Text(text),
        Reply::Done,
    ];
    let requests = seq![
        Request::<Model>::PromptSecret { text: "Enter a password to protect the seed: "@ },
        Request::Hash256 { data: encode_utf8(password) },
        Request::EncodeSeedKey { key: r.key },
        Request::Encrypt {
            encryptor: Encrypt0 { key: wrap, kid: None },
            plaintext: data,
            aad: encode_utf8("NS:COSE/Transfer.Key"@),
            cid: r.facts.kid,
        },
        Request::EncodeBase64Url { data: sealed },
        Request::Print {
            text: "The exported seed key (base64url encoded):\n\n"@ + text + "\n\n"@,
        },
    ];
    let begun = started(settings, run.command);
    let found = obtained(settings, kek, r.key, r.facts, after);
    a_key_is_obtained(settings, o, seed@, r, after);
    assert(goes(settings, found, replies, requests, over(Outcome::Success))) by {
        reveal_with_fuel(goes, 7);
    }
    goes_on(
        settings,
        begun,
        opening_replies(o) + reading_replies(r),
        opening_requests(settings, o) + reading_requests(encryptor_of(o), seed@, r),
        found,
        replies,
        requests,
        over(Outcome::Success),
    );
    run_does(
        run,
        opening_requests(settings, o) + reading_requests(encryptor_of(o), seed@, r) + requests,
        Outcome::Success
    );
}

} // verus!
