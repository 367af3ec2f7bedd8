//! Deriving keys from a seed.

use vstd::prelude::*;

use crate::behaviour::keeping::{
    Opening, Reading, Saving, a_keyed_run_does, a_saving_goes, encryptor_of, opening_replies,
    opening_requests, opens, reading_replies, reading_requests, reads, saving_replies,
    saving_requests,
};
use crate::behaviour::steps::{does, goes, goes_on, over};
use crate::chain::{p2wpkh_address, path_error, secp256k1_public_key, valid_secret_key};
use crate::cli::Commands;
use crate::derivation::{ed25519_path_leads, secp256k1_path_leads};
use crate::form::{KeyId, Model};
use crate::hexadecimal::hex_text;
use crate::keystore::saving;
use crate::run::Run;
use crate::session::obtained;
use crate::state::{AfterRead, KekEncryptor, Note};
use crate::text::decimal;
use crate::wire::{Failure, Outcome, Reply, Request};

verus! {

/// How the path of a derived key is written, below its purpose.
pub open spec fn path_text(purpose: Seq<char>, acc: u32, idx: u32) -> Seq<char> {
    purpose + decimal(acc as nat) + ("'/1/"@ + decimal(idx as nat))
}

/// A secp256k1 key is derived from the secret of the seed at 44', 0', the account hardened, 1 and
/// the index, on the network of the settings. It is named by its path, and saved in the file of its
/// address on that network.
pub proof fn a_secp256k1_key_is_derived(
    run: Run,
    seed: String,
    acc: u32,
    idx: u32,
    o: Opening,
    r: Reading,
    seed_secret: Seq<u8>,
    secret: Seq<u8>,
    key: Seq<u8>,
    s: Saving,
)
    requires
        run.command == Some(Commands::Secp256k1Derive { seed, acc, idx }),
        acc < 0x8000_0000,
        idx < 0x8000_0000,
        opens(run.settings, o),
        reads(r),
        valid_secret_key(secret),
        run.replies == opening_replies(o) + reading_replies(r) + (seq![
            Reply::<Model>::Bytes(seed_secret),
            Reply::Bytes(secret),
            Reply::Bytes(key),
        ] + saving_replies(s)),
    ensures
        ({
            let kid = path_text("m/44'/0'/"@, acc, idx);
            let address = p2wpkh_address(secp256k1_public_key(secret), run.settings.network);
            does(
                run,
                opening_requests(run.settings, o) + reading_requests(encryptor_of(o), seed@, r) + (
                seq![
                    Request::<Model>::SeedSecret { key: r.key },
                    Request::DeriveSecp256k1 {
                        secret: seed_secret,
                        path: seq![
                            0x8000_002cu32,
                            0x8000_0000u32,
                            (0x8000_0000 + acc) as u32,
                            1u32,
                            idx,
                        ],
                        network: run.settings.network,
                    },
                    Request::MakeSecp256k1Key { secret, kid: KeyId::Text(kid) },
                ] + saving_requests(
                    encryptor_of(o),
                    address + ".cose.key"@,
                    key,
                    Some(KeyId::Text(kid)),
                    "key: "@,
                    ", address: "@ + address,
                    s,
                )),
                Outcome::Success,
            )
        }),
{
    let settings = run.settings;
    let kid = path_text("m/44'/0'/"@, acc, idx);
    let address = p2wpkh_address(secp256k1_public_key(secret), settings.network);
    let file = address + ".cose.key"@;
    let kek = KekEncryptor::<Model> { encryptor: encryptor_of(o) };
    let after = AfterRead::<Model>::Secp256k1 { acc, idx };
    let cid = Some(KeyId::<Model>::Text(kid));
    let back = ", address: "@ + address;
    let path = seq![0x8000_002cu32, 0x8000_0000u32, (0x8000_0000 + acc) as u32, 1u32, idx];
    let replies = seq![
        Reply::<Model>::Bytes(seed_secret),
        Reply::Bytes(secret),
        Reply::Bytes(key),
    ];
    let requests = seq![
        Request::<Model>::SeedSecret { key: r.key },
        Request::DeriveSecp256k1 { secret: seed_secret, path, network: settings.network },
        Request::MakeSecp256k1Key { secret, kid: KeyId::Text(kid) },
    ];
    let found = obtained(settings, kek, r.key, r.facts, after);
    let saved = saving(kek, file, key, cid, Note { front: "key: "@, back });
    secp256k1_path_leads(acc, idx);
    assert(goes(settings, found, replies, requests, saved)) by {
        reveal_with_fuel(goes, 4);
    }
    a_saving_goes(settings, encryptor_of(o), file, key, cid, "key: "@, back, s);
    let more = saving_requests(encryptor_of(o), file, key, cid, "key: "@, back, s);
    goes_on(
        settings,
        found,
        replies,
        requests,
        saved,
        saving_replies(s),
        more,
        over(Outcome::Success),
    );
    a_keyed_run_does(
        run,
        o,
        seed@,
        r,
        after,
        replies + saving_replies(s),
        requests + more,
        Outcome::Success,
    );
}

/// An Ed25519 key is derived from the secret of the seed at 42', 0', the account hardened, 1 and the
/// index. It is named by its path, and saved in the file of its public key.
pub proof fn an_ed25519_key_is_derived(
    run: Run,
    seed: String,
    acc: u32,
    idx: u32,
    o: Opening,
    r: Reading,
    seed_secret: Seq<u8>,
    secret: Seq<u8>,
    public_key: Seq<u8>,
    key: Seq<u8>,
    s: Saving,
)
    requires
        run.command == Some(Commands::Ed25519Derive { seed, acc, idx }),
        acc < 0x8000_0000,
        idx < 0x8000_0000,
        opens(run.settings, o),
        reads(r),
        run.replies == opening_replies(o) + reading_replies(r) + (seq![
            Reply::<Model>::Bytes(seed_secret),
            Reply::KeyPair { key: secret, public_key },
            Reply::Bytes(key),
        ] + saving_replies(s)),
    ensures
        ({
            let kid = path_text("m/42'/0'/"@, acc, idx);
            let address = "0x"@ + hex_text(public_key);
            does(
                run,
                opening_requests(run.settings, o) + reading_requests(encryptor_of(o), seed@, r) + (
                seq![
                    Request::<Model>::SeedSecret { key: r.key },
                    Request::DeriveEd25519 {
                        secret: seed_secret,
                        path: seq![
                            0x8000_002au32,
                            0x8000_0000u32,
                            (0x8000_0000 + acc) as u32,
                            1u32,
                            idx,
                        ],
                    },
                    Request::MakeEd25519Key { secret, kid: KeyId::Text(kid) },
                ] + saving_requests(
                    encryptor_of(o),
                    address + ".cose.key"@,
                    key,
                    Some(KeyId::Text(kid)),
                    "key: "@,
                    ", public key: "@ + address,
                    s,
                )),
                Outcome::Success,
            )
        }),
{
    let settings = run.settings;
    let kid = path_text("m/42'/0'/"@, acc, idx);
    let address = "0x"@ + hex_text(public_key);
    let file = address + ".cose.key"@;
    let kek = KekEncryptor::<Model> { encryptor: encryptor_of(o) };
    let after = AfterRead::<Model>::Ed25519 { acc, idx };
    let cid = Some(KeyId::<Model>::Text(kid));
    let back = ", public key: "@ + address;
    let path = seq![0x8000_002au32, 0x8000_0000u32, (0x8000_0000 + acc) as u32, 1u32, idx];
    let replies = seq![
        Reply::<Model>::Bytes(seed_secret),
        Reply::KeyPair { key: secret, public_key },
        Reply::Bytes(key),
    ];
    let requests = seq![
        Request::<Model>::SeedSecret { key: r.key },
        Request::DeriveEd25519 { secret: seed_secret, path },
        Request::MakeEd25519Key { secret, kid: KeyId::Text(kid) },
    ];
    let found = obtained(settings, kek, r.key, r.facts, after);
    let saved = saving(kek, file, key, cid, Note { front: "key: "@, back });
    ed25519_path_leads(acc, idx);
    assert(goes(settings, found, replies, requests, saved)) by {
        reveal_with_fuel(goes, 4);
    }
    a_saving_goes(settings, encryptor_of(o), file, key, cid, "key: "@, back, s);
    let more = saving_requests(encryptor_of(o), file, key, cid, "key: "@, back, s);
    goes_on(
        settings,
        found,
        replies,
        requests,
        saved,
        saving_replies(s),
        more,
        over(Outcome::Success),
    );
    a_keyed_run_does(
        run,
        o,
        seed@,
        r,
        after,
        replies + saving_replies(s),
        requests + more,
        Outcome::Success,
    );
}

/// An account or an index from 2^31 on is refused before anything is derived.
pub proof fn a_hardened_account_or_index_is_refused(
    run: Run,
    seed: String,
    acc: u32,
    idx: u32,
    o: Opening,
    r: Reading,
)
    requires
        acc >= 0x8000_0000 || idx >= 0x8000_0000,
        opens(run.settings, o),
        reads(r),
        run.replies == opening_replies(o) + reading_replies(r),
    ensures
        ({
            let front = opening_requests(run.settings, o) + reading_requests(
                encryptor_of(o),
                seed@,
                r,
            );
            &&& run.command == Some(Commands::Secp256k1Derive { seed, acc, idx }) ==> does(
                run,
                front,
                Outcome::Failure(
                    Failure::Outside { messages: path_error(path_text("m/44'/0'/"@, acc, idx)) },
                ),
            )
            &&& run.command == Some(Commands::Ed25519Derive { seed, acc, idx }) ==> does(
                run,
                front,
                Outcome::Failure(
                    Failure::Outside { messages: path_error(path_text("m/42'/0'/"@, acc, idx)) },
                ),
            )
        }),
{
    let settings = run.settings;
    let kek = KekEncryptor::<Model> { encryptor: encryptor_of(o) };
    let front = opening_requests(run.settings, o) + reading_requests(encryptor_of(o), seed@, r);
    let none = Seq::<Reply<Model>>::empty();
    let nothing = Seq::<Request<Model>>::empty();
    assert(run.replies =~= opening_replies(o) + reading_replies(r) + none);
    assert(front + nothing =~= front);
    if run.command == Some(Commands::Secp256k1Derive { seed, acc, idx }) {
        let after = AfterRead::<Model>::Secp256k1 { acc, idx };
        let outcome = Outcome::Failure(
            Failure::<Model>::Outside {
                messages: path_error(path_text("m/44'/0'/"@, acc, idx)),
            },
        );
        secp256k1_path_leads(acc, idx);
        assert(obtained(settings, kek, r.key, r.facts, after) == over(outcome));
        a_keyed_run_does(run, o, seed@, r, after, none, nothing, outcome);
    }
    if run.command == Some(Commands::Ed25519Derive { seed, acc, idx }) {
        let after = AfterRead::<Model>::Ed25519 { acc, idx };
        let outcome = Outcome::Failure(
            Failure::<Model>::Outside {
                messages: path_error(path_text("m/42'/0'/"@, acc, idx)),
            },
        );
        ed25519_path_leads(acc, idx);
        assert(obtained(settings, kek, r.key, r.facts, after) == over(outcome));
        a_keyed_run_does(run, o, seed@, r, after, none, nothing, outcome);
    }
}

/// A derived number that is no secp256k1 secret is refused, and no key is made of it.
pub proof fn a_derived_number_out_of_range_is_refused(
    run: Run,
    seed: String,
    acc: u32,
    idx: u32,
    o: Opening,
    r: Reading,
    seed_secret: Seq<u8>,
    secret: Seq<u8>,
)
    requires
        run.command == Some(Commands::Secp256k1Derive { seed, acc, idx }),
        acc < 0x8000_0000,
        idx < 0x8000_0000,
        opens(run.settings, o),
        reads(r),
        !valid_secret_key(secret),
        run.replies == opening_replies(o) + reading_replies(r) + seq![
            Reply::<Model>::Bytes(seed_secret),
            Reply::Bytes(secret),
        ],
    ensures
        does(
            run,
            opening_requests(run.settings, o) + reading_requests(encryptor_of(o), seed@, r) + seq![
                Request::<Model>::SeedSecret { key: r.key },
                Request::DeriveSecp256k1 {
                    secret: seed_secret,
                    path: seq![
                        0x8000_002cu32,
                        0x8000_0000u32,
                        (0x8000_0000 + acc) as u32,
                        1u32,
                        idx,
                    ],
                    network: run.settings.network,
                },
            ],
            Outcome::Failure(
                Failure::Outside { messages: seq!["malformed or out-of-range secret key"@] },
            ),
        ),
{
    let settings = run.settings;
    let kek = KekEncryptor::<Model> { encryptor: encryptor_of(o) };
    let after = AfterRead::<Model>::Secp256k1 { acc, idx };
    let path = seq![0x8000_002cu32, 0x8000_0000u32, (0x8000_0000 + acc) as u32, 1u32, idx];
    let outcome = Outcome::Failure(
        Failure::<Model>::Outside { messages: seq!["malformed or out-of-range secret key"@] },
    );
    let replies = seq![Reply::<Model>::Bytes(seed_secret), Reply::Bytes(secret)];
    let requests = seq![
        Request::<Model>::SeedSecret { key: r.key },
        Request::DeriveSecp256k1 { secret: seed_secret, path, network: settings.network },
    ];
    secp256k1_path_leads(acc, idx);
    assert(goes(
        settings,
        obtained(settings, kek, r.key, r.facts, after),
        replies,
        requests,
        over(outcome),
    )) by {
        reveal_with_fuel(goes, 3);
    }
    a_keyed_run_does(run, o, seed@, r, after, replies, requests, outcome);
}

} // verus!
