//! Showing the addresses of a key.

use vstd::prelude::*;

use crate::behaviour::keeping::{
    Opening, Reading, a_keyed_run_does, encryptor_of, opening_replies, opening_requests, opens,
    reading_replies, reading_requests, reads,
};
use crate::behaviour::steps::{does, goes, over};
use crate::chain::{
    p2pkh_address, p2tr_address, p2wpkh_address, secp256k1_public_key, valid_secret_key,
};
use crate::cli::Commands;
use crate::form::{KeyFacts, Model};
use crate::run::Run;
use crate::session::obtained;
use crate::state::{AfterRead, KekEncryptor};
use crate::wire::{Failure, Outcome, Reply, Request};

verus! {

/// Why a key cannot be used with its secp256k1 secret, if it cannot: it is on another curve, holds
/// no secret, or holds one that is out of range.
pub open spec fn secp256k1_refusal(facts: KeyFacts<Model>, name: Seq<char>) -> Option<
    Failure<Model>,
> {
    if !facts.secp256k1 {
        Some(Failure::NotSecp256k1 { name })
    } else {
        match facts.secret {
            Ok(secret) => if valid_secret_key(secret) {
                None
            } else {
                Some(Failure::Outside { messages: seq!["malformed or out-of-range secret key"@] })
            },
            Err(messages) => Some(Failure::Outside { messages }),
        }
    }
}

/// The addresses of a secp256k1 key are those of its secret on the network of the settings: the
/// taproot address, then the two addresses of its public key.
pub proof fn addresses_are_shown(
    run: Run,
    key: String,
    o: Opening,
    r: Reading,
    secret: Seq<u8>,
)
    requires
        run.command == Some(Commands::Secp256k1Address { key }),
        opens(run.settings, o),
        reads(r),
        r.facts.secp256k1,
        r.facts.secret == Ok::<Seq<u8>, Seq<Seq<char>>>(secret),
        valid_secret_key(secret),
        run.replies == opening_replies(o) + reading_replies(r) + seq![Reply::<Model>::Done],
    ensures
        ({
            let network = run.settings.network;
            let public_key = secp256k1_public_key(secret);
            does(
                run,
                opening_requests(run.settings, o) + reading_requests(encryptor_of(o), key@, r)
                    + seq![
                    Request::<Model>::Print {
                        text: "p2tr address: "@ + p2tr_address(secret, network) + (
                        "\np2pkh address: "@ + p2pkh_address(public_key, network)) + (
                        "\np2wpkh address: "@ + p2wpkh_address(public_key, network)),
                    },
                ],
                Outcome::Success,
            )
        }),
{
    let settings = run.settings;
    let network = settings.network;
    let public_key = secp256k1_public_key(secret);
    let kek = KekEncryptor::<Model> { encryptor: encryptor_of(o) };
    let after = AfterRead::<Model>::Addresses { name: key@ };
    let requests = seq![
        Request::<Model>::Print {
            text: "p2tr address: "@ + p2tr_address(secret, network) + ("\np2pkh address: "@
                + p2pkh_address(public_key, network)) + ("\np2wpkh address: "@ + p2wpkh_address(
                public_key,
                network,
            )),
        },
    ];
    assert(goes(
        settings,
        obtained(settings, kek, r.key, r.facts, after),
        seq![Reply::<Model>::Done],
        requests,
        over(Outcome::Success),
    )) by {
        reveal_with_fuel(goes, 2);
    }
    a_keyed_run_does(
        run,
        o,
        key@,
        r,
        after,
        seq![Reply::<Model>::Done],
        requests,
        Outcome::Success,
    );
}

/// A key without a usable secp256k1 secret has no addresses.
pub proof fn another_key_has_no_addresses(
    run: Run,
    key: String,
    o: Opening,
    r: Reading,
    failure: Failure<Model>,
)
    requires
        run.command == Some(Commands::Secp256k1Address { key }),
        opens(run.settings, o),
        reads(r),
        secp256k1_refusal(r.facts, key@) == Some(failure),
        run.replies == opening_replies(o) + reading_replies(r),
    ensures
        does(
            run,
            opening_requests(run.settings, o) + reading_requests(encryptor_of(o), key@, r),
            Outcome::Failure(failure),
        ),
{
    let front = opening_requests(run.settings, o) + reading_requests(encryptor_of(o), key@, r);
    let none = Seq::<Reply<Model>>::empty();
    let nothing = Seq::<Request<Model>>::empty();
    assert(run.replies =~= opening_replies(o) + reading_replies(r) + none);
    assert(front + nothing =~= front);
    a_keyed_run_does(
        run,
        o,
        key@,
        r,
        AfterRead::Addresses { name: key@ },
        none,
        nothing,
        Outcome::Failure(failure),
    );
}

} // verus!
