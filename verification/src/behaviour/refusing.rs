//! Commands that end early: without a key encryption key, without a key, or with a failure outside.

use vstd::prelude::*;

use crate::behaviour::inscribing::{
    Authoring, Inscribing, authoring_replies, authoring_requests, authors, check_replies,
    check_requests, inscribes, names_begin, the_payer_is_read,
};
use crate::behaviour::keeping::{
    Importing, Opening, Reading, an_opening_goes, encryptor_of, importing_replies,
    importing_requests, opening_replies, opening_requests, opens, reading_requests,
};
use crate::behaviour::sending::{Sending, can_be_sent, network_shown};
use crate::behaviour::steps::{does, goes, goes_on, goes_on_twice, over, run_does};
use crate::cli::Commands;
use crate::cose::key_encoding;
use crate::form::Model;
use crate::hexadecimal::hex_bytes;
use crate::keystore::{opened, opening, reading};
use crate::progress::an_exit_is_the_end;
use crate::run::{Run, requests_are_kept};
use crate::session::started;
use crate::state::{AfterOpen, AfterRead, Funding, Job, KekEncryptor, Payment, Settings};
use crate::text::{names_are_between_commas, names_in};
use crate::wire::{Failure, Outcome, Reply, Request};

verus! {

/// Without a command nothing is asked for.
pub proof fn no_command_does_nothing(run: Run)
    requires
        run.command is None,
        run.replies.len() == 0,
    ensures
        does(run, seq![], Outcome::Success),
{
    run_does(run, seq![], Outcome::Success);
}

/// What is answered before a command wants the key encryption key.
pub struct Way {
    /// The path of the seed that is missing.
    pub path: Seq<char>,
    /// The time, where an import has no alias.
    pub now: Seq<char>,
    /// What a seed is imported from.
    pub import: Importing,
    /// The address that receives satoshis.
    pub address: Seq<char>,
}

/// The names that a command lists.
pub open spec fn listed(command: Option<Commands>) -> Seq<Seq<char>> {
    match command {
        Some(Commands::Preview { names, .. }) => names_in(names@),
        Some(Commands::Inscribe { names, .. }) => names_in(names@),
        _ => seq![],
    }
}

/// Whether the answers lead a command to the key encryption key.
pub open spec fn leads(settings: Settings<Model>, command: Option<Commands>, w: Way) -> bool {
    match command {
        None => false,
        Some(Commands::NewKEK { .. }) => false,
        Some(Commands::ListKeys { detail }) => detail,
        Some(Commands::SendSats { txid, addr, to, amount, fee }) => can_be_sent(
            settings,
            Sending { txid, addr, to, amount, fee },
            w.address,
        ),
        Some(Commands::Preview { .. }) => listed(command).len() <= usize::MAX,
        Some(Commands::Inscribe { .. }) => listed(command).len() <= usize::MAX,
        _ => true,
    }
}

/// The answers before a command wants the key encryption key.
pub open spec fn way_replies(command: Option<Commands>, w: Way) -> Seq<Reply<Model>> {
    match command {
        Some(Commands::NewSeed {  }) => seq![
            Reply::<Model>::Found { exists: false, path: w.path },
        ],
        Some(Commands::ImportSeed { alias }) => if alias@.len() > 0 {
            importing_replies(w.import)
        } else {
            seq![Reply::<Model>::Text(w.now)] + importing_replies(w.import)
        },
        Some(Commands::SendSats { .. }) => seq![Reply::<Model>::Done],
        Some(Commands::Preview { .. }) => seq![Reply::<Model>::Done] + check_replies(
            listed(command).len(),
        ),
        Some(Commands::Inscribe { .. }) => seq![Reply::<Model>::Done] + check_replies(
            listed(command).len(),
        ),
        _ => seq![],
    }
}

/// What is asked for before a command wants the key encryption key: a seed looks for its file and
/// is imported; satoshis and names show the network, and names are checked; all other commands want
/// it at once.
pub open spec fn way_requests(
    settings: Settings<Model>,
    command: Option<Commands>,
    w: Way,
) -> Seq<Request<Model>> {
    match command {
        Some(Commands::NewSeed {  }) => seq![
            Request::<Model>::FindKeyFile { file: "seed.cose.key"@ },
        ],
        Some(Commands::ImportSeed { alias }) => if alias@.len() > 0 {
            importing_requests(alias@ + ".cose.key"@, w.import)
        } else {
            seq![Request::<Model>::Clock] + importing_requests(
                w.now + ".seed"@ + ".cose.key"@,
                w.import,
            )
        },
        Some(Commands::SendSats { .. }) => seq![network_shown(settings.network)],
        Some(Commands::Preview { .. }) => seq![network_shown(settings.network)] + check_requests(
            listed(command),
            listed(command).len(),
        ),
        Some(Commands::Inscribe { .. }) => seq![network_shown(settings.network)] + check_requests(
            listed(command),
            listed(command).len(),
        ),
        _ => seq![],
    }
}

/// The name of the key that a command reads first, if it reads one.
pub open spec fn first_key(command: Option<Commands>) -> Option<Seq<char>> {
    match command {
        Some(Commands::ExportSeed { seed }) => Some(seed@),
        Some(Commands::Secp256k1Derive { seed, .. }) => Some(seed@),
        Some(Commands::Ed25519Derive { seed, .. }) => Some(seed@),
        Some(Commands::Secp256k1Address { key }) => Some(key@),
        Some(Commands::SignMessage { key, .. }) => Some(key@),
        Some(Commands::VerifyMessage { key, .. }) => Some(key@),
        Some(Commands::SendSats { addr, .. }) => Some(addr@),
        Some(Commands::Preview { key, .. }) => Some(key@),
        Some(Commands::Inscribe { key, .. }) => Some(key@),
        _ => None,
    }
}

/// A command that is led to the key encryption key wants it, and then the key that it reads first.
proof fn the_way_goes(settings: Settings<Model>, command: Option<Commands>, w: Way) -> (after:
    AfterOpen<Model>)
    requires
        leads(settings, command, w),
    ensures
        goes(
            settings,
            started(settings, command),
            way_replies(command, w),
            way_requests(settings, command, w),
            opening(settings, after),
        ),
        first_key(command) matches Some(name) ==> after matches AfterOpen::Read { file, .. }
            && file == name + ".cose.key"@,
{
    let begun = started(settings, command);
    match command {
        Some(Commands::NewSeed {  }) => {
            let after = AfterOpen::<Model>::Seed { file: "seed.cose.key"@ };
            assert(goes(
                settings,
                begun,
                way_replies(command, w),
                way_requests(settings, command, w),
                opening(settings, after),
            )) by {
                reveal_with_fuel(goes, 2);
            }
            after
        },
        Some(Commands::ImportSeed { alias }) => {
            let file = if alias@.len() > 0 {
                alias@ + ".cose.key"@
            } else {
                w.now + ".seed"@ + ".cose.key"@
            };
            let after = AfterOpen::<Model>::Import { file, key: w.import.key };
            assert(goes(
                settings,
                begun,
                way_replies(command, w),
                way_requests(settings, command, w),
                opening(settings, after),
            )) by {
                reveal_with_fuel(goes, 10);
            }
            after
        },
        Some(Commands::ListKeys { .. }) => AfterOpen::List,
        Some(Commands::ExportSeed { seed }) => AfterOpen::Read {
            file: seed@ + ".cose.key"@,
            after: AfterRead::Export,
        },
        Some(Commands::Secp256k1Derive { seed, acc, idx }) => AfterOpen::Read {
            file: seed@ + ".cose.key"@,
            after: AfterRead::Secp256k1 { acc, idx },
        },
        Some(Commands::Ed25519Derive { seed, acc, idx }) => AfterOpen::Read {
            file: seed@ + ".cose.key"@,
            after: AfterRead::Ed25519 { acc, idx },
        },
        Some(Commands::Secp256k1Address { key }) => AfterOpen::Read {
            file: key@ + ".cose.key"@,
            after: AfterRead::Addresses { name: key@ },
        },
        Some(Commands::SignMessage { key, msg, enc }) => AfterOpen::Read {
            file: key@ + ".cose.key"@,
            after: AfterRead::Sign { message: msg@, hex: enc@ == "hex"@ },
        },
        Some(Commands::VerifyMessage { key, msg, sig, enc }) => AfterOpen::Read {
            file: key@ + ".cose.key"@,
            after: AfterRead::Verify { message: msg@, signature: sig@, hex: enc@ == "hex"@ },
        },
        Some(Commands::SendSats { txid, addr, to, amount, fee }) => {
            let after = AfterOpen::<Model>::Read {
                file: addr@ + ".cose.key"@,
                after: AfterRead::Send {
                    name: addr@,
                    payment: Payment {
                        txid: hex_bytes(txid@).reverse(),
                        to: w.address,
                        amount,
                        fee,
                    },
                },
            };
            assert(goes(
                settings,
                begun,
                way_replies(command, w),
                way_requests(settings, command, w),
                opening(settings, after),
            )) by {
                reveal_with_fuel(goes, 2);
            }
            after
        },
        Some(Commands::Preview { fee, key, names }) => {
            let job = Job::<Model> { names: names_in(names@), fee, key: key@, funding: None };
            names_are_between_commas(names@);
            names_begin(settings, job);
            AfterOpen::Read { file: key@ + ".cose.key"@, after: AfterRead::Author { job } }
        },
        Some(Commands::Inscribe { txid, txout_json, addr, fee, key, names }) => {
            let job = Job::<Model> {
                names: names_in(names@),
                fee,
                key: key@,
                funding: Some(
                    Funding { txid: txid@, txout_json: txout_json@, addr: addr@ },
                ),
            };
            names_are_between_commas(names@);
            names_begin(settings, job);
            AfterOpen::Read { file: key@ + ".cose.key"@, after: AfterRead::Author { job } }
        },
        _ => AfterOpen::List,
    }
}

/// Without a key encryption key in the settings, a command that wants it prints what to do about it
/// and fails; no password is asked for and no key is read.
pub proof fn a_missing_kek_is_refused(run: Run, w: Way)
    requires
        leads(run.settings, run.command, w),
        run.settings.kek.len() == 0,
        run.replies == way_replies(run.command, w) + seq![Reply::<Model>::Done],
    ensures
        does(
            run,
            way_requests(run.settings, run.command, w) + seq![
                Request::<Model>::Print {
                    text:
                        "INSCRIBER_KEK not found\nKEK is used to protect other keys\nRun `ns-inscriber new-kek --alias=mykek` to generate a new KEK`"@,
                },
            ],
            Outcome::Failure(Failure::KekMissing),
        ),
{
    let settings = run.settings;
    let outcome: Outcome<Model> = Outcome::Failure(Failure::KekMissing);
    let replies = seq![Reply::<Model>::Done];
    let requests = seq![
        Request::<Model>::Print {
            text:
                "INSCRIBER_KEK not found\nKEK is used to protect other keys\nRun `ns-inscriber new-kek --alias=mykek` to generate a new KEK`"@,
        },
    ];
    let after = the_way_goes(settings, run.command, w);
    assert(goes(settings, opening(settings, after), replies, requests, over(outcome))) by {
        reveal_with_fuel(goes, 2);
    }
    goes_on(
        settings,
        started(settings, run.command),
        way_replies(run.command, w),
        way_requests(settings, run.command, w),
        opening(settings, after),
        replies,
        requests,
        over(outcome),
    );
    run_does(run, way_requests(settings, run.command, w) + requests, outcome);
}

/// What the text of the settings decrypts to must be a key; else the command fails with the message
/// that says why it is none.
pub proof fn a_kek_that_is_no_key_is_refused(run: Run, w: Way, o: Opening, message: Seq<char>)
    requires
        leads(run.settings, run.command, w),
        run.settings.kek.len() > 0,
        key_encoding(o.plain) == Err::<Seq<u8>, Seq<char>>(message),
        run.replies == way_replies(run.command, w) + opening_replies(o).take(5),
    ensures
        does(
            run,
            way_requests(run.settings, run.command, w) + opening_requests(run.settings, o).take(5),
            Outcome::Failure(Failure::Outside { messages: seq![message] }),
        ),
{
    let settings = run.settings;
    let outcome: Outcome<Model> = Outcome::Failure(Failure::Outside { messages: seq![message] });
    let replies = opening_replies(o).take(5);
    let requests = opening_requests(settings, o).take(5);
    let after = the_way_goes(settings, run.command, w);
    assert(goes(settings, opening(settings, after), replies, requests, over(outcome))) by {
        reveal_with_fuel(goes, 6);
    }
    goes_on(
        settings,
        started(settings, run.command),
        way_replies(run.command, w),
        way_requests(settings, run.command, w),
        opening(settings, after),
        replies,
        requests,
        over(outcome),
    );
    run_does(run, way_requests(settings, run.command, w) + requests, outcome);
}

/// The key encryption key must hold a secret; else the command fails with the messages that say why
/// it holds none.
pub proof fn a_kek_without_a_secret_is_refused(
    run: Run,
    w: Way,
    o: Opening,
    messages: Seq<Seq<char>>,
)
    requires
        leads(run.settings, run.command, w),
        run.settings.kek.len() > 0,
        key_encoding(o.plain) == Ok::<Seq<u8>, Seq<char>>(o.key),
        o.facts.secret == Err::<Seq<u8>, Seq<Seq<char>>>(messages),
        run.replies == way_replies(run.command, w) + opening_replies(o),
    ensures
        does(
            run,
            way_requests(run.settings, run.command, w) + opening_requests(run.settings, o),
            Outcome::Failure(Failure::Outside { messages }),
        ),
{
    let settings = run.settings;
    let outcome: Outcome<Model> = Outcome::Failure(Failure::Outside { messages });
    let after = the_way_goes(settings, run.command, w);
    assert(goes(
        settings,
        opening(settings, after),
        opening_replies(o),
        opening_requests(settings, o),
        over(outcome),
    )) by {
        reveal_with_fuel(goes, 7);
    }
    goes_on(
        settings,
        started(settings, run.command),
        way_replies(run.command, w),
        way_requests(settings, run.command, w),
        opening(settings, after),
        opening_replies(o),
        opening_requests(settings, o),
        over(outcome),
    );
    run_does(
        run,
        way_requests(settings, run.command, w) + opening_requests(settings, o),
        outcome,
    );
}

/// The answers of a reading whose file holds no key.
pub open spec fn keyless_replies(r: Reading) -> Seq<Reply<Model>> {
    seq![Reply::Bytes(r.tagged), Reply::Bytes(r.data), Reply::Bytes(r.plain)]
}

/// What the file of a key decrypts to must be a key; else the command fails with the message that
/// says why it is none.
pub proof fn a_file_without_a_key_is_refused(
    run: Run,
    w: Way,
    o: Opening,
    name: Seq<char>,
    r: Reading,
    message: Seq<char>,
)
    requires
        leads(run.settings, run.command, w),
        first_key(run.command) == Some(name),
        opens(run.settings, o),
        key_encoding(r.plain) == Err::<Seq<u8>, Seq<char>>(message),
        run.replies == way_replies(run.command, w) + opening_replies(o) + keyless_replies(r),
    ensures
        does(
            run,
            way_requests(run.settings, run.command, w) + opening_requests(run.settings, o)
                + reading_requests(encryptor_of(o), name, r).take(3),
            Outcome::Failure(Failure::Outside { messages: seq![message] }),
        ),
{
    let settings = run.settings;
    let kek = KekEncryptor::<Model> { encryptor: encryptor_of(o) };
    let outcome: Outcome<Model> = Outcome::Failure(Failure::Outside { messages: seq![message] });
    let requests = reading_requests(encryptor_of(o), name, r).take(3);
    let after = the_way_goes(settings, run.command, w);
    an_opening_goes(settings, o, after);
    assert(goes(settings, opened(kek, after), keyless_replies(r), requests, over(outcome))) by {
        reveal_with_fuel(goes, 4);
    }
    goes_on_twice(
        settings,
        started(settings, run.command),
        way_replies(run.command, w),
        way_requests(settings, run.command, w),
        opening(settings, after),
        opening_replies(o),
        opening_requests(settings, o),
        opened(kek, after),
        keyless_replies(r),
        requests,
        over(outcome),
    );
    run_does(
        run,
        way_requests(settings, run.command, w) + opening_requests(settings, o) + requests,
        outcome,
    );
}

/// What the file of the payer decrypts to must be a key; else the command fails with the message
/// that says why it is none.
pub proof fn a_payer_without_a_key_is_refused(
    run: Run,
    c: Inscribing,
    a: Authoring,
    p: Reading,
    message: Seq<char>,
)
    requires
        inscribes(run, c),
        authors(run.settings, names_in(c.names@), a),
        key_encoding(p.plain) == Err::<Seq<u8>, Seq<char>>(message),
        run.replies == authoring_replies(names_in(c.names@), a) + keyless_replies(p),
    ensures
        does(
            run,
            authoring_requests(run.settings, names_in(c.names@), c.key@, a) + reading_requests(
                encryptor_of(a.o),
                c.addr@,
                p,
            ).take(3),
            Outcome::Failure(Failure::Outside { messages: seq![message] }),
        ),
{
    let settings = run.settings;
    let kek = KekEncryptor::<Model> { encryptor: encryptor_of(a.o) };
    let outcome: Outcome<Model> = Outcome::Failure(Failure::Outside { messages: seq![message] });
    let requests = reading_requests(encryptor_of(a.o), c.addr@, p).take(3);
    let after = the_payer_is_read(run, c, a);
    let read = reading(kek, c.addr@ + ".cose.key"@, after);
    assert(goes(settings, read, keyless_replies(p), requests, over(outcome))) by {
        reveal_with_fuel(goes, 4);
    }
    goes_on(
        settings,
        started(settings, run.command),
        authoring_replies(names_in(c.names@), a),
        authoring_requests(settings, names_in(c.names@), c.key@, a),
        read,
        keyless_replies(p),
        requests,
        over(outcome),
    );
    run_does(
        run,
        authoring_requests(settings, names_in(c.names@), c.key@, a) + requests,
        outcome,
    );
}

/// A step of a run that has not asked to exit is not the last one.
proof fn a_run_that_has_not_exited_goes_on(run: Run)
    requires
        !(run.step().request is Exit),
    ensures
        !(run.step().state is Done),
{
    if run.replies.len() == 0 {
        an_exit_is_the_end(
            run.settings,
            run.command,
            run.step().state,
            Reply::Done,
        );
    } else {
        an_exit_is_the_end(
            run.settings,
            run.command,
            run.before().step().state,
            run.replies.last(),
        );
    }
}

/// Whatever fails outside ends a run at once, with the messages of what failed.
pub proof fn a_failure_ends_a_run(run: Run, messages: Seq<Seq<char>>)
    requires
        run.replies.len() > 0,
        run.replies.last() == (Reply::<Model>::Failed { messages }),
        !(run.asked(run.replies.len() - 1) is Exit),
    ensures
        run.asked(run.replies.len() as int) == Request::<Model>::Exit(
            Outcome::Failure(Failure::Outside { messages }),
        ),
{
    requests_are_kept(run);
    requests_are_kept(run.before());
    assert(run.asked(run.replies.len() - 1) == run.before().asked(run.replies.len() - 1));
    a_run_that_has_not_exited_goes_on(run.before());
}

} // verus!
