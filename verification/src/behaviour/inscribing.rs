//! Previewing and inscribing names.

use vstd::prelude::*;

use crate::behaviour::addresses::secp256k1_refusal;
use crate::behaviour::keeping::{
    Opening, Reading, a_key_is_obtained, a_reading_goes, a_run_with_a_key_does, encryptor_of,
    opening_replies, opening_requests, opens, reading_replies, reading_requests, reads,
};
use crate::behaviour::sending::{
    network_shown, node_requests, none_pays, pays_first, the_first_paying_output_is_chosen,
};
use crate::behaviour::steps::{
    does, goes, goes_on, goes_on_twice, over, run_does,
};
use crate::chain::{amount_text, txid_error, valid_secret_key};
use crate::cli::Commands;
use crate::form::{
    Model, Name, Operation, PublicKeyParams, Service, ThresholdLevel, TxOutput, UnspentTxOut,
};
use crate::hexadecimal::{hex_bytes, is_hex};
use crate::keystore::{opening, reading};
use crate::names::{checking, register_begun, signing};
use crate::run::Run;
use crate::session::{obtained, started};
use crate::state::{AfterOpen, AfterRead, Funding, Job, KekEncryptor, Settings};
use crate::text::{decimal, names_are_between_commas, names_in};
use crate::wire::{Defect, Failure, Outcome, PreviewSizes, Reply, Request};

verus! {

/// A name as it is signed, validated, previewed and inscribed: exactly the name that was asked for,
/// registered for the first time with the public key of its author alone.
pub open spec fn named(
    name: Seq<char>,
    public_key: Seq<u8>,
    signatures: Seq<Seq<u8>>,
) -> Name<Seq<char>, Seq<Seq<u8>>, Seq<Seq<char>>> {
    Name {
        name: name,
        sequence: 0,
        service: Service {
            code: 0,
            operation: Operation {
                subcode: 1,
                params: PublicKeyParams {
                    public_keys: seq![public_key],
                    threshold: None,
                    kind: None,
                },
            },
            attesters: None,
        },
        signatures: signatures,
    }
}

/// The request to sign a name.
pub open spec fn sign_request(
    name: Seq<char>,
    public_key: Seq<u8>,
    secret: Seq<u8>,
) -> Request<Model> {
    Request::SignName {
        name: named(name, public_key, seq![]),
        params: PublicKeyParams { public_keys: seq![public_key], threshold: None, kind: None },
        level: ThresholdLevel::All,
        secret,
    }
}

/// What is answered while names are checked and signed.
pub struct Authoring {
    /// The opening of the key encryption key.
    pub o: Opening,
    /// The reading of the key of the author.
    pub r: Reading,
    /// The secret of that key.
    pub secret: Seq<u8>,
    /// Its public key.
    pub public_key: Seq<u8>,
    /// The signatures of each name.
    pub signatures: Seq<Seq<Seq<u8>>>,
}

/// Whether the answers let names be signed.
pub open spec fn authors(settings: Settings<Model>, names: Seq<Seq<char>>, a: Authoring) -> bool {
    &&& names.len() <= usize::MAX
    &&& a.signatures.len() == names.len()
    &&& opens(settings, a.o)
    &&& reads(a.r)
    &&& a.r.facts.ed25519
    &&& a.r.facts.secret == Ok::<Seq<u8>, Seq<Seq<char>>>(a.secret)
}

/// The names as they are signed.
pub open spec fn signed_names(names: Seq<Seq<char>>, a: Authoring) -> Seq<
    Name<Seq<char>, Seq<Seq<u8>>, Seq<Seq<char>>>,
> {
    Seq::new(names.len(), |i: int| named(names[i], a.public_key, a.signatures[i]))
}

/// The answers while names are checked: that some of them are valid.
pub open spec fn check_replies(count: nat) -> Seq<Reply<Model>> {
    Seq::new(count, |i: int| Reply::<Model>::Verdict(true))
}

/// What is asked for while some of the names are checked: each of them, in order.
pub open spec fn check_requests(names: Seq<Seq<char>>, count: nat) -> Seq<Request<Model>> {
    Seq::new(count, |i: int| Request::<Model>::CheckName { name: names[i] })
}

/// The answers while names are signed: for each name its signatures, and that it is valid.
pub open spec fn sign_replies(names: Seq<Seq<char>>, a: Authoring) -> Seq<Reply<Model>> {
    Seq::new(
        2 * names.len(),
        |i: int|
            if i % 2 == 0 {
                Reply::<Model>::Signatures(a.signatures[i / 2])
            } else {
                Reply::Done
            },
    )
}

/// What is asked for while names are signed: each name is signed, and then validated, in order.
pub open spec fn sign_requests(names: Seq<Seq<char>>, a: Authoring) -> Seq<Request<Model>> {
    Seq::new(
        2 * names.len(),
        |i: int|
            if i % 2 == 0 {
                sign_request(names[i / 2], a.public_key, a.secret)
            } else {
                Request::ValidateName {
                    name: named(names[i / 2], a.public_key, a.signatures[i / 2]),
                }
            },
    )
}

/// The answers until all names are signed.
pub open spec fn authoring_replies(names: Seq<Seq<char>>, a: Authoring) -> Seq<Reply<Model>> {
    seq![Reply::<Model>::Done] + check_replies(names.len()) + (opening_replies(a.o)
        + reading_replies(a.r)) + (seq![Reply::<Model>::Bytes(a.public_key)] + sign_replies(
        names,
        a,
    ))
}

/// What is asked for until all names are signed: the network is shown, all names are checked, the
/// key of the author is read, and each name is signed with it and validated.
pub open spec fn authoring_requests(
    settings: Settings<Model>,
    names: Seq<Seq<char>>,
    key: Seq<char>,
    a: Authoring,
) -> Seq<Request<Model>> {
    seq![network_shown(settings.network)] + check_requests(names, names.len()) + (
    opening_requests(settings, a.o) + reading_requests(encryptor_of(a.o), key, a.r)) + (seq![
        Request::<Model>::Ed25519PublicKey { secret: a.secret },
    ] + sign_requests(names, a))
}

/// The first names are checked.
proof fn names_are_checked(settings: Settings<Model>, job: Job<Model>, from: int, to: int)
    requires
        0 <= from <= to <= job.names.len() <= usize::MAX,
    ensures
        goes(
            settings,
            checking(settings, job, from),
            check_replies((to - from) as nat),
            check_requests(job.names.skip(from), (to - from) as nat),
            checking(settings, job, to),
        ),
    decreases to - from,
{
    let rest = job.names.skip(from);
    let count: nat = (to - from) as nat;
    if from < to {
        names_are_checked(settings, job, from + 1, to);
        let less: nat = (count - 1) as nat;
        assert(check_replies(count).drop_first() =~= check_replies(less));
        assert(check_requests(rest, count).drop_first() =~= check_requests(
            job.names.skip(from + 1),
            less,
        ));
    }
}

/// The names from an index on are signed, and were before it.
proof fn names_are_signed(
    settings: Settings<Model>,
    kek: KekEncryptor<Model>,
    job: Job<Model>,
    a: Authoring,
    from: int,
)
    requires
        0 <= from <= job.names.len(),
        a.signatures.len() == job.names.len(),
    ensures
        goes(
            settings,
            signing(
                kek,
                a.secret,
                a.public_key,
                job,
                signed_names(job.names, a).take(from),
            ),
            sign_replies(job.names, a).skip(2 * from),
            sign_requests(job.names, a).skip(2 * from),
            signing(kek, a.secret, a.public_key, job, signed_names(job.names, a)),
        ),
    decreases job.names.len() - from,
{
    let names = signed_names(job.names, a);
    let replies = sign_replies(job.names, a);
    let requests = sign_requests(job.names, a);
    if from == job.names.len() {
        assert(names.take(from) =~= names);
        assert(replies.skip(2 * from).len() == 0);
    } else {
        let here = signing(kek, a.secret, a.public_key, job, names.take(from));
        let there = signing(kek, a.secret, a.public_key, job, names.take(from + 1));
        let i: int = from;
        let two_replies = seq![Reply::<Model>::Signatures(a.signatures[i]), Reply::Done];
        let two_requests = seq![
            sign_request(job.names[i], a.public_key, a.secret),
            Request::ValidateName { name: named(job.names[i], a.public_key, a.signatures[i]) },
        ];
        assert(names.take(i).push(named(job.names[i], a.public_key, a.signatures[i]))
            =~= names.take(i + 1));
        assert(goes(settings, here, two_replies, two_requests, there)) by {
            reveal_with_fuel(goes, 3);
        }
        names_are_signed(settings, kek, job, a, from + 1);
        goes_on(
            settings,
            here,
            two_replies,
            two_requests,
            there,
            replies.skip(2 * (from + 1)),
            requests.skip(2 * (from + 1)),
            signing(kek, a.secret, a.public_key, job, names),
        );
        assert(two_replies + replies.skip(2 * (from + 1)) =~= replies.skip(2 * from));
        assert(two_requests + requests.skip(2 * (from + 1)) =~= requests.skip(2 * from));
    }
}

/// Names that are listed go on to the opening of the key encryption key once they are checked.
pub proof fn names_begin(settings: Settings<Model>, job: Job<Model>)
    requires
        0 < job.names.len() <= usize::MAX,
    ensures
        goes(
            settings,
            register_begun(settings, job),
            seq![Reply::<Model>::Done] + check_replies(job.names.len()),
            seq![network_shown(settings.network)] + check_requests(job.names, job.names.len()),
            opening(
                settings,
                AfterOpen::Read {
                    file: job.key + ".cose.key"@,
                    after: AfterRead::Author { job },
                },
            ),
        ),
{
    names_are_checked(settings, job, 0, job.names.len() as int);
    assert(job.names.skip(0) =~= job.names);
    assert(goes(
        settings,
        register_begun(settings, job),
        seq![Reply::<Model>::Done],
        seq![network_shown(settings.network)],
        checking(settings, job, 0),
    )) by {
        reveal_with_fuel(goes, 2);
    }
    goes_on(
        settings,
        register_begun(settings, job),
        seq![Reply::<Model>::Done],
        seq![network_shown(settings.network)],
        checking(settings, job, 0),
        check_replies(job.names.len()),
        check_requests(job.names, job.names.len()),
        checking(settings, job, job.names.len() as int),
    );
}

/// All names are checked, and signed by their author.
proof fn authoring_goes(settings: Settings<Model>, job: Job<Model>, a: Authoring)
    requires
        job.names.len() > 0,
        authors(settings, job.names, a),
    ensures
        goes(
            settings,
            register_begun(settings, job),
            authoring_replies(job.names, a),
            authoring_requests(settings, job.names, job.key, a),
            signing(
                KekEncryptor { encryptor: encryptor_of(a.o) },
                a.secret,
                a.public_key,
                job,
                signed_names(job.names, a),
            ),
        ),
{
    let kek = KekEncryptor::<Model> { encryptor: encryptor_of(a.o) };
    let after = AfterRead::Author { job };
    let keyed = obtained(settings, kek, a.r.key, a.r.facts, after);
    let all = signing(kek, a.secret, a.public_key, job, signed_names(job.names, a));
    let none = signing(kek, a.secret, a.public_key, job, seq![]);
    names_begin(settings, job);
    a_key_is_obtained(settings, a.o, job.key, a.r, after);
    assert(goes(
        settings,
        keyed,
        seq![Reply::<Model>::Bytes(a.public_key)],
        seq![Request::<Model>::Ed25519PublicKey { secret: a.secret }],
        none,
    )) by {
        reveal_with_fuel(goes, 2);
    }
    names_are_signed(settings, kek, job, a, 0);
    assert(signed_names(job.names, a).take(0) =~= seq![]);
    assert(sign_replies(job.names, a).skip(0) =~= sign_replies(job.names, a));
    assert(sign_requests(job.names, a).skip(0) =~= sign_requests(job.names, a));
    goes_on(
        settings,
        keyed,
        seq![Reply::<Model>::Bytes(a.public_key)],
        seq![Request::<Model>::Ed25519PublicKey { secret: a.secret }],
        none,
        sign_replies(job.names, a),
        sign_requests(job.names, a),
        all,
    );
    goes_on_twice(
        settings,
        register_begun(settings, job),
        seq![Reply::<Model>::Done] + check_replies(job.names.len()),
        seq![network_shown(settings.network)] + check_requests(job.names, job.names.len()),
        opening(settings, AfterOpen::Read { file: job.key + ".cose.key"@, after }),
        opening_replies(a.o) + reading_replies(a.r),
        opening_requests(settings, a.o) + reading_requests(encryptor_of(a.o), job.key, a.r),
        keyed,
        seq![Reply::<Model>::Bytes(a.public_key)] + sign_replies(job.names, a),
        seq![Request::<Model>::Ed25519PublicKey { secret: a.secret }] + sign_requests(job.names, a),
        all,
    );
}

/// The job that a command gives, with its names and its author.
spec fn job_of(command: Option<Commands>) -> Job<Model> {
    match command {
        Some(Commands::Preview { fee, key, names }) => Job {
            names: names_in(names@),
            fee,
            key: key@,
            funding: None,
        },
        Some(Commands::Inscribe { txid, txout_json, addr, fee, key, names }) => Job {
            names: names_in(names@),
            fee,
            key: key@,
            funding: Some(Funding { txid: txid@, txout_json: txout_json@, addr: addr@ }),
        },
        _ => arbitrary(),
    }
}

/// Whether a command previews or inscribes names with the key of an author.
pub open spec fn registers(command: Option<Commands>, listed: String, author: String) -> bool {
    match command {
        Some(Commands::Preview { key, names, .. }) => key == author && names == listed,
        Some(Commands::Inscribe { key, names, .. }) => key == author && names == listed,
        _ => false,
    }
}

/// A name that is not valid ends a command, once all before it were valid and before any key is
/// read.
pub proof fn an_invalid_name_is_refused(run: Run, listed: String, author: String, k: nat)
    requires
        registers(run.command, listed, author),
        k < names_in(listed@).len() <= usize::MAX,
        run.replies == seq![Reply::<Model>::Done] + check_replies(k) + seq![
            Reply::<Model>::Verdict(false),
        ],
    ensures
        does(
            run,
            seq![network_shown(run.settings.network)] + check_requests(names_in(listed@), k)
                + seq![Request::<Model>::CheckName { name: names_in(listed@)[k as int] }],
            Outcome::Failure(Failure::InvalidName { name: names_in(listed@)[k as int] }),
        ),
{
    let settings = run.settings;
    let job = job_of(run.command);
    let names = names_in(listed@);
    let outcome: Outcome<Model> = Outcome::Failure(
        Failure::InvalidName { name: names[k as int] },
    );
    let last_reply = seq![Reply::<Model>::Verdict(false)];
    let last_request = seq![Request::<Model>::CheckName { name: names[k as int] }];
    names_are_checked(settings, job, 0, k as int);
    assert(job.names.skip(0) =~= job.names);
    assert(goes(
        settings,
        register_begun(settings, job),
        seq![Reply::<Model>::Done],
        seq![network_shown(settings.network)],
        checking(settings, job, 0),
    )) by {
        reveal_with_fuel(goes, 2);
    }
    assert(goes(
        settings,
        checking(settings, job, k as int),
        last_reply,
        last_request,
        over(outcome),
    )) by {
        reveal_with_fuel(goes, 2);
    }
    goes_on_twice(
        settings,
        register_begun(settings, job),
        seq![Reply::<Model>::Done],
        seq![network_shown(settings.network)],
        checking(settings, job, 0),
        check_replies(k),
        check_requests(names, k),
        checking(settings, job, k as int),
        last_reply,
        last_request,
        over(outcome),
    );
    run_does(
        run,
        seq![network_shown(settings.network)] + check_requests(names, k) + last_request,
        outcome,
    );
}

/// Why a key cannot author names, if it cannot: it is on another curve, or holds no secret.
pub open spec fn author_refusal(r: Reading, name: Seq<char>) -> Option<Failure<Model>> {
    if !r.facts.ed25519 {
        Some(Failure::NotEd25519 { name })
    } else {
        match r.facts.secret {
            Ok(_) => None,
            Err(messages) => Some(Failure::Outside { messages }),
        }
    }
}

/// A key without an Ed25519 secret authors no names.
pub proof fn another_key_authors_no_names(
    run: Run,
    listed: String,
    author: String,
    o: Opening,
    r: Reading,
    failure: Failure<Model>,
)
    requires
        registers(run.command, listed, author),
        names_in(listed@).len() <= usize::MAX,
        opens(run.settings, o),
        reads(r),
        author_refusal(r, author@) == Some(failure),
        run.replies == seq![Reply::<Model>::Done] + check_replies(names_in(listed@).len()) + (
        opening_replies(o) + reading_replies(r)),
    ensures
        does(
            run,
            seq![network_shown(run.settings.network)] + check_requests(
                names_in(listed@),
                names_in(listed@).len(),
            ) + (opening_requests(run.settings, o) + reading_requests(
                encryptor_of(o),
                author@,
                r,
            )),
            Outcome::Failure(failure),
        ),
{
    let settings = run.settings;
    let job = job_of(run.command);
    let names = names_in(listed@);
    let none = Seq::<Reply<Model>>::empty();
    let nothing = Seq::<Request<Model>>::empty();
    let first_replies = seq![Reply::<Model>::Done] + check_replies(names.len());
    let first_requests = seq![network_shown(settings.network)] + check_requests(names, names.len());
    let front = first_requests + (opening_requests(settings, o) + reading_requests(
        encryptor_of(o),
        author@,
        r,
    ));
    names_are_between_commas(listed@);
    names_begin(settings, job);
    assert(run.replies =~= first_replies + (opening_replies(o) + reading_replies(r)) + none);
    assert(front + nothing =~= front);
    a_run_with_a_key_does(
        run,
        first_replies,
        first_requests,
        o,
        author@,
        r,
        AfterRead::Author { job },
        none,
        nothing,
        Outcome::Failure(failure),
    );
}

/// The lines that show how many names there are and how large each transaction is.
pub open spec fn sizes_shown(count: nat, sizes: PreviewSizes) -> Seq<char> {
    "inscriptions: "@ + decimal(count) + ("\ncommit_tx: "@ + (decimal(sizes.commit_size as nat)
        + " bytes, "@ + (decimal(sizes.commit_vsize as nat) + " vBytes"@))) + ("\nreveal_tx: "@ + (
    decimal(sizes.reveal_size as nat) + " bytes, "@ + (decimal(sizes.reveal_vsize as nat)
        + " vBytes"@)))
}

/// Whether the sizes of both transactions add up.
pub open spec fn sizes_add_up(sizes: PreviewSizes) -> bool {
    &&& sizes.commit_size + sizes.reveal_size <= usize::MAX
    &&& sizes.commit_vsize + sizes.reveal_vsize <= usize::MAX
}

/// A preview shows the sizes of both transactions, what they come to, the fee and the least
/// balance. It is of exactly the names that are listed, as their author signed them.
pub proof fn names_are_previewed(
    run: Run,
    fee: u64,
    key: String,
    names: String,
    a: Authoring,
    sizes: PreviewSizes,
    output: u64,
)
    requires
        run.command == Some(Commands::Preview { fee, key, names }),
        authors(run.settings, names_in(names@), a),
        sizes_add_up(sizes),
        sizes.reveal_output == Some(output),
        output <= sizes.min_balance,
        run.replies == authoring_replies(names_in(names@), a) + seq![
        Reply::<Model>::Sizes(sizes),
        Reply::Done,
        Reply::Done,
        Reply::Done,
    ],
    ensures
        does(
            run,
            authoring_requests(run.settings, names_in(names@), key@, a) + seq![
            Request::<Model>::Preview { names: signed_names(names_in(names@), a), fee_rate: fee },
            Request::Print { text: sizes_shown(names_in(names@).len(), sizes) },
            Request::Print {
                text: "total bytes: "@ + decimal((sizes.commit_size + sizes.reveal_size) as nat) + (
                ", "@ + decimal((sizes.commit_vsize + sizes.reveal_vsize) as nat) + " vBytes"@),
            },
            Request::Print {
                text: "estimate fee: "@ + amount_text((sizes.min_balance - output) as nat) + (
                "\nmin balance (fee + min change): "@ + amount_text(sizes.min_balance as nat)),
            },
        ],
            Outcome::Success,
        ),
{
    let settings = run.settings;
    let job = job_of(run.command);
    let listed = names_in(names@);
    let kek = KekEncryptor::<Model> { encryptor: encryptor_of(a.o) };
    let signed = signing(kek, a.secret, a.public_key, job, signed_names(listed, a));
    let outcome: Outcome<Model> = Outcome::Success;
    let replies = seq![
        Reply::<Model>::Sizes(sizes),
        Reply::Done,
        Reply::Done,
        Reply::Done,
    ];
    let requests = seq![
        Request::<Model>::Preview { names: signed_names(names_in(names@), a), fee_rate: fee },
        Request::Print { text: sizes_shown(names_in(names@).len(), sizes) },
        Request::Print {
            text: "total bytes: "@ + decimal((sizes.commit_size + sizes.reveal_size) as nat) + (
            ", "@ + decimal((sizes.commit_vsize + sizes.reveal_vsize) as nat) + " vBytes"@),
        },
        Request::Print {
            text: "estimate fee: "@ + amount_text((sizes.min_balance - output) as nat) + (
            "\nmin balance (fee + min change): "@ + amount_text(sizes.min_balance as nat)),
        },
    ];
    names_are_between_commas(names@);
    authoring_goes(settings, job, a);
    assert(goes(settings, signed, replies, requests, over(outcome))) by {
        reveal_with_fuel(goes, 5);
    }
    goes_on(
        settings,
        register_begun(settings, job),
        authoring_replies(listed, a),
        authoring_requests(settings, listed, key@, a),
        signed,
        replies,
        requests,
        over(outcome),
    );
    run_does(run, authoring_requests(settings, listed, key@, a) + requests, outcome);
}

/// A preview panics where the sizes of both transactions do not add up.
pub proof fn sizes_that_do_not_add_up_panic(
    run: Run,
    fee: u64,
    key: String,
    names: String,
    a: Authoring,
    sizes: PreviewSizes,
)
    requires
        run.command == Some(Commands::Preview { fee, key, names }),
        authors(run.settings, names_in(names@), a),
        !sizes_add_up(sizes),
        run.replies == authoring_replies(names_in(names@), a) + seq![
            Reply::<Model>::Sizes(sizes),
            Reply::Done,
        ],
    ensures
        does(
            run,
            authoring_requests(run.settings, names_in(names@), key@, a) + seq![
            Request::<Model>::Preview { names: signed_names(names_in(names@), a), fee_rate: fee },
            Request::Print { text: sizes_shown(names_in(names@).len(), sizes) },
        ],
            Outcome::Panic(Defect::OutOfRange),
        ),
{
    let settings = run.settings;
    let job = job_of(run.command);
    let listed = names_in(names@);
    let kek = KekEncryptor::<Model> { encryptor: encryptor_of(a.o) };
    let signed = signing(kek, a.secret, a.public_key, job, signed_names(listed, a));
    let outcome: Outcome<Model> = Outcome::Panic(Defect::OutOfRange);
    let replies = seq![Reply::<Model>::Sizes(sizes), Reply::Done];
    let requests = seq![
        Request::<Model>::Preview { names: signed_names(names_in(names@), a), fee_rate: fee },
        Request::Print { text: sizes_shown(names_in(names@).len(), sizes) },
    ];
    names_are_between_commas(names@);
    authoring_goes(settings, job, a);
    assert(goes(settings, signed, replies, requests, over(outcome))) by {
        reveal_with_fuel(goes, 3);
    }
    goes_on(
        settings,
        register_begun(settings, job),
        authoring_replies(listed, a),
        authoring_requests(settings, listed, key@, a),
        signed,
        replies,
        requests,
        over(outcome),
    );
    run_does(run, authoring_requests(settings, listed, key@, a) + requests, outcome);
}

/// A preview panics where the transaction that reveals the names has no output.
pub proof fn a_reveal_without_an_output_panics(
    run: Run,
    fee: u64,
    key: String,
    names: String,
    a: Authoring,
    sizes: PreviewSizes,
)
    requires
        run.command == Some(Commands::Preview { fee, key, names }),
        authors(run.settings, names_in(names@), a),
        sizes_add_up(sizes),
        sizes.reveal_output is None,
        run.replies == authoring_replies(names_in(names@), a) + seq![
            Reply::<Model>::Sizes(sizes),
            Reply::Done,
            Reply::Done,
        ],
    ensures
        does(
            run,
            authoring_requests(run.settings, names_in(names@), key@, a) + seq![
            Request::<Model>::Preview { names: signed_names(names_in(names@), a), fee_rate: fee },
            Request::Print { text: sizes_shown(names_in(names@).len(), sizes) },
            Request::Print {
                text: "total bytes: "@ + decimal((sizes.commit_size + sizes.reveal_size) as nat) + (
                ", "@ + decimal((sizes.commit_vsize + sizes.reveal_vsize) as nat) + " vBytes"@),
            },
        ],
            Outcome::Panic(Defect::NoRevealOutput),
        ),
{
    let settings = run.settings;
    let job = job_of(run.command);
    let listed = names_in(names@);
    let kek = KekEncryptor::<Model> { encryptor: encryptor_of(a.o) };
    let signed = signing(kek, a.secret, a.public_key, job, signed_names(listed, a));
    let outcome: Outcome<Model> = Outcome::Panic(Defect::NoRevealOutput);
    let replies = seq![Reply::<Model>::Sizes(sizes), Reply::Done, Reply::Done];
    let requests = seq![
        Request::<Model>::Preview { names: signed_names(names_in(names@), a), fee_rate: fee },
        Request::Print { text: sizes_shown(names_in(names@).len(), sizes) },
        Request::Print {
            text: "total bytes: "@ + decimal((sizes.commit_size + sizes.reveal_size) as nat) + (
            ", "@ + decimal((sizes.commit_vsize + sizes.reveal_vsize) as nat) + " vBytes"@),
        },
    ];
    names_are_between_commas(names@);
    authoring_goes(settings, job, a);
    assert(goes(settings, signed, replies, requests, over(outcome))) by {
        reveal_with_fuel(goes, 4);
    }
    goes_on(
        settings,
        register_begun(settings, job),
        authoring_replies(listed, a),
        authoring_requests(settings, listed, key@, a),
        signed,
        replies,
        requests,
        over(outcome),
    );
    run_does(run, authoring_requests(settings, listed, key@, a) + requests, outcome);
}

/// A preview panics where the output is worth more than the least balance.
pub proof fn an_output_above_the_balance_panics(
    run: Run,
    fee: u64,
    key: String,
    names: String,
    a: Authoring,
    sizes: PreviewSizes,
    output: u64,
)
    requires
        run.command == Some(Commands::Preview { fee, key, names }),
        authors(run.settings, names_in(names@), a),
        sizes_add_up(sizes),
        sizes.reveal_output == Some(output),
        output > sizes.min_balance,
        run.replies == authoring_replies(names_in(names@), a) + seq![
            Reply::<Model>::Sizes(sizes),
            Reply::Done,
            Reply::Done,
        ],
    ensures
        does(
            run,
            authoring_requests(run.settings, names_in(names@), key@, a) + seq![
            Request::<Model>::Preview { names: signed_names(names_in(names@), a), fee_rate: fee },
            Request::Print { text: sizes_shown(names_in(names@).len(), sizes) },
            Request::Print {
                text: "total bytes: "@ + decimal((sizes.commit_size + sizes.reveal_size) as nat) + (
                ", "@ + decimal((sizes.commit_vsize + sizes.reveal_vsize) as nat) + " vBytes"@),
            },
        ],
            Outcome::Panic(Defect::OutOfRange),
        ),
{
    let settings = run.settings;
    let job = job_of(run.command);
    let listed = names_in(names@);
    let kek = KekEncryptor::<Model> { encryptor: encryptor_of(a.o) };
    let signed = signing(kek, a.secret, a.public_key, job, signed_names(listed, a));
    let outcome: Outcome<Model> = Outcome::Panic(Defect::OutOfRange);
    let replies = seq![Reply::<Model>::Sizes(sizes), Reply::Done, Reply::Done];
    let requests = seq![
        Request::<Model>::Preview { names: signed_names(names_in(names@), a), fee_rate: fee },
        Request::Print { text: sizes_shown(names_in(names@).len(), sizes) },
        Request::Print {
            text: "total bytes: "@ + decimal((sizes.commit_size + sizes.reveal_size) as nat) + (
            ", "@ + decimal((sizes.commit_vsize + sizes.reveal_vsize) as nat) + " vBytes"@),
        },
    ];
    names_are_between_commas(names@);
    authoring_goes(settings, job, a);
    assert(goes(settings, signed, replies, requests, over(outcome))) by {
        reveal_with_fuel(goes, 4);
    }
    goes_on(
        settings,
        register_begun(settings, job),
        authoring_replies(listed, a),
        authoring_requests(settings, listed, key@, a),
        signed,
        replies,
        requests,
        over(outcome),
    );
    run_does(run, authoring_requests(settings, listed, key@, a) + requests, outcome);
}

/// The command to inscribe names.
pub struct Inscribing {
    /// The transaction to spend.
    pub txid: String,
    /// The output to spend, or nothing.
    pub txout_json: String,
    /// The address whose key pays.
    pub addr: String,
    /// The fee rate.
    pub fee: u64,
    /// The key of the author.
    pub key: String,
    /// The names.
    pub names: String,
}

/// Whether a run inscribes names.
pub open spec fn inscribes(run: Run, c: Inscribing) -> bool {
    run.command == Some(
        Commands::Inscribe {
            txid: c.txid,
            txout_json: c.txout_json,
            addr: c.addr,
            fee: c.fee,
            key: c.key,
            names: c.names,
        },
    )
}

/// Whether a reading gives a secret that can pay.
pub open spec fn pays_with(p: Reading, payer: Seq<u8>) -> bool {
    &&& reads(p)
    &&& p.facts.secp256k1
    &&& p.facts.secret == Ok::<Seq<u8>, Seq<Seq<char>>>(payer)
    &&& valid_secret_key(payer)
}

/// A run that inscribes names, from the reading of the key that pays to its end.
proof fn an_inscribing_does(
    run: Run,
    c: Inscribing,
    a: Authoring,
    p: Reading,
    replies: Seq<Reply<Model>>,
    requests: Seq<Request<Model>>,
    outcome: Outcome<Model>,
)
    requires
        inscribes(run, c),
        authors(run.settings, names_in(c.names@), a),
        reads(p),
        run.replies == authoring_replies(names_in(c.names@), a) + reading_replies(p) + replies,
        goes(
            run.settings,
            obtained(
                run.settings,
                KekEncryptor { encryptor: encryptor_of(a.o) },
                p.key,
                p.facts,
                payer_read(c, a),
            ),
            replies,
            requests,
            over(outcome),
        ),
    ensures
        does(
            run,
            authoring_requests(run.settings, names_in(c.names@), c.key@, a) + reading_requests(
                encryptor_of(a.o),
                c.addr@,
                p,
            ) + requests,
            outcome,
        ),
{
    let settings = run.settings;
    let job = job_of(run.command);
    let listed = names_in(c.names@);
    let kek = KekEncryptor::<Model> { encryptor: encryptor_of(a.o) };
    let signed = signing(kek, a.secret, a.public_key, job, signed_names(listed, a));
    let after = payer_read(c, a);
    names_are_between_commas(c.names@);
    authoring_goes(settings, job, a);
    a_reading_goes(settings, encryptor_of(a.o), c.addr@, p, after);
    assert(signed == reading(kek, c.addr@ + ".cose.key"@, after));
    goes_on_twice(
        settings,
        register_begun(settings, job),
        authoring_replies(listed, a),
        authoring_requests(settings, listed, c.key@, a),
        signed,
        reading_replies(p),
        reading_requests(encryptor_of(a.o), c.addr@, p),
        obtained(settings, kek, p.key, p.facts, after),
        replies,
        requests,
        over(outcome),
    );
    run_does(
        run,
        authoring_requests(settings, listed, c.key@, a) + reading_requests(
            encryptor_of(a.o),
            c.addr@,
            p,
        ) + requests,
        outcome,
    );
}

/// What follows the reading of the key that pays.
spec fn payer_read(c: Inscribing, a: Authoring) -> AfterRead<Model> {
    AfterRead::Payer {
        name: c.key@,
        fee: c.fee,
        funding: Funding { txid: c.txid@, txout_json: c.txout_json@, addr: c.addr@ },
        names: signed_names(names_in(c.names@), a),
    }
}

/// Names that are signed go on to the key that pays.
pub proof fn the_payer_is_read(run: Run, c: Inscribing, a: Authoring) -> (after: AfterRead<Model>)
    requires
        inscribes(run, c),
        authors(run.settings, names_in(c.names@), a),
    ensures
        goes(
            run.settings,
            started(run.settings, run.command),
            authoring_replies(names_in(c.names@), a),
            authoring_requests(run.settings, names_in(c.names@), c.key@, a),
            reading(KekEncryptor { encryptor: encryptor_of(a.o) }, c.addr@ + ".cose.key"@, after),
        ),
{
    names_are_between_commas(c.names@);
    authoring_goes(run.settings, job_of(run.command), a);
    payer_read(c, a)
}

/// Where only a transaction is given, exactly the names that are listed are inscribed, as their
/// author signed them, with the first output of the transaction that pays to the payer.
pub proof fn names_are_inscribed_with_a_transaction(
    run: Run,
    c: Inscribing,
    a: Authoring,
    p: Reading,
    payer: Seq<u8>,
    url: Seq<char>,
    p2wpkh: Seq<u8>,
    p2tr: Seq<u8>,
    outputs: Seq<TxOutput<Seq<u8>>>,
    i: int,
    sent: Seq<char>,
)
    requires
        inscribes(run, c),
        authors(run.settings, names_in(c.names@), a),
        pays_with(p, payer),
        run.settings.rpc_url == Some(url),
        c.txout_json@.len() == 0,
        c.txid@.len() == 64,
        is_hex(c.txid@),
        pays_first(outputs, i, p2wpkh, p2tr, None),
        run.replies == authoring_replies(names_in(c.names@), a) + reading_replies(p) + seq![
            Reply::<Model>::Scripts { p2wpkh, p2tr },
            Reply::Done,
            Reply::Done,
            Reply::Outputs(outputs),
            Reply::Text(sent),
            Reply::Done,
        ],
    ensures
        does(
            run,
            authoring_requests(run.settings, names_in(c.names@), c.key@, a) + reading_requests(
                encryptor_of(a.o),
                c.addr@,
                p,
            ) + (seq![Request::<Model>::ScriptPubkeys { secret: payer }] + node_requests(
                run.settings,
                url,
            ) + seq![
                Request::<Model>::FetchTransaction { txid: hex_bytes(c.txid@).reverse() },
                Request::Inscribe {
                    names: signed_names(names_in(c.names@), a),
                    fee_rate: c.fee,
                    secret: payer,
                    unspent: UnspentTxOut {
                        txid: hex_bytes(c.txid@).reverse(),
                        vout: i as u32,
                        amount: outputs[i].value,
                        script_pubkey: outputs[i].script_pubkey,
                    },
                },
                Request::Print { text: "txid: "@ + sent },
            ]),
            Outcome::Success,
        ),
{
    let kek = KekEncryptor::<Model> { encryptor: encryptor_of(a.o) };
    let outcome: Outcome<Model> = Outcome::Success;
    let replies = seq![
        Reply::<Model>::Scripts { p2wpkh, p2tr },
        Reply::Done,
        Reply::Done,
        Reply::Outputs(outputs),
        Reply::Text(sent),
        Reply::Done,
    ];
    let requests = (seq![Request::<Model>::ScriptPubkeys { secret: payer }] + node_requests(
        run.settings,
        url,
    ) + seq![
            Request::<Model>::FetchTransaction { txid: hex_bytes(c.txid@).reverse() },
            Request::Inscribe {
                names: signed_names(names_in(c.names@), a),
                fee_rate: c.fee,
                secret: payer,
                unspent: UnspentTxOut {
                    txid: hex_bytes(c.txid@).reverse(),
                    vout: i as u32,
                    amount: outputs[i].value,
                    script_pubkey: outputs[i].script_pubkey,
                },
            },
            Request::Print { text: "txid: "@ + sent },
        ]);
    the_first_paying_output_is_chosen(
        hex_bytes(c.txid@).reverse(),
        outputs,
        p2wpkh,
        p2tr,
        None,
        i,
    );
    assert(goes(
        run.settings,
        obtained(run.settings, kek, p.key, p.facts, payer_read(c, a)),
        replies,
        requests,
        over(outcome),
    )) by {
        reveal_with_fuel(goes, 7);
    }
    an_inscribing_does(run, c, a, p, replies, requests, outcome);
}

/// Where no output of the transaction pays to the payer, nothing is inscribed.
pub proof fn names_are_not_inscribed_without_an_output(
    run: Run,
    c: Inscribing,
    a: Authoring,
    p: Reading,
    payer: Seq<u8>,
    url: Seq<char>,
    p2wpkh: Seq<u8>,
    p2tr: Seq<u8>,
    outputs: Seq<TxOutput<Seq<u8>>>,
)
    requires
        inscribes(run, c),
        authors(run.settings, names_in(c.names@), a),
        pays_with(p, payer),
        run.settings.rpc_url == Some(url),
        c.txout_json@.len() == 0,
        c.txid@.len() == 64,
        is_hex(c.txid@),
        none_pays(outputs, p2wpkh, p2tr, None),
        run.replies == authoring_replies(names_in(c.names@), a) + reading_replies(p) + seq![
            Reply::<Model>::Scripts { p2wpkh, p2tr },
            Reply::Done,
            Reply::Done,
            Reply::Outputs(outputs),
        ],
    ensures
        does(
            run,
            authoring_requests(run.settings, names_in(c.names@), c.key@, a) + reading_requests(
                encryptor_of(a.o),
                c.addr@,
                p,
            ) + (seq![Request::<Model>::ScriptPubkeys { secret: payer }] + node_requests(
                run.settings,
                url,
            ) + seq![
                Request::<Model>::FetchTransaction { txid: hex_bytes(c.txid@).reverse() },
            ]),
            Outcome::Failure(Failure::NoMatchedOutput),
        ),
{
    let kek = KekEncryptor::<Model> { encryptor: encryptor_of(a.o) };
    let outcome: Outcome<Model> = Outcome::Failure(Failure::NoMatchedOutput);
    let replies = seq![
        Reply::<Model>::Scripts { p2wpkh, p2tr },
        Reply::Done,
        Reply::Done,
        Reply::Outputs(outputs),
    ];
    let requests = (seq![Request::<Model>::ScriptPubkeys { secret: payer }] + node_requests(
        run.settings,
        url,
    ) + seq![
            Request::<Model>::FetchTransaction { txid: hex_bytes(c.txid@).reverse() },
        ]);
    the_first_paying_output_is_chosen(
        hex_bytes(c.txid@).reverse(),
        outputs,
        p2wpkh,
        p2tr,
        None,
        0,
    );
    assert(goes(
        run.settings,
        obtained(run.settings, kek, p.key, p.facts, payer_read(c, a)),
        replies,
        requests,
        over(outcome),
    )) by {
        reveal_with_fuel(goes, 5);
    }
    an_inscribing_does(run, c, a, p, replies, requests, outcome);
}

/// Where an output is given, or no transaction, exactly the names that are listed are inscribed, as
/// their author signed them, with the output that was read.
pub proof fn names_are_inscribed_with_an_output(
    run: Run,
    c: Inscribing,
    a: Authoring,
    p: Reading,
    payer: Seq<u8>,
    url: Seq<char>,
    p2wpkh: Seq<u8>,
    p2tr: Seq<u8>,
    unspent: UnspentTxOut<Model>,
    sent: Seq<char>,
)
    requires
        inscribes(run, c),
        authors(run.settings, names_in(c.names@), a),
        pays_with(p, payer),
        run.settings.rpc_url == Some(url),
        c.txout_json@.len() > 0 || c.txid@.len() == 0,
        run.replies == authoring_replies(names_in(c.names@), a) + reading_replies(p) + seq![
            Reply::<Model>::Scripts { p2wpkh, p2tr },
            Reply::Done,
            Reply::Done,
            Reply::Unspent(unspent),
            Reply::Text(sent),
            Reply::Done,
        ],
    ensures
        does(
            run,
            authoring_requests(run.settings, names_in(c.names@), c.key@, a) + reading_requests(
                encryptor_of(a.o),
                c.addr@,
                p,
            ) + (seq![Request::<Model>::ScriptPubkeys { secret: payer }] + node_requests(
                run.settings,
                url,
            ) + seq![
                Request::<Model>::ReadTxOut { json: c.txout_json@ },
                Request::Inscribe {
                    names: signed_names(names_in(c.names@), a),
                    fee_rate: c.fee,
                    secret: payer,
                    unspent,
                },
                Request::Print { text: "txid: "@ + sent },
            ]),
            Outcome::Success,
        ),
{
    let kek = KekEncryptor::<Model> { encryptor: encryptor_of(a.o) };
    let outcome: Outcome<Model> = Outcome::Success;
    let replies = seq![
        Reply::<Model>::Scripts { p2wpkh, p2tr },
        Reply::Done,
        Reply::Done,
        Reply::Unspent(unspent),
        Reply::Text(sent),
        Reply::Done,
    ];
    let requests = (seq![Request::<Model>::ScriptPubkeys { secret: payer }] + node_requests(
        run.settings,
        url,
    ) + seq![
            Request::<Model>::ReadTxOut { json: c.txout_json@ },
            Request::Inscribe {
                names: signed_names(names_in(c.names@), a),
                fee_rate: c.fee,
                secret: payer,
                unspent,
            },
            Request::Print { text: "txid: "@ + sent },
        ]);
    assert(goes(
        run.settings,
        obtained(run.settings, kek, p.key, p.facts, payer_read(c, a)),
        replies,
        requests,
        over(outcome),
    )) by {
        reveal_with_fuel(goes, 7);
    }
    an_inscribing_does(run, c, a, p, replies, requests, outcome);
}

/// Where only a transaction is given, and it is not one, nothing is inscribed.
pub proof fn names_are_not_inscribed_with_a_bad_transaction(
    run: Run,
    c: Inscribing,
    a: Authoring,
    p: Reading,
    payer: Seq<u8>,
    url: Seq<char>,
    p2wpkh: Seq<u8>,
    p2tr: Seq<u8>,
)
    requires
        inscribes(run, c),
        authors(run.settings, names_in(c.names@), a),
        pays_with(p, payer),
        run.settings.rpc_url == Some(url),
        c.txout_json@.len() == 0,
        c.txid@.len() > 0,
        !(c.txid@.len() == 64 && is_hex(c.txid@)),
        run.replies == authoring_replies(names_in(c.names@), a) + reading_replies(p) + seq![
            Reply::<Model>::Scripts { p2wpkh, p2tr },
            Reply::Done,
            Reply::Done,
        ],
    ensures
        does(
            run,
            authoring_requests(run.settings, names_in(c.names@), c.key@, a) + reading_requests(
                encryptor_of(a.o),
                c.addr@,
                p,
            ) + (seq![Request::<Model>::ScriptPubkeys { secret: payer }] + node_requests(
                run.settings,
                url,
            )),
            Outcome::Failure(Failure::Outside { messages: txid_error(c.txid@) }),
        ),
{
    let kek = KekEncryptor::<Model> { encryptor: encryptor_of(a.o) };
    let outcome: Outcome<Model> = Outcome::Failure(
        Failure::Outside { messages: txid_error(c.txid@) },
    );
    let replies = seq![Reply::<Model>::Scripts { p2wpkh, p2tr }, Reply::Done, Reply::Done];
    let requests = (seq![Request::<Model>::ScriptPubkeys { secret: payer }] + node_requests(
        run.settings,
        url,
    ));
    assert(goes(
        run.settings,
        obtained(run.settings, kek, p.key, p.facts, payer_read(c, a)),
        replies,
        requests,
        over(outcome),
    )) by {
        reveal_with_fuel(goes, 4);
    }
    an_inscribing_does(run, c, a, p, replies, requests, outcome);
}

/// Without a node in the settings the program panics once it wants it.
pub proof fn names_are_not_inscribed_without_a_node(
    run: Run,
    c: Inscribing,
    a: Authoring,
    p: Reading,
    payer: Seq<u8>,
    p2wpkh: Seq<u8>,
    p2tr: Seq<u8>,
)
    requires
        inscribes(run, c),
        authors(run.settings, names_in(c.names@), a),
        pays_with(p, payer),
        run.settings.rpc_url is None,
        run.replies == authoring_replies(names_in(c.names@), a) + reading_replies(p) + seq![
            Reply::<Model>::Scripts { p2wpkh, p2tr },
        ],
    ensures
        does(
            run,
            authoring_requests(run.settings, names_in(c.names@), c.key@, a) + reading_requests(
                encryptor_of(a.o),
                c.addr@,
                p,
            ) + seq![Request::<Model>::ScriptPubkeys { secret: payer }],
            Outcome::Panic(Defect::RpcUrlMissing),
        ),
{
    let kek = KekEncryptor::<Model> { encryptor: encryptor_of(a.o) };
    let outcome: Outcome<Model> = Outcome::Panic(Defect::RpcUrlMissing);
    let replies = seq![Reply::<Model>::Scripts { p2wpkh, p2tr }];
    let requests = seq![Request::<Model>::ScriptPubkeys { secret: payer }];
    assert(goes(
        run.settings,
        obtained(run.settings, kek, p.key, p.facts, payer_read(c, a)),
        replies,
        requests,
        over(outcome),
    )) by {
        reveal_with_fuel(goes, 2);
    }
    an_inscribing_does(run, c, a, p, replies, requests, outcome);
}

/// A key without a usable secp256k1 secret pays for no names.
pub proof fn names_are_not_inscribed_with_another_key(
    run: Run,
    c: Inscribing,
    a: Authoring,
    p: Reading,
    failure: Failure<Model>,
)
    requires
        inscribes(run, c),
        authors(run.settings, names_in(c.names@), a),
        reads(p),
        secp256k1_refusal(p.facts, c.key@) == Some(failure),
        run.replies == authoring_replies(names_in(c.names@), a) + reading_replies(p),
    ensures
        does(
            run,
            authoring_requests(run.settings, names_in(c.names@), c.key@, a) + reading_requests(
                encryptor_of(a.o),
                c.addr@,
                p,
            ),
            Outcome::Failure(failure),
        ),
{
    let none = Seq::<Reply<Model>>::empty();
    let nothing = Seq::<Request<Model>>::empty();
    let front = authoring_requests(run.settings, names_in(c.names@), c.key@, a) + reading_requests(
        encryptor_of(a.o),
        c.addr@,
        p,
    );
    assert(run.replies =~= authoring_replies(names_in(c.names@), a) + reading_replies(p) + none);
    assert(front + nothing =~= front);
    an_inscribing_does(run, c, a, p, none, nothing, Outcome::Failure(failure));
}

} // verus!
