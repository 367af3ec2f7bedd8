//! Names are previewed or inscribed only once each of them is checked, signed by their author and
//! validated.

use vstd::prelude::*;

use crate::cli::Commands;
use crate::cose::key_encoding;
use crate::form::{DirEntry, KeyFacts, Model, Name, ThresholdLevel};
use crate::keystore::{key_file, keystore_aad};
use crate::listing::list_from;
use crate::names::{registration, signature_request};
use crate::protection::{every_reader_was_opened, kek_is_open, protection_is_kept};
use crate::run::{Run, exchanges_are_kept, the_last_exchange};
use crate::session::next;
use crate::state::{
    AfterNode, AfterOpen, AfterRead, Job, KekEncryptor, ListStage, ReadStage, RegisterStage, State,
    Step,
};
use crate::text::names_in;
use crate::wire::{Reply, Request};

verus! {

/// What a command is asked to inscribe: the names that it lists, and the key that signs them.
pub struct Order {
    /// The names.
    pub listed: Seq<Seq<char>>,
    /// The name of the key.
    pub author: Seq<char>,
}

/// What a command is asked to preview or inscribe.
pub open spec fn ordered(command: Option<Commands>) -> Option<Order> {
    match command {
        Some(Commands::Preview { names, key, .. }) => Some(
            Order { listed: names_in(names@), author: key@ },
        ),
        Some(Commands::Inscribe { names, key, .. }) => Some(
            Order { listed: names_in(names@), author: key@ },
        ),
        _ => None,
    }
}

/// Whether a name was checked and found valid.
pub open spec fn found_valid(run: Run, name: Seq<char>) -> bool {
    run.exchanged(Request::CheckName { name }, Reply::Verdict(true))
}

/// Whether all names before an index were found valid.
pub open spec fn all_found_valid(run: Run, listed: Seq<Seq<char>>, count: int) -> bool {
    forall|k: int| 0 <= k < count ==> found_valid(run, #[trigger] listed[k])
}

/// The request to decrypt a key that was read from its file.
pub open spec fn key_decryption(kek: KekEncryptor<Model>, data: Seq<u8>) -> Request<Model> {
    Request::Decrypt { encryptor: kek.encryptor, ciphertext: data, aad: keystore_aad() }
}

/// Whether `data` is what the file of a key holds, without its tag.
pub open spec fn file_holds(run: Run, name: Seq<char>, data: Seq<u8>) -> bool {
    exists|tagged: Seq<u8>|
        {
            &&& run.exchanged(Request::ReadKeyFile { file: key_file(name) }, Reply::Bytes(tagged))
            &&& #[trigger] run.exchanged(Request::SkipTag { data: tagged }, Reply::Bytes(data))
        }
}

/// Whether `key` is the key with a name, read from its file under the opened key encryption key.
pub open spec fn key_was_read(run: Run, name: Seq<char>, key: Seq<u8>) -> bool {
    exists|kek: KekEncryptor<Model>, data: Seq<u8>, plain: Seq<u8>|
        {
            &&& kek_is_open(run, kek)
            &&& file_holds(run, name, data)
            &&& #[trigger] run.exchanged(key_decryption(kek, data), Reply::Bytes(plain))
            &&& key_encoding(plain) == Ok::<Seq<u8>, Seq<char>>(key)
        }
}

/// Whether `secret` is the secret of the Ed25519 key with a name.
pub open spec fn is_secret_of(run: Run, name: Seq<char>, secret: Seq<u8>) -> bool {
    exists|key: Seq<u8>, facts: KeyFacts<Model>|
        {
            &&& key_was_read(run, name, key)
            &&& #[trigger] run.exchanged(Request::InspectKey { key }, Reply::Facts(facts))
            &&& facts.ed25519
            &&& facts.secret == Ok::<Seq<u8>, Seq<Seq<char>>>(secret)
        }
}

/// Whether `secret` and `public_key` are the two halves of the Ed25519 key with a name.
pub open spec fn is_author(
    run: Run,
    name: Seq<char>,
    secret: Seq<u8>,
    public_key: Seq<u8>,
) -> bool {
    &&& is_secret_of(run, name, secret)
    &&& run.exchanged(Request::Ed25519PublicKey { secret }, Reply::Bytes(public_key))
}

/// Whether a name is the first registration of a listed one under a public key, signed with its
/// secret and validated.
pub open spec fn vetted(
    run: Run,
    listed: Seq<char>,
    secret: Seq<u8>,
    public_key: Seq<u8>,
    name: Name<Seq<char>, Seq<Seq<u8>>, Seq<Seq<char>>>,
) -> bool {
    &&& name == registration(listed, public_key, name.signatures)
    &&& run.exchanged(
        signature_request(listed, public_key, secret),
        Reply::Signatures(name.signatures),
    )
    &&& run.exchanged(Request::ValidateName { name }, Reply::Done)
}

/// Whether names are the first of the listed ones, each of them signed and validated.
pub open spec fn all_vetted(
    run: Run,
    listed: Seq<Seq<char>>,
    secret: Seq<u8>,
    public_key: Seq<u8>,
    names: Seq<Name<Seq<char>, Seq<Seq<u8>>, Seq<Seq<char>>>>,
) -> bool {
    &&& names.len() <= listed.len()
    &&& forall|k: int|
        0 <= k < names.len() ==> vetted(run, listed[k], secret, public_key, #[trigger] names[k])
}

/// Whether names are all of the listed ones, each of them found valid, signed with the key of the
/// author and validated.
pub open spec fn ready(
    run: Run,
    order: Order,
    names: Seq<Name<Seq<char>, Seq<Seq<u8>>, Seq<Seq<char>>>>,
) -> bool {
    &&& names.len() == order.listed.len()
    &&& all_found_valid(run, order.listed, order.listed.len() as int)
    &&& exists|secret: Seq<u8>, public_key: Seq<u8>| #[trigger]
        is_author(run, order.author, secret, public_key) && all_vetted(
            run,
            order.listed,
            secret,
            public_key,
            names,
        )
}

/// Whether a job is the one that was ordered.
spec fn is_ordered(order: Order, job: Job<Model>) -> bool {
    job.names == order.listed && job.key == order.author
}

/// What is known of the key of the author while it is read.
spec fn reading_stands(
    run: Run,
    order: Order,
    kek: KekEncryptor<Model>,
    stage: ReadStage<Model>,
    request: Request<Model>,
) -> bool {
    match stage {
        ReadStage::Data => request == (Request::<Model>::ReadKeyFile {
            file: key_file(order.author),
        }),
        ReadStage::Untag => {
            &&& request matches Request::SkipTag { data }
            &&& run.exchanged(
                Request::ReadKeyFile { file: key_file(order.author) },
                Reply::Bytes(data),
            )
        },
        ReadStage::Decrypt => exists|data: Seq<u8>| #[trigger]
            file_holds(run, order.author, data) && request == key_decryption(kek, data),
        ReadStage::Inspect { key } => {
            &&& key_was_read(run, order.author, key)
            &&& request == (Request::<Model>::InspectKey { key })
        },
    }
}

/// What is known of the listed names and of their author where a command stands.
spec fn standing(run: Run, order: Order, step: Step<Model>) -> bool {
    let valid = all_found_valid(run, order.listed, order.listed.len() as int);
    match step.state {
        State::Done => true,
        State::Closing => true,
        State::Refused => true,
        State::Open { after, .. } => match after {
            AfterOpen::Read { file, after: AfterRead::Author { job } } => {
                &&& file == key_file(order.author)
                &&& is_ordered(order, job)
                &&& valid
            },
            _ => false,
        },
        State::Read { kek, stage, after } => match after {
            AfterRead::Author { job } => {
                &&& is_ordered(order, job)
                &&& valid
                &&& reading_stands(run, order, kek, stage, step.request)
            },
            AfterRead::Payer { names, .. } => ready(run, order, names),
            _ => false,
        },
        State::Node { after, .. } => match after {
            AfterNode::Inscribe { names, .. } => ready(run, order, names),
            _ => false,
        },
        State::Register(stage) => match stage {
            RegisterStage::Network { job } => is_ordered(order, job),
            RegisterStage::Check { job, index } => {
                &&& is_ordered(order, job)
                &&& index < order.listed.len()
                &&& all_found_valid(run, order.listed, index as int)
                &&& step.request == (Request::<Model>::CheckName {
                    name: order.listed[index as int],
                })
            },
            RegisterStage::PublicKey { secret, job, .. } => {
                &&& is_ordered(order, job)
                &&& valid
                &&& is_secret_of(run, order.author, secret)
                &&& step.request == (Request::<Model>::Ed25519PublicKey { secret })
            },
            RegisterStage::Sign { secret, public_key, job, names, .. } => {
                &&& is_ordered(order, job)
                &&& valid
                &&& is_author(run, order.author, secret, public_key)
                &&& names.len() < order.listed.len()
                &&& all_vetted(run, order.listed, secret, public_key, names)
                &&& step.request == signature_request(
                    order.listed[names.len() as int],
                    public_key,
                    secret,
                )
            },
            RegisterStage::Validate { secret, public_key, job, names, name, .. } => {
                &&& is_ordered(order, job)
                &&& valid
                &&& is_author(run, order.author, secret, public_key)
                &&& names.len() < order.listed.len()
                &&& all_vetted(run, order.listed, secret, public_key, names)
                &&& name == registration(
                    order.listed[names.len() as int],
                    public_key,
                    name.signatures,
                )
                &&& run.exchanged(
                    signature_request(order.listed[names.len() as int], public_key, secret),
                    Reply::Signatures(name.signatures),
                )
                &&& step.request == (Request::<Model>::ValidateName { name })
            },
            RegisterStage::Scripts { names, .. } => ready(run, order, names),
            RegisterStage::Outputs { names, .. } => ready(run, order, names),
            RegisterStage::TxOut { names, .. } => ready(run, order, names),
            _ => true,
        },
        _ => false,
    }
}

/// Whether names that a request previews or inscribes are ready for it.
pub open spec fn asks_with_ready_names(run: Run, order: Order, request: Request<Model>) -> bool {
    match request {
        Request::Preview { names, .. } => ready(run, order, names),
        Request::Inscribe { names, .. } => ready(run, order, names),
        _ => true,
    }
}

/// What is known of an author is so after a further answer too.
proof fn authors_are_kept(run: Run)
    requires
        run.replies.len() > 0,
    ensures
        forall|name: Seq<char>, data: Seq<u8>| #[trigger]
            file_holds(run.before(), name, data) ==> file_holds(run, name, data),
        forall|name: Seq<char>, key: Seq<u8>| #[trigger]
            key_was_read(run.before(), name, key) ==> key_was_read(run, name, key),
        forall|name: Seq<char>, secret: Seq<u8>| #[trigger]
            is_secret_of(run.before(), name, secret) ==> is_secret_of(run, name, secret),
        forall|name: Seq<char>, secret: Seq<u8>, public_key: Seq<u8>| #[trigger]
            is_author(run.before(), name, secret, public_key) ==> is_author(
                run,
                name,
                secret,
                public_key,
            ),
{
    exchanges_are_kept(run);
    protection_is_kept(run);
    let before = run.before();
    assert forall|name: Seq<char>, data: Seq<u8>| #[trigger]
        file_holds(before, name, data) implies file_holds(run, name, data) by {
        let tagged = choose|tagged: Seq<u8>|
            {
                &&& before.exchanged(
                    Request::ReadKeyFile { file: key_file(name) },
                    Reply::Bytes(tagged),
                )
                &&& #[trigger] before.exchanged(
                    Request::SkipTag { data: tagged },
                    Reply::Bytes(data),
                )
            };
        assert(run.exchanged(Request::SkipTag { data: tagged }, Reply::Bytes(data)));
    }
    assert forall|name: Seq<char>, key: Seq<u8>| #[trigger]
        key_was_read(before, name, key) implies key_was_read(run, name, key) by {
        let (kek, data, plain) = choose|kek: KekEncryptor<Model>, data: Seq<u8>, plain: Seq<u8>|
            {
                &&& kek_is_open(before, kek)
                &&& file_holds(before, name, data)
                &&& #[trigger] before.exchanged(key_decryption(kek, data), Reply::Bytes(plain))
                &&& key_encoding(plain) == Ok::<Seq<u8>, Seq<char>>(key)
            };
        assert(run.exchanged(key_decryption(kek, data), Reply::Bytes(plain)));
    }
    assert forall|name: Seq<char>, secret: Seq<u8>| #[trigger]
        is_secret_of(before, name, secret) implies is_secret_of(run, name, secret) by {
        let (key, facts) = choose|key: Seq<u8>, facts: KeyFacts<Model>|
            {
                &&& key_was_read(before, name, key)
                &&& #[trigger] before.exchanged(Request::InspectKey { key }, Reply::Facts(facts))
                &&& facts.ed25519
                &&& facts.secret == Ok::<Seq<u8>, Seq<Seq<char>>>(secret)
            };
        assert(run.exchanged(Request::InspectKey { key }, Reply::Facts(facts)));
    }
}

/// What is known of names is so after a further answer too.
proof fn vetting_is_kept(run: Run)
    requires
        run.replies.len() > 0,
    ensures
        forall|listed: Seq<Seq<char>>, count: int| #[trigger]
            all_found_valid(run.before(), listed, count) ==> all_found_valid(run, listed, count),
        forall|
            listed: Seq<Seq<char>>,
            secret: Seq<u8>,
            public_key: Seq<u8>,
            names: Seq<Name<Seq<char>, Seq<Seq<u8>>, Seq<Seq<char>>>>,
        | #[trigger]
            all_vetted(run.before(), listed, secret, public_key, names) ==> all_vetted(
                run,
                listed,
                secret,
                public_key,
                names,
            ),
        forall|order: Order, names: Seq<Name<Seq<char>, Seq<Seq<u8>>, Seq<Seq<char>>>>| #[trigger]
            ready(run.before(), order, names) ==> ready(run, order, names),
{
    exchanges_are_kept(run);
    authors_are_kept(run);
    let before = run.before();
    assert forall|
        listed: Seq<Seq<char>>,
        secret: Seq<u8>,
        public_key: Seq<u8>,
        names: Seq<Name<Seq<char>, Seq<Seq<u8>>, Seq<Seq<char>>>>,
    | #[trigger]
        all_vetted(before, listed, secret, public_key, names) implies all_vetted(
        run,
        listed,
        secret,
        public_key,
        names,
    ) by {
        assert forall|k: int| 0 <= k < names.len() implies vetted(
            run,
            listed[k],
            secret,
            public_key,
            #[trigger] names[k],
        ) by {
            assert(vetted(before, listed[k], secret, public_key, names[k]));
        }
    }
    assert forall|order: Order, names: Seq<Name<Seq<char>, Seq<Seq<u8>>, Seq<Seq<char>>>>| #[trigger]
        ready(before, order, names) implies ready(run, order, names) by {
        assert(all_found_valid(before, order.listed, order.listed.len() as int));
        let (secret, public_key) = choose|secret: Seq<u8>, public_key: Seq<u8>| #[trigger]
            is_author(before, order.author, secret, public_key) && all_vetted(
                before,
                order.listed,
                secret,
                public_key,
                names,
            );
        assert(is_author(run, order.author, secret, public_key));
        assert(all_vetted(run, order.listed, secret, public_key, names));
    }
}

/// What is known of the listed names is so after a further answer too.
proof fn standing_is_kept(run: Run, order: Order, step: Step<Model>)
    requires
        run.replies.len() > 0,
        standing(run.before(), order, step),
    ensures
        standing(run, order, step),
{
    exchanges_are_kept(run);
    authors_are_kept(run);
    vetting_is_kept(run);
    if let State::Read { kek, stage: ReadStage::Decrypt, after: AfterRead::Author { .. } } =
        step.state {
        let data = choose|data: Seq<u8>| #[trigger]
            file_holds(run.before(), order.author, data) && step.request == key_decryption(
                kek,
                data,
            );
        assert(file_holds(run, order.author, data));
    }
}

/// One more name is checked.
proof fn a_check_adds(run: Run, order: Order, step: Step<Model>, reply: Reply<Model>)
    requires
        step.state matches State::Register(stage) && (stage is Network || stage is Check),
        order.listed.len() <= usize::MAX,
        standing(run, order, step),
        run.exchanged(step.request, reply),
    ensures
        standing(run, order, next(run.settings, step.state, reply)),
        asks_with_ready_names(run, order, next(run.settings, step.state, reply).request),
{
}

/// The key of the author is read on.
proof fn a_reading_goes_on(
    run: Run,
    order: Order,
    kek: KekEncryptor<Model>,
    stage: ReadStage<Model>,
    job: Job<Model>,
    step: Step<Model>,
    reply: Reply<Model>,
)
    requires
        step.state == (State::<Model>::Read { kek, stage, after: AfterRead::Author { job } }),
        kek_is_open(run, kek),
        standing(run, order, step),
        run.exchanged(step.request, reply),
    ensures
        standing(run, order, next(run.settings, step.state, reply)),
        asks_with_ready_names(run, order, next(run.settings, step.state, reply).request),
{
    let after = next(run.settings, step.state, reply);
    match (stage, reply) {
        (ReadStage::Untag, Reply::Bytes(data)) => {
            if let Request::SkipTag { data: tagged } = step.request {
                assert(run.exchanged(Request::SkipTag { data: tagged }, Reply::Bytes(data)));
            }
            assert(file_holds(run, order.author, data));
            assert(after.request == key_decryption(kek, data));
        },
        (ReadStage::Decrypt, Reply::Bytes(plain)) => {
            let data = choose|data: Seq<u8>| #[trigger]
                file_holds(run, order.author, data) && step.request == key_decryption(kek, data);
            assert(run.exchanged(key_decryption(kek, data), Reply::Bytes(plain)));
        },
        (ReadStage::Inspect { key }, Reply::Facts(facts)) => {
            assert(run.exchanged(Request::InspectKey { key }, Reply::Facts(facts)));
            if let Ok(secret) = facts.secret {
                if facts.ed25519 {
                    assert(is_secret_of(run, order.author, secret));
                }
            }
        },
        _ => {},
    }
}

/// One more name is signed or validated.
proof fn a_signature_adds(run: Run, order: Order, step: Step<Model>, reply: Reply<Model>)
    requires
        step.state matches State::Register(stage) && (stage is PublicKey || stage is Sign
            || stage is Validate),
        standing(run, order, step),
        run.exchanged(step.request, reply),
    ensures
        standing(run, order, next(run.settings, step.state, reply)),
        asks_with_ready_names(run, order, next(run.settings, step.state, reply).request),
{
    match step.state {
        State::Register(RegisterStage::PublicKey { secret, .. }) => {
            if let Reply::Bytes(public_key) = reply {
                assert(is_author(run, order.author, secret, public_key));
                assert(all_vetted(run, order.listed, secret, public_key, seq![]));
            }
        },
        State::Register(RegisterStage::Validate { secret, public_key, names, name, .. }) => {
            if reply is Done {
                assert forall|k: int| 0 <= k < names.push(name).len() implies vetted(
                    run,
                    order.listed[k],
                    secret,
                    public_key,
                    #[trigger] names.push(name)[k],
                ) by {
                    if k < names.len() {
                        assert(vetted(run, order.listed[k], secret, public_key, names[k]));
                    }
                }
                assert(all_vetted(run, order.listed, secret, public_key, names.push(name)));
            }
        },
        _ => {},
    }
}

/// Any other answer takes nothing away.
proof fn an_answer_takes_nothing(run: Run, order: Order, step: Step<Model>, reply: Reply<Model>)
    requires
        step.state matches State::Register(stage) ==> !(stage is Network || stage is Check
            || stage is PublicKey || stage is Sign || stage is Validate),
        step.state matches State::Read { after, .. } ==> !(after is Author),
        standing(run, order, step),
    ensures
        standing(run, order, next(run.settings, step.state, reply)),
        asks_with_ready_names(run, order, next(run.settings, step.state, reply).request),
{
}

/// Throughout a run, as much is known of the listed names as its place calls for.
proof fn run_vets(run: Run, order: Order)
    requires
        ordered(run.command) == Some(order),
        order.listed.len() <= usize::MAX,
    ensures
        standing(run, order, run.step()),
        asks_with_ready_names(run, order, run.step().request),
    decreases run.replies.len(),
{
    if run.replies.len() > 0 {
        let step = run.before().step();
        let reply = run.replies.last();
        run_vets(run.before(), order);
        standing_is_kept(run, order, step);
        the_last_exchange(run);
        match step.state {
            State::Read { kek, stage, after: AfterRead::Author { job } } => {
                every_reader_was_opened(run.before(), kek);
                protection_is_kept(run);
                a_reading_goes_on(run, order, kek, stage, job, step, reply);
            },
            State::Register(stage) => {
                if stage is Network || stage is Check {
                    a_check_adds(run, order, step, reply);
                } else if stage is PublicKey || stage is Sign || stage is Validate {
                    a_signature_adds(run, order, step, reply);
                } else {
                    an_answer_takes_nothing(run, order, step, reply);
                }
            },
            _ => {
                an_answer_takes_nothing(run, order, step, reply);
            },
        }
    }
}

/// Names are previewed or inscribed only once every listed one was found valid. What is previewed
/// or inscribed is the first registration of each of them in their order, under the public key and
/// signed with the secret of the author's key, which was read from its file, and validated.
pub proof fn only_vetted_names_are_inscribed(run: Run, order: Order)
    requires
        ordered(run.command) == Some(order),
        order.listed.len() <= usize::MAX,
    ensures
        asks_with_ready_names(run, order, run.step().request),
{
    run_vets(run, order);
}

/// Whether a name is the listed one, registered for the first time with one public key alone: with
/// neither a threshold, nor a kind, nor anyone who attests it.
pub open spec fn names_exactly(
    name: Name<Seq<char>, Seq<Seq<u8>>, Seq<Seq<char>>>,
    listed: Seq<char>,
    public_key: Seq<u8>,
) -> bool {
    &&& name.name == listed
    &&& name.sequence == 0
    &&& name.service.code == 0
    &&& name.service.operation.subcode == 1
    &&& name.service.operation.params.public_keys == seq![public_key]
    &&& name.service.operation.params.threshold is None
    &&& name.service.operation.params.kind is None
    &&& name.service.attesters is None
}

/// Whether names are exactly the listed ones, in their order.
pub open spec fn all_named_exactly(
    names: Seq<Name<Seq<char>, Seq<Seq<u8>>, Seq<Seq<char>>>>,
    listed: Seq<Seq<char>>,
    public_key: Seq<u8>,
) -> bool {
    &&& names.len() == listed.len()
    &&& forall|k: int|
        0 <= k < names.len() ==> names_exactly(#[trigger] names[k], listed[k], public_key)
}

/// In every run, a name that is signed or validated is exactly one of the listed ones, and the
/// names that are previewed or inscribed are exactly all of them in their order; each of them is
/// registered with the public key of the author, and signed with the secret to it.
pub proof fn every_name_is_as_listed(run: Run, order: Order)
    requires
        ordered(run.command) == Some(order),
        order.listed.len() <= usize::MAX,
    ensures
        match run.step().request {
            Request::SignName { name, params, level, secret } => exists|k: int, public_key: Seq<u8>|
                {
                    &&& 0 <= k < order.listed.len()
                    &&& names_exactly(name, #[trigger] order.listed[k], public_key)
                    &&& name.signatures.len() == 0
                    &&& params.public_keys == seq![public_key]
                    &&& params.threshold is None
                    &&& params.kind is None
                    &&& level == ThresholdLevel::All
                    &&& #[trigger] is_author(run, order.author, secret, public_key)
                },
            Request::ValidateName { name } => exists|k: int, secret: Seq<u8>, public_key: Seq<u8>|
                {
                    &&& 0 <= k < order.listed.len()
                    &&& names_exactly(name, #[trigger] order.listed[k], public_key)
                    &&& run.replies.last() == Reply::<Model>::Signatures(name.signatures)
                    &&& #[trigger] is_author(run, order.author, secret, public_key)
                },
            Request::Preview { names, .. } => exists|secret: Seq<u8>, public_key: Seq<u8>|
                #[trigger] is_author(run, order.author, secret, public_key) && all_named_exactly(
                    names,
                    order.listed,
                    public_key,
                ),
            Request::Inscribe { names, .. } => exists|secret: Seq<u8>, public_key: Seq<u8>|
                #[trigger] is_author(run, order.author, secret, public_key) && all_named_exactly(
                    names,
                    order.listed,
                    public_key,
                ),
            _ => true,
        },
{
    run_vets(run, order);
    match run.step().request {
        Request::SignName { name, params, level, secret } => {
            a_request_is_where_it_belongs(run);
            if let State::Register(RegisterStage::Sign { secret, public_key, names, .. }) =
                run.step().state {
                let k: int = names.len() as int;
                assert(names_exactly(name, order.listed[k], public_key));
                assert(is_author(run, order.author, secret, public_key));
            }
        },
        Request::ValidateName { name } => {
            a_request_is_where_it_belongs(run);
            if let State::Register(RegisterStage::Validate { secret, public_key, names, .. }) =
                run.step().state {
                let k: int = names.len() as int;
                assert(names_exactly(name, order.listed[k], public_key));
                assert(is_author(run, order.author, secret, public_key));
            }
        },
        Request::Preview { names, .. } => {
            ready_names_are_as_listed(run, order, names);
        },
        Request::Inscribe { names, .. } => {
            ready_names_are_as_listed(run, order, names);
        },
        _ => {},
    }
}

/// Names that are ready are exactly the listed ones.
proof fn ready_names_are_as_listed(
    run: Run,
    order: Order,
    names: Seq<Name<Seq<char>, Seq<Seq<u8>>, Seq<Seq<char>>>>,
)
    requires
        ready(run, order, names),
    ensures
        exists|secret: Seq<u8>, public_key: Seq<u8>| #[trigger]
            is_author(run, order.author, secret, public_key) && all_named_exactly(
                names,
                order.listed,
                public_key,
            ),
{
    let (secret, public_key) = choose|secret: Seq<u8>, public_key: Seq<u8>| #[trigger]
        is_author(run, order.author, secret, public_key) && all_vetted(
            run,
            order.listed,
            secret,
            public_key,
            names,
        );
    assert forall|k: int| 0 <= k < names.len() implies names_exactly(
        #[trigger] names[k],
        order.listed[k],
        public_key,
    ) by {
        assert(vetted(run, order.listed[k], secret, public_key, names[k]));
    }
}

/// A name is signed and validated only where a run signs and validates names; what is validated
/// bears the signatures that were answered last.
#[verifier::rlimit(60)]
proof fn a_request_is_where_it_belongs(run: Run)
    requires
        ordered(run.command) is Some,
    ensures
        run.step().request is SignName ==> (run.step().state matches State::Register(stage) && stage
            is Sign),
        run.step().request is ValidateName ==> (run.step().state matches State::Register(stage)
            && stage is Validate),
        run.step().request matches Request::ValidateName { name } ==> run.replies.len() > 0
            && run.replies.last() == Reply::<Model>::Signatures(name.signatures),
{
    if run.replies.len() > 0 {
        let state = run.before().step().state;
        let reply = run.replies.last();
        if let State::List(stage) = state {
            match stage {
                ListStage::Entries { kek } => {
                    if let Reply::Entries(entries) = reply {
                        list_names_nothing(kek, entries, 0);
                    }
                },
                ListStage::Untag { entries, index } => {
                    list_names_nothing(None, entries, index + 1);
                },
                ListStage::Shown { kek, entries, index } => {
                    list_names_nothing(kek, entries, index + 1);
                },
                _ => {},
            }
        }
    }
}

/// A list signs and validates no names.
proof fn list_names_nothing(
    kek: Option<KekEncryptor<Model>>,
    entries: Seq<DirEntry<Seq<char>>>,
    from: int,
)
    ensures
        !(list_from(kek, entries, from).request is SignName),
        !(list_from(kek, entries, from).request is ValidateName),
    decreases entries.len() - from,
{
    if from < entries.len() && entries[from] is Other {
        list_names_nothing(kek, entries, from + 1);
    }
}

} // verus!
