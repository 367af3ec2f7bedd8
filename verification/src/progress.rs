//! Every run ends, whatever it is answered.

use vstd::prelude::*;

use crate::cli::Commands;
use crate::form::{DirEntry, Model};
use crate::listing::list_from;
use crate::session::{next, started};
use crate::state::{
    AfterOpen, AfterRead, DeriveStage, ExportStage, ImportStage, KekEncryptor, ListStage,
    NewKekStage, NodeStage, OpenStage, ReadStage, RegisterStage, SaveStage, SeedStage, SendStage,
    Settings, SignStage, State, VerifyStage, failed_outside, misreplied,
};
use crate::wire::{Defect, Outcome, Reply, Request};

verus! {

/// How much is left to do: first in phases, and within a phase in steps.
pub struct Remaining {
    /// The phases.
    pub phases: nat,
    /// The steps within a phase.
    pub steps: nat,
}

/// Whether less is left to do.
pub open spec fn less(a: Remaining, b: Remaining) -> bool {
    a.phases < b.phases || (a.phases == b.phases && a.steps < b.steps)
}

/// The phases that follow once a key is read.
pub open spec fn phases_after_read(after: AfterRead<Model>) -> nat {
    match after {
        AfterRead::Export => 6,
        AfterRead::Secp256k1 { .. } => 7,
        AfterRead::Ed25519 { .. } => 7,
        AfterRead::Listed { .. } => 0,
        AfterRead::Addresses { .. } => 1,
        AfterRead::Sign { .. } => 4,
        AfterRead::Verify { .. } => 3,
        AfterRead::Send { .. } => 6,
        AfterRead::Author { .. } => 12,
        AfterRead::Payer { .. } => 6,
    }
}

/// The phases that follow once the key encryption key is open.
pub open spec fn phases_after_open(after: AfterOpen<Model>) -> nat {
    match after {
        AfterOpen::Seed { .. } => 6,
        AfterOpen::Import { .. } => 5,
        AfterOpen::Read { after, .. } => 4 + phases_after_read(after),
        AfterOpen::List => 2,
    }
}

/// The steps that are left in a list, some of them for the current entry.
pub open spec fn list_steps(
    entries: Seq<DirEntry<Seq<char>>>,
    index: usize,
    current: nat,
) -> Remaining {
    Remaining {
        phases: 1,
        steps: if index < entries.len() {
            (8 * (entries.len() - index) + current) as nat
        } else {
            current
        },
    }
}

/// The steps that are left to sign some names, of which a number is done.
pub open spec fn sign_steps(all: nat, done: nat, current: nat) -> Remaining {
    Remaining {
        phases: 11,
        steps: if done < all {
            (2 * (all - done) + current) as nat
        } else {
            current
        },
    }
}

/// A number of phases, without steps.
pub open spec fn phase(phases: nat) -> Remaining {
    Remaining { phases, steps: 0 }
}

/// How much a command has left to do.
pub open spec fn remaining(state: State<Model>) -> Remaining {
    match state {
        State::Done => phase(0),
        State::Closing => phase(1),
        State::Refused => phase(1),
        State::Open { stage, after } => phase(
            phases_after_open(after) + match stage {
                OpenStage::Password { .. } => 6nat,
                OpenStage::Hash { .. } => 5,
                OpenStage::Decode { .. } => 4,
                OpenStage::Untag { .. } => 3,
                OpenStage::Decrypt => 2,
                OpenStage::Inspect => 1,
            },
        ),
        State::Read { stage, after, .. } => {
            let current: nat = match stage {
                ReadStage::Data => 4,
                ReadStage::Untag => 3,
                ReadStage::Decrypt => 2,
                ReadStage::Inspect { .. } => 1,
            };
            match after {
                AfterRead::Listed { entries, index } => list_steps(entries, index, 2 + current),
                _ => phase(phases_after_read(after) + current),
            }
        },
        State::Save { stage, .. } => phase(
            match stage {
                SaveStage::Encrypt { .. } => 4,
                SaveStage::Tag { .. } => 3,
                SaveStage::Write => 2,
            },
        ),
        State::NewKek(stage) => phase(
            match stage {
                NewKekStage::Password { .. } => 8,
                NewKekStage::Hash { .. } => 7,
                NewKekStage::Clock { .. } => 6,
                NewKekStage::Key { .. } => 5,
                NewKekStage::Encrypt => 4,
                NewKekStage::Tag => 3,
                NewKekStage::Encode => 2,
            },
        ),
        State::Seed(stage) => phase(
            match stage {
                SeedStage::Find { .. } => 13,
                SeedStage::Key { .. } => 6,
                SeedStage::KeyId { .. } => 5,
            },
        ),
        State::Import(stage) => phase(
            match stage {
                ImportStage::Clock => 20,
                ImportStage::Find { .. } => 19,
                ImportStage::Sealed { .. } => 18,
                ImportStage::Password { .. } => 17,
                ImportStage::Hash { .. } => 16,
                ImportStage::Decode { .. } => 15,
                ImportStage::Untag { .. } => 14,
                ImportStage::Decrypt { .. } => 13,
                ImportStage::Key { .. } => 12,
                ImportStage::Inspect { .. } => 5,
            },
        ),
        State::Export(stage) => phase(
            match stage {
                ExportStage::Password { .. } => 6,
                ExportStage::Hash { .. } => 5,
                ExportStage::Key { .. } => 4,
                ExportStage::Encrypt => 3,
                ExportStage::Encode => 2,
            },
        ),
        State::Derive(stage) => phase(
            match stage {
                DeriveStage::Secp256k1Seed { .. } => 7,
                DeriveStage::Secp256k1Secret { .. } => 6,
                DeriveStage::Secp256k1Key { .. } => 5,
                DeriveStage::Ed25519Seed { .. } => 7,
                DeriveStage::Ed25519Secret { .. } => 6,
                DeriveStage::Ed25519Key { .. } => 5,
            },
        ),
        State::List(stage) => match stage {
            ListStage::Entries { .. } => phase(2),
            ListStage::Header { entries, index, .. } => list_steps(entries, index, 7),
            ListStage::Data { entries, index } => list_steps(entries, index, 6),
            ListStage::Untag { entries, index } => list_steps(entries, index, 5),
            ListStage::Shown { entries, index, .. } => list_steps(entries, index, 2),
        },
        State::Sign(stage) => phase(
            match stage {
                SignStage::Message { .. } => 4,
                SignStage::Secp256k1 { .. } => 3,
                SignStage::Ed25519 { .. } => 3,
                SignStage::Encode { .. } => 2,
            },
        ),
        State::Verify(stage) => phase(
            match stage {
                VerifyStage::Signature { .. } => 3,
                VerifyStage::Signed { .. } => 3,
                VerifyStage::Check => 2,
            },
        ),
        State::Node { stage, .. } => phase(
            match stage {
                NodeStage::Connect => 5,
                NodeStage::Ping => 4,
            },
        ),
        State::Send(stage) => phase(
            match stage {
                SendStage::Network { .. } => 17,
                SendStage::Scripts { .. } => 6,
                SendStage::Outputs { .. } => 3,
                SendStage::Sent => 2,
            },
        ),
        State::Register(stage) => match stage {
            RegisterStage::Network { .. } => phase(24),
            RegisterStage::Check { job, index } => Remaining {
                phases: 23,
                steps: if index < job.names.len() {
                    (job.names.len() - index) as nat
                } else {
                    0
                },
            },
            RegisterStage::PublicKey { .. } => phase(12),
            RegisterStage::Sign { job, names, .. } => sign_steps(job.names.len(), names.len(), 1),
            RegisterStage::Validate { job, names, .. } => sign_steps(
                job.names.len(),
                names.len(),
                0,
            ),
            RegisterStage::Sizes { .. } => phase(4),
            RegisterStage::Totals { .. } => phase(3),
            RegisterStage::Fee { .. } => phase(2),
            RegisterStage::Scripts { .. } => phase(6),
            RegisterStage::Outputs { .. } => phase(3),
            RegisterStage::TxOut { .. } => phase(3),
            RegisterStage::Sent => phase(2),
        },
    }
}

/// Whether the lists that a command works through can be counted by the machine.
pub open spec fn countable(state: State<Model>) -> bool {
    match state {
        State::Open { after: AfterOpen::Read { after: AfterRead::Listed { entries, .. }, .. }, .. } =>
            entries.len() <= usize::MAX,
        State::Read { after: AfterRead::Listed { entries, .. }, .. } => entries.len() <= usize::MAX,
        State::List(stage) => match stage {
            ListStage::Entries { .. } => true,
            ListStage::Header { entries, .. } => entries.len() <= usize::MAX,
            ListStage::Data { entries, .. } => entries.len() <= usize::MAX,
            ListStage::Untag { entries, .. } => entries.len() <= usize::MAX,
            ListStage::Shown { entries, .. } => entries.len() <= usize::MAX,
        },
        State::Register(stage) => match stage {
            RegisterStage::Network { job } => job.names.len() <= usize::MAX,
            RegisterStage::Check { job, .. } => job.names.len() <= usize::MAX,
            _ => true,
        },
        _ => true,
    }
}

/// Whether the list that an answer holds can be counted by the machine.
pub open spec fn countable_reply(reply: Reply<Model>) -> bool {
    reply matches Reply::Entries(entries) ==> entries.len() <= usize::MAX
}

/// Showing a list from an index on leaves no more steps than its entries take.
proof fn list_from_is_less(
    kek: Option<KekEncryptor<Model>>,
    entries: Seq<DirEntry<Seq<char>>>,
    from: int,
)
    requires
        0 <= from,
        entries.len() <= usize::MAX,
    ensures
        ({
            let state = list_from(kek, entries, from).state;
            let left = remaining(state);
            &&& left.phases == 0 || (left.phases == 1 && left.steps <= 8 * (entries.len() - from)
                + 7 && from < entries.len())
            &&& countable(state)
        }),
    decreases entries.len() - from,
{
    if from < entries.len() && entries[from] is Other {
        list_from_is_less(kek, entries, from + 1);
    }
}

/// Every answer brings a command closer to its end, and the lists that it works through stay
/// countable.
#[verifier::rlimit(60)]
pub proof fn every_answer_is_progress(
    settings: Settings<Model>,
    state: State<Model>,
    reply: Reply<Model>,
)
    requires
        !(state is Done),
        countable(state),
        countable_reply(reply),
    ensures
        less(remaining(next(settings, state, reply).state), remaining(state)),
        countable(next(settings, state, reply).state),
{
    if let State::List(stage) = state {
        match stage {
            ListStage::Entries { kek } => {
                if let Reply::Entries(entries) = reply {
                    list_from_is_less(kek, entries, 0);
                }
            },
            ListStage::Untag { entries, index } => {
                list_from_is_less(None, entries, index + 1);
            },
            ListStage::Shown { kek, entries, index } => {
                list_from_is_less(kek, entries, index + 1);
            },
            _ => {},
        }
    }
}

/// Where a command stands after a number of answers.
pub open spec fn state_after(
    settings: Settings<Model>,
    state: State<Model>,
    replies: spec_fn(nat) -> Reply<Model>,
    count: nat,
) -> State<Model>
    decreases count,
{
    if count == 0 {
        state
    } else {
        let before = (count - 1) as nat;
        next(settings, state_after(settings, state, replies, before), replies(before)).state
    }
}

/// A command that has had a number of answers ends at some point.
proof fn ends_from(
    settings: Settings<Model>,
    state: State<Model>,
    replies: spec_fn(nat) -> Reply<Model>,
    count: nat,
)
    requires
        countable(state_after(settings, state, replies, count)),
        forall|i: nat| countable_reply(#[trigger] replies(i)),
    ensures
        exists|n: nat| #[trigger] state_after(settings, state, replies, n) is Done,
    decreases
            remaining(state_after(settings, state, replies, count)).phases,
            remaining(state_after(settings, state, replies, count)).steps,
{
    let current = state_after(settings, state, replies, count);
    if !(current is Done) {
        every_answer_is_progress(settings, current, replies(count));
        assert(state_after(settings, state, replies, count + 1) == next(
            settings,
            current,
            replies(count),
        ).state);
        ends_from(settings, state, replies, count + 1);
    }
}

/// Every command ends, whatever it is answered.
pub proof fn every_run_ends(
    settings: Settings<Model>,
    command: Option<Commands>,
    replies: spec_fn(nat) -> Reply<Model>,
)
    requires
        countable(started(settings, command).state),
        forall|i: nat| countable_reply(#[trigger] replies(i)),
    ensures
        exists|n: nat| #[trigger]
            state_after(settings, started(settings, command).state, replies, n) is Done,
{
    ends_from(settings, started(settings, command).state, replies, 0);
}

/// Whatever fails outside ends a command at once, with the messages of what failed.
pub proof fn a_failure_ends_a_command(
    settings: Settings<Model>,
    state: State<Model>,
    messages: Seq<Seq<char>>,
)
    requires
        !(state is Done),
    ensures
        next(settings, state, Reply::Failed { messages }) == failed_outside(messages),
{
}

/// A command that has ended stays so: it asks for nothing more than to exit.
pub proof fn an_end_is_final(settings: Settings<Model>, reply: Reply<Model>)
    ensures
        next(settings, State::Done, reply) == misreplied(),
{
}

/// A command ends exactly with the request to exit, be it at its start or after an answer.
#[verifier::rlimit(60)]
pub proof fn an_exit_is_the_end(
    settings: Settings<Model>,
    command: Option<Commands>,
    state: State<Model>,
    reply: Reply<Model>,
)
    ensures
        started(settings, command).state is Done <==> started(settings, command).request is Exit,
        next(settings, state, reply).state is Done <==> next(settings, state, reply).request is Exit,
{
    if let State::List(stage) = state {
        match stage {
            ListStage::Entries { kek } => {
                if let Reply::Entries(entries) = reply {
                    list_exit_is_the_end(kek, entries, 0);
                }
            },
            ListStage::Untag { entries, index } => {
                list_exit_is_the_end(None, entries, index + 1);
            },
            ListStage::Shown { kek, entries, index } => {
                list_exit_is_the_end(kek, entries, index + 1);
            },
            _ => {},
        }
    }
}

/// A command panics only where it wants the node and the settings do not say where it is, or where
/// a preview cannot be summed up.
#[verifier::rlimit(60)]
pub proof fn panics_have_a_reason(
    settings: Settings<Model>,
    command: Option<Commands>,
    state: State<Model>,
    reply: Reply<Model>,
    defect: Defect,
)
    ensures
        started(settings, command).request != Request::<Model>::Exit(Outcome::Panic(defect)),
        next(settings, state, reply).request == Request::<Model>::Exit(Outcome::Panic(defect))
            ==> match defect {
            Defect::RpcUrlMissing => settings.rpc_url is None && match state {
                State::Send(SendStage::Scripts { .. }) => true,
                State::Register(RegisterStage::Scripts { .. }) => true,
                _ => false,
            },
            Defect::NoRevealOutput => state matches State::Register(RegisterStage::Fee { sizes })
                && sizes.reveal_output is None,
            Defect::OutOfRange => match state {
                State::Register(RegisterStage::Totals { sizes }) => sizes.commit_size
                    + sizes.reveal_size > usize::MAX || sizes.commit_vsize + sizes.reveal_vsize
                    > usize::MAX,
                State::Register(RegisterStage::Fee { sizes }) => sizes.reveal_output matches Some(
                    output,
                ) && output > sizes.min_balance,
                _ => false,
            },
        },
{
    if let State::List(stage) = state {
        match stage {
            ListStage::Entries { kek } => {
                if let Reply::Entries(entries) = reply {
                    list_exit_is_the_end(kek, entries, 0);
                }
            },
            ListStage::Untag { entries, index } => {
                list_exit_is_the_end(None, entries, index + 1);
            },
            ListStage::Shown { kek, entries, index } => {
                list_exit_is_the_end(kek, entries, index + 1);
            },
            _ => {},
        }
    }
}

/// A list ends exactly with the request to exit, and never in a panic.
proof fn list_exit_is_the_end(
    kek: Option<KekEncryptor<Model>>,
    entries: Seq<DirEntry<Seq<char>>>,
    from: int,
)
    ensures
        list_from(kek, entries, from).state is Done <==> list_from(
            kek,
            entries,
            from,
        ).request is Exit,
        !(list_from(kek, entries, from).request matches Request::Exit(outcome) && outcome is Panic),
    decreases entries.len() - from,
{
    if from < entries.len() && entries[from] is Other {
        list_exit_is_the_end(kek, entries, from + 1);
    }
}

} // verus!
