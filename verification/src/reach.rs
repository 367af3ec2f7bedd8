//! The node is reached before it is used: it is pinged once, through the client that was made.

use vstd::prelude::*;

use crate::form::{DirEntry, Model};
use crate::listing::list_from;
use crate::node::node_options;
use crate::run::{Run, requests_are_kept};
use crate::session::next;
use crate::state::{
    KekEncryptor, ListStage, NodeStage, RegisterStage, SendStage, Settings, State,
};
use crate::wire::{Reply, Request, RpcOptions};

verus! {

/// How far a command has come with the node.
pub enum Place {
    /// It has not asked for it.
    Before,
    /// The client is made.
    Connecting,
    /// The node is pinged.
    Pinging,
    /// The node is used.
    Using,
    /// The command is over, or about to be.
    Over,
}

/// How far a command has come with the node where it stands.
pub open spec fn place(state: State<Model>) -> Place {
    match state {
        State::Done => Place::Over,
        State::Closing => Place::Over,
        State::Refused => Place::Over,
        State::Node { stage, .. } => match stage {
            NodeStage::Connect => Place::Connecting,
            NodeStage::Ping => Place::Pinging,
        },
        State::Send(stage) => match stage {
            SendStage::Outputs { .. } => Place::Using,
            SendStage::Sent => Place::Using,
            _ => Place::Before,
        },
        State::Register(stage) => match stage {
            RegisterStage::Outputs { .. } => Place::Using,
            RegisterStage::TxOut { .. } => Place::Using,
            RegisterStage::Sent => Place::Using,
            _ => Place::Before,
        },
        _ => Place::Before,
    }
}

/// Whether a request is made of the node, or of what is handed to it.
pub open spec fn uses_the_node(request: Request<Model>) -> bool {
    match request {
        Request::FetchTransaction { .. } => true,
        Request::ReadTxOut { .. } => true,
        Request::SendSats { .. } => true,
        Request::Inscribe { .. } => true,
        _ => false,
    }
}

/// A list has nothing to do with the node.
proof fn a_list_leaves_the_node(
    kek: Option<KekEncryptor<Model>>,
    entries: Seq<DirEntry<Seq<char>>>,
    from: int,
)
    ensures
        ({
            let step = list_from(kek, entries, from);
            &&& place(step.state) is Before || place(step.state) is Over
            &&& !(step.request is Ping) && !uses_the_node(step.request)
        }),
    decreases entries.len() - from,
{
    if from < entries.len() && entries[from] is Other {
        a_list_leaves_the_node(kek, entries, from + 1);
    }
}

/// The node is entered step by step: its client is made, it is pinged, it is used.
#[verifier::rlimit(60)]
proof fn the_node_is_entered_in_order(
    settings: Settings<Model>,
    state: State<Model>,
    reply: Reply<Model>,
)
    ensures
        ({
            let step = next(settings, state, reply);
            let now = place(step.state);
            &&& step.request is Ping <==> now is Pinging
            &&& uses_the_node(step.request) ==> now is Using
            &&& now is Connecting ==> (node_options(settings) matches Some(options)
                && step.request == (Request::<Model>::Connect { options }))
            &&& match place(state) {
                Place::Before => now is Before || now is Connecting || now is Over,
                Place::Connecting => (now is Pinging && reply is Done) || now is Over,
                Place::Pinging => (now is Using && reply is Done) || now is Over,
                Place::Using => now is Using || now is Over,
                Place::Over => now is Over,
            }
        }),
{
    if let State::List(stage) = state {
        match stage {
            ListStage::Entries { kek } => {
                if let Reply::Entries(entries) = reply {
                    a_list_leaves_the_node(kek, entries, 0);
                }
            },
            ListStage::Untag { entries, index } => {
                a_list_leaves_the_node(None, entries, index + 1);
            },
            ListStage::Shown { kek, entries, index } => {
                a_list_leaves_the_node(kek, entries, index + 1);
            },
            _ => {},
        }
    }
}

/// Whether a run pinged at one point alone, or never.
pub open spec fn pinged_at_most_once(run: Run) -> bool {
    forall|i: int, j: int|
        0 <= i <= run.replies.len() && 0 <= j <= run.replies.len() && (#[trigger] run.asked(
            i,
        )) is Ping && (#[trigger] run.asked(j)) is Ping ==> i == j
}

/// Whether a run made the client of the node, pinged the node next, and was answered both times.
pub open spec fn reached(run: Run, options: RpcOptions<Model>) -> bool {
    exists|i: int|
        {
            &&& 0 <= i && i + 1 < run.replies.len()
            &&& #[trigger] run.asked(i) == (Request::<Model>::Connect { options })
            &&& run.replies[i] is Done
            &&& run.asked(i + 1) == Request::<Model>::Ping
            &&& run.replies[i + 1] is Done
        }
}

/// What is known of the node where a run stands.
spec fn standing(run: Run) -> bool {
    let n = run.replies.len() as int;
    let step = run.step();
    let unpinged_before = forall|j: int| 0 <= j < n ==> !((#[trigger] run.asked(j)) is Ping);
    &&& pinged_at_most_once(run)
    &&& step.request is Ping <==> place(step.state) is Pinging
    &&& uses_the_node(step.request) ==> place(step.state) is Using
    &&& match place(step.state) {
        Place::Before => unpinged_before,
        Place::Connecting => unpinged_before && (node_options(run.settings) matches Some(options)
            && step.request == (Request::<Model>::Connect { options })),
        Place::Pinging => {
            &&& unpinged_before
            &&& n > 0
            &&& node_options(run.settings) matches Some(options)
            &&& run.asked(n - 1) == (Request::<Model>::Connect { options })
            &&& run.replies[n - 1] is Done
        },
        Place::Using => node_options(run.settings) matches Some(options) && reached(run, options),
        Place::Over => true,
    }
}

/// Throughout a run, the node is entered in order and pinged once.
proof fn run_reaches(run: Run)
    ensures
        standing(run),
    decreases run.replies.len(),
{
    let n = run.replies.len() as int;
    requests_are_kept(run);
    if n > 0 {
        let before = run.before();
        let step = before.step();
        run_reaches(before);
        requests_are_kept(before);
        the_node_is_entered_in_order(run.settings, step.state, run.replies.last());
        assert(run.asked(n - 1) == before.asked(n - 1));
        assert forall|i: int, j: int|
            0 <= i <= n && 0 <= j <= n && (#[trigger] run.asked(i)) is Ping && (#[trigger] run.asked(
                j,
            )) is Ping implies i == j by {
            if i < n {
                assert(before.asked(i) is Ping);
            }
            if j < n {
                assert(before.asked(j) is Ping);
            }
        }
        match place(step.state) {
            Place::Pinging => {
                if let Some(options) = node_options(run.settings) {
                    assert(before.asked(n - 2) == run.asked(n - 2));
                    if place(run.step().state) is Using {
                        assert(reached(run, options));
                    }
                }
            },
            Place::Using => {
                if let Some(options) = node_options(run.settings) {
                    let i = choose|i: int|
                        {
                            &&& 0 <= i && i + 1 < before.replies.len()
                            &&& #[trigger] before.asked(i) == (Request::<Model>::Connect { options })
                            &&& before.replies[i] is Done
                            &&& before.asked(i + 1) == Request::<Model>::Ping
                            &&& before.replies[i + 1] is Done
                        };
                    assert(run.asked(i) == before.asked(i));
                    assert(run.asked(i + 1) == before.asked(i + 1));
                    assert(reached(run, options));
                }
            },
            _ => {},
        }
    }
}

/// A run uses the node only once it has made the client that the settings ask for and has been
/// answered to a ping through it; and it pings once.
pub proof fn the_node_is_pinged_once_before_it_is_used(run: Run)
    ensures
        pinged_at_most_once(run),
        uses_the_node(run.step().request) ==> (node_options(run.settings) matches Some(options)
            && reached(run, options)),
{
    run_reaches(run);
}

} // verus!
