//! Whole runs: what a command has asked for, and how it was answered.

use vstd::prelude::*;

use crate::cli::Commands;
use crate::form::Model;
use crate::session::{next, started};
use crate::state::{Settings, Step};
use crate::wire::{Reply, Request};

verus! {

/// A run of a command so far: the settings, the command, and the answers that it was given.
pub struct Run {
    /// The settings.
    pub settings: Settings<Model>,
    /// The command.
    pub command: Option<Commands>,
    /// The answers.
    pub replies: Seq<Reply<Model>>,
}

impl Run {
    /// The run with its first `count` answers alone.
    pub open spec fn first(self, count: int) -> Run {
        Run { settings: self.settings, command: self.command, replies: self.replies.take(count) }
    }

    /// The run without its last answer.
    pub open spec fn before(self) -> Run {
        Run { settings: self.settings, command: self.command, replies: self.replies.drop_last() }
    }

    /// The step that the run has reached.
    pub open spec fn step(self) -> Step<Model>
        decreases self.replies.len(),
    {
        if self.replies.len() == 0 {
            started(self.settings, self.command)
        } else {
            next(self.settings, self.before().step().state, self.replies.last())
        }
    }

    /// What the run asked for once it had `count` answers.
    pub open spec fn asked(self, count: int) -> Request<Model> {
        self.first(count).step().request
    }

    /// Whether the run asked for something at some point and was given this answer.
    #[verifier::opaque]
    pub open spec fn exchanged(self, request: Request<Model>, reply: Reply<Model>) -> bool {
        exists|i: int|
            0 <= i < self.replies.len() && self.replies[i] == reply && (#[trigger] self.first(
                i,
            )).step().request == request
    }
}

/// What was asked and answered is so after a further answer too.
pub proof fn exchanges_are_kept(run: Run)
    requires
        run.replies.len() > 0,
    ensures
        forall|request: Request<Model>, reply: Reply<Model>| #[trigger]
            run.before().exchanged(request, reply) ==> run.exchanged(request, reply),
{
    reveal(Run::exchanged);
    let before = run.before();
    assert forall|request: Request<Model>, reply: Reply<Model>| #[trigger]
        before.exchanged(request, reply) implies run.exchanged(request, reply) by {
        let i = choose|i: int|
            0 <= i < before.replies.len() && before.replies[i] == reply && (#[trigger] before.first(
                i,
            )).step().request == request;
        assert(before.first(i).replies =~= run.first(i).replies);
        assert(run.first(i).step().request == request);
    }
}

/// What was asked before the last answer is what the run asked without it, and what is asked now
/// comes last.
pub proof fn requests_are_kept(run: Run)
    ensures
        run.asked(run.replies.len() as int) == run.step().request,
        run.replies.len() > 0 ==> forall|i: int|
            0 <= i < run.replies.len() ==> #[trigger] run.asked(i) == run.before().asked(i),
{
    assert(run.first(run.replies.len() as int).replies =~= run.replies);
    assert forall|i: int|
        run.replies.len() > 0 && 0 <= i < run.replies.len() implies #[trigger] run.asked(i)
        == run.before().asked(i) by {
        assert(run.before().first(i).replies =~= run.first(i).replies);
    }
}

/// The last answer belongs to the request before it.
pub proof fn the_last_exchange(run: Run)
    requires
        run.replies.len() > 0,
    ensures
        run.exchanged(run.before().step().request, run.replies.last()),
{
    reveal(Run::exchanged);
    let i = run.replies.len() - 1;
    assert(run.first(i).replies =~= run.before().replies);
    assert(run.first(i).step().request == run.before().step().request);
}

} // verus!
