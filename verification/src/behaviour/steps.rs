//! Conversations: what a run asks and is answered, from one step to another.

use vstd::prelude::*;

use crate::form::Model;
use crate::run::{Run, requests_are_kept};
use crate::session::{next, started};
use crate::state::{Settings, State, Step};
use crate::wire::{Outcome, Reply, Request};

verus! {

/// Whether a command that stands at `from` asks for `requests`, one by one, is given `replies`, and
/// comes to stand at `to`.
pub open spec fn goes(
    settings: Settings<Model>,
    from: Step<Model>,
    replies: Seq<Reply<Model>>,
    requests: Seq<Request<Model>>,
    to: Step<Model>,
) -> bool
    decreases replies.len(),
{
    &&& replies.len() == requests.len()
    &&& if replies.len() == 0 {
        from == to
    } else {
        &&& from.request == requests[0]
        &&& goes(
            settings,
            next(settings, from.state, replies[0]),
            replies.drop_first(),
            requests.drop_first(),
            to,
        )
    }
}

/// Whether a run asked for exactly these things, in this order; the last one is what it asks for
/// now.
pub open spec fn asked_exactly(run: Run, requests: Seq<Request<Model>>) -> bool {
    &&& requests.len() == run.replies.len() + 1
    &&& forall|i: int| 0 <= i < requests.len() ==> run.asked(i) == #[trigger] requests[i]
}

/// Whether a run asked for exactly these things, in this order, and then ended in this way.
pub open spec fn does(run: Run, requests: Seq<Request<Model>>, outcome: Outcome<Model>) -> bool {
    asked_exactly(run, requests.push(Request::Exit(outcome)))
}

/// The step at which a command is over.
pub open spec fn over(outcome: Outcome<Model>) -> Step<Model> {
    Step { state: State::Done, request: Request::Exit(outcome) }
}

/// One conversation and the next make one.
pub proof fn goes_on(
    settings: Settings<Model>,
    from: Step<Model>,
    replies: Seq<Reply<Model>>,
    requests: Seq<Request<Model>>,
    between: Step<Model>,
    more_replies: Seq<Reply<Model>>,
    more_requests: Seq<Request<Model>>,
    to: Step<Model>,
)
    requires
        goes(settings, from, replies, requests, between),
        goes(settings, between, more_replies, more_requests, to),
    ensures
        goes(settings, from, replies + more_replies, requests + more_requests, to),
    decreases replies.len(),
{
    if replies.len() == 0 {
        assert(replies + more_replies =~= more_replies);
        assert(requests + more_requests =~= more_requests);
    } else {
        let first = next(settings, from.state, replies[0]);
        goes_on(
            settings,
            first,
            replies.drop_first(),
            requests.drop_first(),
            between,
            more_replies,
            more_requests,
            to,
        );
        assert((replies + more_replies).drop_first() =~= replies.drop_first() + more_replies);
        assert((requests + more_requests).drop_first() =~= requests.drop_first() + more_requests);
    }
}

/// Three conversations in a row make one.
pub proof fn goes_on_twice(
    settings: Settings<Model>,
    s0: Step<Model>,
    r1: Seq<Reply<Model>>,
    q1: Seq<Request<Model>>,
    s1: Step<Model>,
    r2: Seq<Reply<Model>>,
    q2: Seq<Request<Model>>,
    s2: Step<Model>,
    r3: Seq<Reply<Model>>,
    q3: Seq<Request<Model>>,
    s3: Step<Model>,
)
    requires
        goes(settings, s0, r1, q1, s1),
        goes(settings, s1, r2, q2, s2),
        goes(settings, s2, r3, q3, s3),
    ensures
        goes(settings, s0, r1 + r2 + r3, q1 + q2 + q3, s3),
{
    goes_on(settings, s0, r1, q1, s1, r2, q2, s2);
    goes_on(settings, s0, r1 + r2, q1 + q2, s2, r3, q3, s3);
}

/// Four conversations in a row make one.
pub proof fn goes_on_thrice(
    settings: Settings<Model>,
    s0: Step<Model>,
    r1: Seq<Reply<Model>>,
    q1: Seq<Request<Model>>,
    s1: Step<Model>,
    r2: Seq<Reply<Model>>,
    q2: Seq<Request<Model>>,
    s2: Step<Model>,
    r3: Seq<Reply<Model>>,
    q3: Seq<Request<Model>>,
    s3: Step<Model>,
    r4: Seq<Reply<Model>>,
    q4: Seq<Request<Model>>,
    s4: Step<Model>,
)
    requires
        goes(settings, s0, r1, q1, s1),
        goes(settings, s1, r2, q2, s2),
        goes(settings, s2, r3, q3, s3),
        goes(settings, s3, r4, q4, s4),
    ensures
        goes(settings, s0, r1 + r2 + r3 + r4, q1 + q2 + q3 + q4, s4),
{
    goes_on_twice(settings, s0, r1, q1, s1, r2, q2, s2, r3, q3, s3);
    goes_on(settings, s0, r1 + r2 + r3, q1 + q2 + q3, s3, r4, q4, s4);
}

/// A conversation leads to one place alone.
proof fn goes_to_one_place(
    settings: Settings<Model>,
    from: Step<Model>,
    replies: Seq<Reply<Model>>,
    requests: Seq<Request<Model>>,
    last: Reply<Model>,
    request: Request<Model>,
    to: Step<Model>,
)
    requires
        goes(settings, from, replies.push(last), requests.push(request), to),
    ensures
        exists|at: Step<Model>| #[trigger]
            goes(settings, from, replies, requests, at) && at.request == request && to == next(
                settings,
                at.state,
                last,
            ),
    decreases replies.len(),
{
    if replies.len() == 0 {
        reveal_with_fuel(goes, 3);
        assert(goes(settings, from, replies, requests, from));
    } else {
        let first = next(settings, from.state, replies[0]);
        assert(replies.push(last).drop_first() =~= replies.drop_first().push(last));
        assert(requests.push(request).drop_first() =~= requests.drop_first().push(request));
        goes_to_one_place(
            settings,
            first,
            replies.drop_first(),
            requests.drop_first(),
            last,
            request,
            to,
        );
        let at = choose|at: Step<Model>| #[trigger]
            goes(settings, first, replies.drop_first(), requests.drop_first(), at)
                && at.request == request && to == next(settings, at.state, last);
        assert(goes(settings, from, replies, requests, at));
    }
}

/// A run whose conversation is known has asked for what it tells, and stands where it leads.
pub proof fn run_goes(run: Run, requests: Seq<Request<Model>>, to: Step<Model>)
    requires
        goes(run.settings, started(run.settings, run.command), run.replies, requests, to),
    ensures
        asked_exactly(run, requests.push(to.request)),
        run.step() == to,
    decreases run.replies.len(),
{
    requests_are_kept(run);
    if run.replies.len() > 0 {
        let before = run.before();
        let last = run.replies.last();
        let front = requests.drop_last();
        assert(run.replies =~= before.replies.push(last));
        assert(requests =~= front.push(requests.last()));
        goes_to_one_place(
            run.settings,
            started(run.settings, run.command),
            before.replies,
            front,
            last,
            requests.last(),
            to,
        );
        let at = choose|at: Step<Model>| #[trigger]
            goes(run.settings, started(run.settings, run.command), before.replies, front, at)
                && at.request == requests.last() && to == next(run.settings, at.state, last);
        run_goes(before, front, at);
        assert forall|i: int| 0 <= i < requests.push(to.request).len() implies run.asked(i)
            == #[trigger] requests.push(to.request)[i] by {
            if i < run.replies.len() {
                assert(run.asked(i) == before.asked(i));
                assert(front.push(at.request)[i] == requests[i]);
            }
        }
    }
}

/// A run whose conversation leads to its end has asked for what it tells, and then ended.
pub proof fn run_does(run: Run, requests: Seq<Request<Model>>, outcome: Outcome<Model>)
    requires
        goes(
            run.settings,
            started(run.settings, run.command),
            run.replies,
            requests,
            over(outcome),
        ),
    ensures
        does(run, requests, outcome),
{
    run_goes(run, requests, over(outcome));
}

} // verus!
