use vstd::prelude::*;
use crate::bridge::{PARAM_OK, enqueue, forwarded, is_c_text, lemma_c_text_terminated};
use crate::dispatcher::{terminated, trigger_order};
use crate::session::{Action, ChannelState, Event, Phase, Session, CONNECT_FLAGS, next};

verus! {

/// Queue contents after each of `payloads`, in order, arrived as an
/// invocation whose parameter fetch succeeded with the payload's
/// null-terminated text, starting from a queue holding `q`.
pub open spec fn bridge_all(q: Seq<Seq<u8>>, payloads: Seq<Seq<u8>>) -> Seq<Seq<u8>>
    decreases payloads.len(),
{
    if payloads.len() == 0 {
        q
    } else {
        enqueue(
            bridge_all(q, payloads.drop_last()),
            forwarded(PARAM_OK, Some(terminated(payloads.last()))),
        )
    }
}

proof fn lemma_bridge_all(q: Seq<Seq<u8>>, payloads: Seq<Seq<u8>>)
    requires
        forall|i: int| 0 <= i < payloads.len() ==> is_c_text(#[trigger] payloads[i]),
    ensures
        bridge_all(q, payloads) == q + payloads,
    decreases payloads.len(),
{
    if payloads.len() > 0 {
        let init = payloads.drop_last();
        assert forall|i: int| 0 <= i < init.len() implies is_c_text(#[trigger] init[i]) by {
            assert(init[i] == payloads[i]);
        }
        lemma_bridge_all(q, init);
        lemma_c_text_terminated(payloads.last());
        assert((q + init).push(payloads.last()) =~= q + payloads);
    }
}

proof fn lemma_trigger_order(q: Seq<Seq<u8>>)
    ensures
        trigger_order(q) == q.map_values(|t: Seq<u8>| terminated(t)),
    decreases q.len(),
{
    if q.len() > 0 {
        lemma_trigger_order(q.drop_first());
        assert(trigger_order(q) =~= q.map_values(|t: Seq<u8>| terminated(t)));
    }
}

/// Every invocation with a valid text parameter reaches the trigger exactly
/// once, in the order the bridge queued it, with its text unchanged and
/// followed by its terminating NUL.
pub proof fn lemma_invocations_trigger_in_order(payloads: Seq<Seq<u8>>)
    requires
        forall|i: int| 0 <= i < payloads.len() ==> is_c_text(#[trigger] payloads[i]),
    ensures
        bridge_all(Seq::empty(), payloads) == payloads,
        trigger_order(bridge_all(Seq::empty(), payloads))
            == payloads.map_values(|p: Seq<u8>| terminated(p)),
{
    lemma_bridge_all(Seq::empty(), payloads);
    assert(Seq::<Seq<u8>>::empty() + payloads =~= payloads);
    lemma_trigger_order(payloads);
}

/// The session after it took the events `evs` in order.
pub open spec fn run(s: Session, evs: Seq<Event>) -> Session
    decreases evs.len(),
{
    if evs.len() == 0 {
        s
    } else {
        next(run(s, evs.drop_last()), evs.last()).0
    }
}

/// The requests the session issued while it took the events `evs`.
pub open spec fn actions(s: Session, evs: Seq<Event>) -> Seq<Action>
    decreases evs.len(),
{
    if evs.len() == 0 {
        Seq::empty()
    } else {
        actions(s, evs.drop_last()).push(next(run(s, evs.drop_last()), evs.last()).1)
    }
}

proof fn lemma_run_wf(s: Session, evs: Seq<Event>)
    requires
        s.wf(),
    ensures
        run(s, evs).wf(),
    decreases evs.len(),
{
    if evs.len() > 0 {
        lemma_run_wf(s, evs.drop_last());
    }
}

proof fn lemma_take_step(s: Session, evs: Seq<Event>, n: int)
    requires
        0 <= n < evs.len(),
    ensures
        run(s, evs.take(n + 1)) == next(run(s, evs.take(n)), evs[n]).0,
        actions(s, evs.take(n + 1)) == actions(s, evs.take(n)).push(
            next(run(s, evs.take(n)), evs[n]).1,
        ),
{
    assert(evs.take(n + 1).drop_last() =~= evs.take(n));
}

/// A channel object is created only while none is live, so at most one
/// exists at any time.
pub proof fn lemma_single_object(s: Session, evs: Seq<Event>, n: int)
    requires
        s.wf(),
        0 <= n < evs.len(),
        next(run(s, evs.take(n)), evs[n]).1 == Action::CreateObject,
    ensures
        run(s, evs.take(n)).object is None,
        run(s, evs.take(n + 1)).wf(),
{
    lemma_run_wf(s, evs.take(n));
    lemma_run_wf(s, evs.take(n + 1));
}

proof fn lemma_destroy_issued(s: Session, evs: Seq<Event>, h: u64, n: int)
    requires
        s.wf(),
        s.object == Some(h),
        s.phase != Phase::Destroying,
        0 <= n <= evs.len(),
    ensures
        actions(s, evs.take(n)).contains(Action::DestroyObject(h)) || (run(s, evs.take(n)).object
            == Some(h) && run(s, evs.take(n)).phase != Phase::Destroying),
    decreases n,
{
    if n == 0 {
        assert(evs.take(0) =~= Seq::<Event>::empty());
    } else {
        lemma_destroy_issued(s, evs, h, n - 1);
        lemma_take_step(s, evs, n - 1);
        lemma_run_wf(s, evs.take(n - 1));
        let before = actions(s, evs.take(n - 1));
        let after = actions(s, evs.take(n));
        if before.contains(Action::DestroyObject(h)) {
            let k = choose|k: int| 0 <= k < before.len() && before[k] == Action::DestroyObject(h);
            assert(after[k] == Action::DestroyObject(h));
        } else {
            let a = next(run(s, evs.take(n - 1)), evs[n - 1]).1;
            if a == Action::DestroyObject(h) {
                assert(after[before.len() as int] == Action::DestroyObject(h));
            }
        }
    }
}

/// Once a channel object is live, the next object is created only after the
/// live one was destroyed.
pub proof fn lemma_destroy_before_recreate(s: Session, evs: Seq<Event>, h: u64, n: int)
    requires
        s.wf(),
        s.object == Some(h),
        s.phase != Phase::Destroying,
        0 <= n < evs.len(),
        next(run(s, evs.take(n)), evs[n]).1 == Action::CreateObject,
    ensures
        actions(s, evs.take(n)).contains(Action::DestroyObject(h)),
{
    lemma_destroy_issued(s, evs, h, n);
    lemma_run_wf(s, evs.take(n));
}

/// Number of connect requests among `a`.
pub open spec fn connects(a: Seq<Action>) -> nat
    decreases a.len(),
{
    if a.len() == 0 {
        0
    } else {
        connects(a.drop_last()) + if a.last() is Connect { 1nat } else { 0nat }
    }
}

/// Number of sleeps among `a`.
pub open spec fn sleeps(a: Seq<Action>) -> nat
    decreases a.len(),
{
    if a.len() == 0 {
        0
    } else {
        sleeps(a.drop_last()) + if a.last() is Sleep { 1nat } else { 0nat }
    }
}

pub open spec fn pending_connect(s: Session) -> nat {
    if s.connected_since_sleep { 1 } else { 0 }
}

proof fn lemma_connect_count(s: Session, evs: Seq<Event>)
    requires
        s.wf(),
    ensures
        connects(actions(s, evs)) + pending_connect(s) <= sleeps(actions(s, evs))
            + pending_connect(run(s, evs)),
    decreases evs.len(),
{
    if evs.len() > 0 {
        let init = evs.drop_last();
        lemma_connect_count(s, init);
        lemma_run_wf(s, init);
        let a = actions(s, evs);
        assert(a.drop_last() =~= actions(s, init));
    }
}

/// Connect requests are rate-bounded: at most one more than the sleeps
/// between them, whatever the service answers.
pub proof fn lemma_connect_rate(s: Session, evs: Seq<Event>)
    requires
        s.wf(),
    ensures
        connects(actions(s, evs)) <= sleeps(actions(s, evs)) + 1,
{
    lemma_connect_count(s, evs);
}

/// Phases of the connect/poll/sleep retry cycle.
pub open spec fn retrying(p: Phase) -> bool {
    p == Phase::Connecting || p == Phase::ReadingState || p == Phase::Polling || p == Phase::Sleeping
}

/// While the channel never reports itself connected, the session stays in
/// the retry cycle, creates no object and never aborts.
pub proof fn lemma_never_connected_keeps_retrying(s: Session, evs: Seq<Event>)
    requires
        s.wf(),
        retrying(s.phase),
        forall|i: int| 0 <= i < evs.len() ==> evs[i] != Event::StateRead(ChannelState::Connected),
    ensures
        retrying(run(s, evs).phase),
        run(s, evs).object is None,
        !actions(s, evs).contains(Action::Abort),
        !actions(s, evs).contains(Action::CreateObject),
    decreases evs.len(),
{
    if evs.len() > 0 {
        let init = evs.drop_last();
        assert forall|i: int| 0 <= i < init.len() implies init[i] != Event::StateRead(
            ChannelState::Connected,
        ) by {
            assert(init[i] == evs[i]);
        }
        lemma_never_connected_keeps_retrying(s, init);
        lemma_run_wf(s, init);
        let a = actions(s, evs);
        assert(a.drop_last() =~= actions(s, init));
        assert(evs.last() == evs[evs.len() - 1]);
        if a.contains(Action::Abort) {
            let k = choose|k: int| 0 <= k < a.len() && a[k] == Action::Abort;
            if k < a.len() - 1 {
                assert(actions(s, init)[k] == Action::Abort);
            }
        }
        if a.contains(Action::CreateObject) {
            let k = choose|k: int| 0 <= k < a.len() && a[k] == Action::CreateObject;
            if k < a.len() - 1 {
                assert(actions(s, init)[k] == Action::CreateObject);
            }
        }
    }
}

/// Against a service that never connects, one round of answers brings the
/// session back to a fresh connect attempt, after one poll and one sleep.
pub proof fn lemma_retry_cycle(s: Session, code: i32, st: ChannelState)
    requires
        s.wf(),
        s.phase == Phase::Connecting,
        st != ChannelState::Connected,
    ensures
        ({
            let evs = seq![Event::ConnectDone(code), Event::StateRead(st), Event::PollDone, Event::SleepDone];
            &&& run(s, evs) == s
            &&& actions(s, evs) == seq![Action::ReadState, Action::Poll, Action::Sleep,
                Action::Connect(CONNECT_FLAGS)]
        }),
{
    let evs = seq![Event::ConnectDone(code), Event::StateRead(st), Event::PollDone, Event::SleepDone];
    assert(evs.drop_last() =~= seq![Event::ConnectDone(code), Event::StateRead(st), Event::PollDone]);
    assert(evs.drop_last().drop_last() =~= seq![Event::ConnectDone(code), Event::StateRead(st)]);
    assert(evs.drop_last().drop_last().drop_last() =~= seq![Event::ConnectDone(code)]);
    assert(evs.drop_last().drop_last().drop_last().drop_last() =~= Seq::<Event>::empty());
    reveal_with_fuel(run, 5);
    reveal_with_fuel(actions, 5);
    assert(actions(s, evs) =~= seq![Action::ReadState, Action::Poll, Action::Sleep,
        Action::Connect(CONNECT_FLAGS)]);
}

} // verus!
