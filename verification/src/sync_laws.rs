//! What holds of every run of the sync driver.

use crate::sync::{
    request_from, start_spec, step_spec, SyncActionView, SyncDriverView, SyncEventView, SyncPhase,
};
use vstd::prelude::*;

verus! {

/// The driver after the given events, and the actions of its steps in
/// order.
pub open spec fn run(driver: SyncDriverView, events: Seq<SyncEventView>) -> (
    SyncDriverView,
    Seq<SyncActionView>,
)
    decreases events.len(),
{
    if events.len() == 0 {
        (driver, Seq::empty())
    } else {
        let (next, action) = step_spec(driver, events[0]);
        let (last, rest) = run(next, events.drop_first());
        (last, seq![action] + rest)
    }
}

/// A whole run from the start: the first action, then those of the steps
/// over the given events.
pub open spec fn drive(initial: Option<Seq<char>>, events: Seq<SyncEventView>) -> (
    SyncDriverView,
    Seq<SyncActionView>,
) {
    let (started, first) = start_spec(initial);
    let (last, rest) = run(started, events);
    (last, seq![first] + rest)
}

/// How many sync rounds the actions ask for.
pub open spec fn attempts(actions: Seq<SyncActionView>) -> nat
    decreases actions.len(),
{
    if actions.len() == 0 {
        0
    } else {
        let earlier = attempts(actions.drop_last());
        if actions.last() is RequestRound {
            earlier + 1
        } else {
            earlier
        }
    }
}

/// The cursors that the actions ask to persist, in order.
pub open spec fn persisted(actions: Seq<SyncActionView>) -> Seq<Seq<char>>
    decreases actions.len(),
{
    if actions.len() == 0 {
        Seq::empty()
    } else {
        let earlier = persisted(actions.drop_last());
        match actions.last() {
            SyncActionView::Persist(cursor) => earlier.push(cursor),
            _ => earlier,
        }
    }
}

/// `failures` failed rounds followed by one that succeeds with `cursor`.
pub open spec fn failures_then_success(failures: nat, cursor: Seq<char>) -> Seq<SyncEventView> {
    Seq::new(failures, |i: int| SyncEventView::RoundFailed).push(
        SyncEventView::RoundSucceeded(cursor),
    )
}

/// `count` requests for a round that continues from `since`.
pub open spec fn repeated_requests(count: nat, since: Option<Seq<char>>) -> Seq<SyncActionView> {
    Seq::new(count, |i: int| SyncActionView::RequestRound(request_from(since)))
}

/// A run produces one action per event.
pub proof fn lemma_run_len(driver: SyncDriverView, events: Seq<SyncEventView>)
    ensures
        run(driver, events).1.len() == events.len(),
    decreases events.len(),
{
    if events.len() > 0 {
        let (next, _action) = step_spec(driver, events[0]);
        lemma_run_len(next, events.drop_first());
    }
}

/// While catching up, failed rounds are answered by as many new requests
/// with unchanged settings, and the round that succeeds by persisting its
/// cursor.
proof fn lemma_catch_up_run(since: Option<Seq<char>>, failures: nat, cursor: Seq<char>)
    ensures
        run(
            SyncDriverView { phase: SyncPhase::CatchUp, since },
            failures_then_success(failures, cursor),
        ) == (
            SyncDriverView { phase: SyncPhase::CatchUpPersisting, since: Some(cursor) },
            repeated_requests(failures, since).push(SyncActionView::Persist(cursor)),
        ),
    decreases failures,
{
    let driver = SyncDriverView { phase: SyncPhase::CatchUp, since };
    let events = failures_then_success(failures, cursor);
    if failures == 0 {
        reveal_with_fuel(run, 2);
        assert(events.drop_first() =~= Seq::<SyncEventView>::empty());
        assert(run(driver, events).1 =~= repeated_requests(0, since).push(
            SyncActionView::Persist(cursor),
        ));
    } else {
        let fewer = (failures - 1) as nat;
        assert(events.drop_first() =~= failures_then_success(fewer, cursor));
        lemma_catch_up_run(since, fewer, cursor);
        assert(run(driver, events).1 =~= repeated_requests(failures, since).push(
            SyncActionView::Persist(cursor),
        ));
    }
}

/// Requests for a round, and nothing else, count as one attempt each and
/// persist nothing.
proof fn lemma_count_requests(count: nat, since: Option<Seq<char>>)
    ensures
        attempts(repeated_requests(count, since)) == count,
        persisted(repeated_requests(count, since)) == Seq::<Seq<char>>::empty(),
    decreases count,
{
    if count > 0 {
        let fewer = (count - 1) as nat;
        assert(repeated_requests(count, since).drop_last() =~= repeated_requests(fewer, since));
        lemma_count_requests(fewer, since);
    }
}

/// The retry loop of the catch-up phase: when the first `failures` rounds
/// fail and the next one succeeds, the driver asks for exactly
/// `failures + 1` rounds, each seeded with the cursor it was started with,
/// and then asks to persist the cursor of the round that succeeded,
/// exactly once, and nothing else.
pub proof fn law_catch_up_retries_until_success(
    initial: Option<Seq<char>>,
    failures: nat,
    cursor: Seq<char>,
)
    ensures
        drive(initial, failures_then_success(failures, cursor)) == (
            SyncDriverView { phase: SyncPhase::CatchUpPersisting, since: Some(cursor) },
            repeated_requests(failures + 1, initial).push(SyncActionView::Persist(cursor)),
        ),
        attempts(drive(initial, failures_then_success(failures, cursor)).1) == failures + 1,
        persisted(drive(initial, failures_then_success(failures, cursor)).1) == seq![cursor],
{
    lemma_catch_up_run(initial, failures, cursor);
    let requests = repeated_requests(failures + 1, initial);
    let actions = requests.push(SyncActionView::Persist(cursor));
    assert(drive(initial, failures_then_success(failures, cursor)).1 =~= actions);
    lemma_count_requests(failures + 1, initial);
    assert(actions.drop_last() =~= requests);
    assert(persisted(actions) =~= seq![cursor]);
}

/// Once the cursor of the catch-up round is persisted the driver listens,
/// continuing from that cursor; if it cannot be persisted the loop ends.
pub proof fn law_catch_up_ends_by_listening(initial: Option<Seq<char>>, failures: nat, cursor: Seq<char>)
    ensures
        drive(
            initial,
            failures_then_success(failures, cursor).push(SyncEventView::Persisted),
        ).0 == (SyncDriverView { phase: SyncPhase::SteadyState, since: Some(cursor) }),
        drive(
            initial,
            failures_then_success(failures, cursor).push(SyncEventView::Persisted),
        ).1.last() == SyncActionView::Listen(request_from(Some(cursor))),
{
    let events = failures_then_success(failures, cursor);
    let (started, _first) = start_spec(initial);
    lemma_catch_up_run(initial, failures, cursor);
    lemma_run_push(started, events, SyncEventView::Persisted);
}

/// Running over events and one more is the run over the events followed
/// by one step.
pub proof fn lemma_run_push(
    driver: SyncDriverView,
    events: Seq<SyncEventView>,
    event: SyncEventView,
)
    ensures
        run(driver, events.push(event)) == ({
            let (before, actions) = run(driver, events);
            let (last, action) = step_spec(before, event);
            (last, actions.push(action))
        }),
    decreases events.len(),
{
    if events.len() == 0 {
        reveal_with_fuel(run, 2);
        assert(events.push(event).drop_first() =~= Seq::<SyncEventView>::empty());
        assert(run(driver, events.push(event)).1 =~= run(driver, events).1.push(
            step_spec(driver, event).1,
        ));
    } else {
        let (next, _action) = step_spec(driver, events[0]);
        assert(events.push(event).drop_first() =~= events.drop_first().push(event));
        lemma_run_push(next, events.drop_first(), event);
        assert(run(driver, events.push(event)).1 =~= run(driver, events).1.push(
            step_spec(run(driver, events).0, event).1,
        ));
    }
}

/// The driver persists nothing but the cursor of the round that has just
/// succeeded, and remembers that cursor: in every run, an action that
/// asks to persist a cursor answers the event that delivered it.
pub proof fn law_persists_only_delivered_cursors(
    driver: SyncDriverView,
    events: Seq<SyncEventView>,
    i: int,
)
    requires
        0 <= i < events.len(),
    ensures
        run(driver, events).1.len() == events.len(),
        run(driver, events).1[i] matches SyncActionView::Persist(cursor) ==> events[i]
            == SyncEventView::RoundSucceeded(cursor),
    decreases events.len(),
{
    lemma_run_len(driver, events);
    let (next, _action) = step_spec(driver, events[0]);
    lemma_run_len(next, events.drop_first());
    if i > 0 {
        law_persists_only_delivered_cursors(next, events.drop_first(), i - 1);
    }
}

/// After a round has succeeded, nothing but the persisting of its cursor
/// lets the driver go on: while the cursor is being persisted, a failure
/// to do so ends the loop for good.
pub proof fn law_persist_failure_is_fatal(
    driver: SyncDriverView,
    later: Seq<SyncEventView>,
    i: int,
)
    requires
        driver.phase == SyncPhase::CatchUpPersisting || driver.phase
            == SyncPhase::SteadyStatePersisting,
        0 <= i < later.len(),
    ensures
        run(driver, seq![SyncEventView::PersistFailed] + later).0.phase == SyncPhase::Failed(
            crate::sync::SyncError::Persist,
        ),
        run(driver, seq![SyncEventView::PersistFailed] + later).1[i + 1] == SyncActionView::Stop(
            crate::sync::SyncError::Persist,
        ),
{
    let events = seq![SyncEventView::PersistFailed] + later;
    let (failed, _action) = step_spec(driver, SyncEventView::PersistFailed);
    assert(events.drop_first() =~= later);
    lemma_failed_stays_failed(failed, later, i);
    lemma_run_len(failed, later);
}

/// A driver whose loop has ended answers every event with the error.
proof fn lemma_failed_stays_failed(driver: SyncDriverView, events: Seq<SyncEventView>, i: int)
    requires
        driver.phase is Failed,
    ensures
        run(driver, events).0 == driver,
        0 <= i < events.len() ==> run(driver, events).1[i] == SyncActionView::Stop(
            driver.phase->Failed_0,
        ),
    decreases events.len(),
{
    if events.len() > 0 {
        lemma_run_len(driver, events.drop_first());
        lemma_failed_stays_failed(driver, events.drop_first(), i - 1);
    }
}

} // verus!
