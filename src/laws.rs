use vstd::prelude::*;

use crate::mode::{mode_of, WallpaperMode};
use crate::request::{
    accepts, begin_spec, confirmation, finish, step_spec, ActionView, EventView, Phase,
    RequestView,
};

verus! {

/// The state a request reaches and the calls it asks for when the events
/// answer its calls in turn; the run stops at the first event that does not
/// answer the call waited on.
pub open spec fn run(v: RequestView, events: Seq<EventView>) -> (RequestView, Seq<ActionView>)
    decreases events.len(),
{
    if events.len() == 0 || !accepts(v, events[0]) {
        (v, Seq::empty())
    } else {
        let next = step_spec(v, events[0]);
        let rest = run(next.0, events.drop_first());
        (rest.0, seq![next.1] + rest.1)
    }
}

/// How many of the calls set the image on every monitor.
pub open spec fn global_set_calls(actions: Seq<ActionView>) -> nat
    decreases actions.len(),
{
    if actions.len() == 0 {
        0
    } else {
        (if actions[0] is SetOnAll { 1nat } else { 0nat }) + global_set_calls(actions.drop_first())
    }
}

/// How many of the calls set the image on one monitor.
pub open spec fn monitor_set_calls(actions: Seq<ActionView>) -> nat
    decreases actions.len(),
{
    if actions.len() == 0 {
        0
    } else {
        (if actions[0] is SetOnPath { 1nat } else { 0nat }) + monitor_set_calls(
            actions.drop_first(),
        )
    }
}

/// Every call a request asks for, from its first on, over a run of events.
pub open spec fn all_calls(mode_text: Seq<char>, events: Seq<EventView>) -> Seq<ActionView> {
    seq![begin_spec(mode_text).1] + run(begin_spec(mode_text).0, events).1
}

/// The state a request reaches over a run of events.
pub open spec fn final_state(mode_text: Seq<char>, events: Seq<EventView>) -> RequestView {
    run(begin_spec(mode_text).0, events).0
}

/// Over any run, a request stays well formed, and the set-wallpaper counters
/// of its state grow by the set-wallpaper calls it asked for.
pub proof fn lemma_run_counts(v: RequestView, events: Seq<EventView>)
    requires
        v.well_formed(),
    ensures
        run(v, events).0.well_formed(),
        run(v, events).0.mode == v.mode,
        run(v, events).0.global_sets == v.global_sets + global_set_calls(run(v, events).1),
        run(v, events).0.monitor_sets == v.monitor_sets + monitor_set_calls(run(v, events).1),
    decreases events.len(),
{
    if events.len() == 0 || !accepts(v, events[0]) {
    } else {
        let next = step_spec(v, events[0]);
        crate::request::lemma_step_keeps_well_formed(v, events[0]);
        lemma_run_counts(next.0, events.drop_first());
        let rest = run(next.0, events.drop_first());
        assert((seq![next.1] + rest.1).drop_first() =~= rest.1);
    }
}

proof fn lemma_begin_counts(mode_text: Seq<char>, events: Seq<EventView>)
    ensures
        final_state(mode_text, events).well_formed(),
        final_state(mode_text, events).mode == mode_of(mode_text),
        final_state(mode_text, events).global_sets == global_set_calls(all_calls(mode_text, events)),
        final_state(mode_text, events).monitor_sets == monitor_set_calls(
            all_calls(mode_text, events),
        ),
{
    let v = begin_spec(mode_text).0;
    lemma_run_counts(v, events);
    assert(all_calls(mode_text, events).drop_first() =~= run(v, events).1);
}

/// A request for every monitor asks for the call that sets every monitor at
/// most once, and for no call on a single monitor; when it succeeds, it has
/// asked for that call exactly once, whatever the number of monitors.
pub proof fn lemma_every_sets_all_once(mode_text: Seq<char>, events: Seq<EventView>)
    requires
        mode_of(mode_text) == Some(WallpaperMode::Every),
    ensures
        global_set_calls(all_calls(mode_text, events)) <= 1,
        monitor_set_calls(all_calls(mode_text, events)) == 0,
        final_state(mode_text, events).outcome == Some(Ok::<Seq<char>, Seq<char>>(confirmation()))
            ==> global_set_calls(all_calls(mode_text, events)) == 1,
{
    lemma_begin_counts(mode_text, events);
}

/// A request for the monitor under the cursor sets the image on at most one
/// monitor, and never on every monitor.
pub proof fn lemma_current_sets_at_most_one(mode_text: Seq<char>, events: Seq<EventView>)
    requires
        mode_of(mode_text) == Some(WallpaperMode::Current),
    ensures
        monitor_set_calls(all_calls(mode_text, events)) <= 1,
        global_set_calls(all_calls(mode_text, events)) == 0,
{
    lemma_begin_counts(mode_text, events);
}

/// A request for the monitor under the cursor whose resolution produced no
/// identifier asks for no set-wallpaper call; once it holds the service, it
/// finishes with success.
pub proof fn lemma_unresolved_current_is_noop(mode_text: Seq<char>, events: Seq<EventView>)
    requires
        mode_of(mode_text) == Some(WallpaperMode::Current),
        final_state(mode_text, events).target is None,
    ensures
        global_set_calls(all_calls(mode_text, events)) == 0,
        monitor_set_calls(all_calls(mode_text, events)) == 0,
        final_state(mode_text, events).phase == Phase::Service ==> step_spec(
            final_state(mode_text, events),
            EventView::ServiceCreated(Ok(())),
        ) == finish(final_state(mode_text, events), Ok(confirmation())),
{
    lemma_begin_counts(mode_text, events);
}

/// The events that answer a search of the monitor paths with these paths.
pub open spec fn path_answers(paths: Seq<Seq<char>>) -> Seq<EventView> {
    paths.map_values(|p: Seq<char>| EventView::PathRead(Ok(p)))
}

proof fn lemma_search_misses(v: RequestView, paths: Seq<Seq<char>>)
    requires
        v.well_formed(),
        v.phase == Phase::Path,
        paths.len() >= 1,
        v.index + paths.len() == v.count,
        forall|i: int| 0 <= i < paths.len() ==> v.target != Some(paths[i]),
    ensures
        run(v, path_answers(paths)).0.phase == Phase::Done,
        run(v, path_answers(paths)).0.outcome == Some(
            Ok::<Seq<char>, Seq<char>>(confirmation()),
        ),
        monitor_set_calls(run(v, path_answers(paths)).1) == 0,
        global_set_calls(run(v, path_answers(paths)).1) == 0,
    decreases paths.len(),
{
    let events = path_answers(paths);
    assert(events[0] == EventView::PathRead(Ok(paths[0])));
    assert(v.target != Some(paths[0]));
    let next = step_spec(v, events[0]);
    crate::request::lemma_step_keeps_well_formed(v, events[0]);
    let rest = path_answers(paths.drop_first());
    assert(events.drop_first() =~= rest);
    if paths.len() == 1 {
        assert(next.0.phase == Phase::Done);
        assert(run(next.0, rest).1 =~= Seq::<ActionView>::empty());
    } else {
        assert forall|i: int| 0 <= i < paths.drop_first().len() implies next.0.target != Some(
            paths.drop_first()[i],
        ) by {
            assert(paths.drop_first()[i] == paths[i + 1]);
        }
        lemma_search_misses(next.0, paths.drop_first());
    }
    let acts = run(v, events).1;
    assert(acts[0] == next.1);
    assert(!(next.1 is SetOnPath) && !(next.1 is SetOnAll));
    assert(acts.drop_first() =~= run(next.0, rest).1);
    assert(monitor_set_calls(acts) == monitor_set_calls(acts.drop_first()));
    assert(global_set_calls(acts) == global_set_calls(acts.drop_first()));
}

/// A request whose resolved identifier matches none of the monitor paths
/// finishes with success and sets the image on no monitor.
pub proof fn lemma_unmatched_target_is_noop(v: RequestView, paths: Seq<Seq<char>>)
    requires
        v.well_formed(),
        v.phase == Phase::Count,
        paths.len() <= u32::MAX,
        forall|i: int| 0 <= i < paths.len() ==> v.target != Some(paths[i]),
    ensures
        ({
            let r = run(v, seq![EventView::PathsCounted(Ok(paths.len()))] + path_answers(paths));
            &&& r.0.phase == Phase::Done
            &&& r.0.outcome == Some(Ok::<Seq<char>, Seq<char>>(confirmation()))
            &&& monitor_set_calls(r.1) == 0
            &&& global_set_calls(r.1) == 0
        }),
{
    let events = seq![EventView::PathsCounted(Ok(paths.len()))] + path_answers(paths);
    let next = step_spec(v, events[0]);
    crate::request::lemma_step_keeps_well_formed(v, events[0]);
    assert(events.drop_first() =~= path_answers(paths));
    assert(accepts(v, events[0]));
    if paths.len() == 0 {
        assert(path_answers(paths) =~= Seq::<EventView>::empty());
    } else {
        lemma_search_misses(next.0, paths);
    }
    let acts = run(v, events).1;
    assert(acts[0] == next.1);
    assert(!(next.1 is SetOnPath) && !(next.1 is SetOnAll));
    assert(acts.drop_first() =~= run(next.0, path_answers(paths)).1);
    assert(monitor_set_calls(acts) == monitor_set_calls(acts.drop_first()));
    assert(global_set_calls(acts) == global_set_calls(acts.drop_first()));
    if paths.len() == 0 {
        assert(run(next.0, path_answers(paths)).0 == next.0);
    }
}

/// The same request with `Some(WallpaperMode::Current)` as its mode.
pub open spec fn as_current(v: RequestView) -> RequestView {
    RequestView { mode: Some(WallpaperMode::Current), ..v }
}

proof fn lemma_unrecognized_runs_as_unresolved(v: RequestView, events: Seq<EventView>)
    requires
        v.well_formed(),
        v.mode is None,
        v.target is None,
        v.phase == Phase::Init || v.phase == Phase::Service || v.phase == Phase::Done,
    ensures
        run(v, events).1 == run(as_current(v), events).1,
        run(as_current(v), events).0 == as_current(run(v, events).0),
    decreases events.len(),
{
    if events.len() == 0 || !accepts(v, events[0]) {
    } else {
        crate::request::lemma_step_keeps_well_formed(v, events[0]);
        let next = step_spec(v, events[0]);
        assert(step_spec(as_current(v), events[0]).0 == as_current(next.0));
        lemma_unrecognized_runs_as_unresolved(next.0, events.drop_first());
    }
}

/// A request whose mode text names no mode asks for the same calls, and
/// finishes the same way, as a request for the monitor under the cursor
/// whose cursor could not be read: a no-op that succeeds.
pub proof fn lemma_unrecognized_mode_is_unresolved_current(
    mode_text: Seq<char>,
    events: Seq<EventView>,
)
    requires
        mode_of(mode_text) is None,
    ensures
        ({
            let current = begin_spec("current"@).0;
            let unresolved = step_spec(current, EventView::CursorQueried(false));
            &&& begin_spec(mode_text).1 == unresolved.1
            &&& run(unresolved.0, events).1 == run(begin_spec(mode_text).0, events).1
            &&& run(unresolved.0, events).0.outcome == final_state(mode_text, events).outcome
        }),
{
    reveal_strlit("current");
    reveal_strlit("every");
    let v = begin_spec(mode_text).0;
    let unresolved = step_spec(begin_spec("current"@).0, EventView::CursorQueried(false));
    assert("current"@.len() != "every"@.len());
    assert(mode_of("current"@) == Some(WallpaperMode::Current));
    assert(unresolved.0 == as_current(v));
    lemma_unrecognized_runs_as_unresolved(v, events);
}

/// A failure to create the wallpaper service ends the request with that
/// failure's text, before any set-wallpaper call.
pub proof fn lemma_service_failure_is_reported(v: RequestView, message: Seq<char>)
    requires
        v.well_formed(),
        v.phase == Phase::Service,
    ensures
        ({
            let next = step_spec(v, EventView::ServiceCreated(Err(message)));
            &&& next.1 == ActionView::Finish(Err(message))
            &&& next.0.outcome == Some(Err::<Seq<char>, Seq<char>>(message))
            &&& next.0.global_sets == 0
            &&& next.0.monitor_sets == 0
        }),
{
}

/// The search of the monitor paths stops at the first path equal to the
/// target: the image is set on that path, and the answer to that call ends
/// the request, so no later path is read.
pub proof fn lemma_first_match_stops_search(v: RequestView, path: Seq<char>, answer: EventView)
    requires
        v.well_formed(),
        v.phase == Phase::Path,
        v.target == Some(path),
    ensures
        ({
            let next = step_spec(v, EventView::PathRead(Ok(path)));
            &&& next.1 == ActionView::SetOnPath(v.index)
            &&& next.0.phase == Phase::SetOne
            &&& next.0.monitor_sets == 1
            &&& accepts(next.0, answer) ==> step_spec(next.0, answer).0.phase == Phase::Done
                && step_spec(next.0, answer).1 is Finish
        }),
{
}

} // verus!
