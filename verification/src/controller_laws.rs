//! What holds of the controller over whole sequences of events: a drag
//! depends only on where it began and where the pointer is now, the wheel
//! never takes the scale out of its range, and the clock never runs
//! backward.

use vstd::prelude::*;
use crate::camera::{lemma_world_delta_of_nothing, Camera, ScreenPoint};
use crate::controller::{DragAnchor, InputEvent, PointerButton, ViewportController};

verus! {

/// The events of a pointer that visits the points of `path` in order.
pub open spec fn moves(path: Seq<ScreenPoint>) -> Seq<InputEvent> {
    Seq::new(path.len(), |i: int| InputEvent::PointerMoved { pos: path[i] })
}

/// The events of a wheel that is turned by each of `deltas` in order.
pub open spec fn scrolls(deltas: Seq<i32>) -> Seq<InputEvent> {
    Seq::new(deltas.len(), |i: int| InputEvent::Scroll { delta: deltas[i] })
}

/// Whether both components of the camera's scale lie in the controller's
/// range.
pub open spec fn scale_in_range(controller: ViewportController, camera: Camera) -> bool {
    &&& controller.scale_range.holds(camera.scale.x as int)
    &&& controller.scale_range.holds(camera.scale.y as int)
}

/// The events `first` followed by the events `second` lead where `second`
/// leads from the state that `first` leads to.
pub proof fn lemma_after_events_concat(
    controller: ViewportController,
    camera: Camera,
    first: Seq<InputEvent>,
    second: Seq<InputEvent>,
)
    ensures
        controller.after_events(camera, first + second) == ({
            let (between, seen) = controller.after_events(camera, first);
            between.after_events(seen, second)
        }),
    decreases second.len(),
{
    if second.len() == 0 {
        assert(first + second =~= first);
    } else {
        assert((first + second).drop_last() =~= first + second.drop_last());
        assert((first + second).last() == second.last());
        lemma_after_events_concat(controller, camera, first, second.drop_last());
    }
}

/// A single event leads where `after_event` says.
pub proof fn lemma_after_single_event(
    controller: ViewportController,
    camera: Camera,
    event: InputEvent,
)
    ensures
        controller.after_events(camera, seq![event]) == controller.after_event(camera, event),
{
    let events = seq![event];
    assert(events.drop_last() =~= Seq::<InputEvent>::empty());
    assert(events.last() == event);
    assert(controller.after_events(camera, events.drop_last()) == (controller, camera));
}

/// Path independence of pointer movement: however many intermediate
/// positions the pointer reports on its way, the controller and the camera
/// end where a single movement to the last position takes them.
pub proof fn law_moves_depend_on_last(
    controller: ViewportController,
    camera: Camera,
    path: Seq<ScreenPoint>,
)
    requires
        path.len() > 0,
    ensures
        controller.after_events(camera, moves(path)) == controller.after_event(
            camera,
            InputEvent::PointerMoved { pos: path.last() },
        ),
    decreases path.len(),
{
    let events = moves(path);
    assert(events.last() == InputEvent::PointerMoved { pos: path.last() });
    assert(events.drop_last() =~= moves(path.drop_last()));
    if path.len() == 1 {
        assert(controller.after_events(camera, events.drop_last()) == (controller, camera));
    } else {
        law_moves_depend_on_last(controller, camera, path.drop_last());
    }
}

/// Drag equivalence: a drag with the primary button from `start` along any
/// path leaves the camera where a single movement from `start` to the last
/// point of the path leaves it, at its position when the drag began less the
/// world displacement between the two points. The scale and the rotation are
/// as they were.
pub proof fn law_drag_equivalence(
    controller: ViewportController,
    camera: Camera,
    start: ScreenPoint,
    path: Seq<ScreenPoint>,
)
    requires
        controller.drag_anchor is None,
        path.len() > 0,
    ensures
        ({
            let press = InputEvent::PointerDown { pos: start, button: PointerButton::Primary };
            let (dragging, seen) = controller.after_events(camera, seq![press] + moves(path));
            let (direct, seen_direct) = controller.after_events(
                camera,
                seq![press, InputEvent::PointerMoved { pos: path.last() }],
            );
            &&& seen == seen_direct
            &&& dragging == direct
            &&& seen == Camera {
                position: camera.position.minus(
                    camera.world_delta(path.last().delta_from(start)),
                ),
                ..camera
            }
            &&& dragging.drag_anchor == Some(
                DragAnchor { screen: start, camera_position: camera.position },
            )
        }),
{
    let press = InputEvent::PointerDown { pos: start, button: PointerButton::Primary };
    let last = InputEvent::PointerMoved { pos: path.last() };
    lemma_after_single_event(controller, camera, press);
    lemma_after_events_concat(controller, camera, seq![press], moves(path));
    let (held, same) = controller.after_event(camera, press);
    law_moves_depend_on_last(held, same, path);
    assert(seq![press, last] =~= seq![press] + seq![last]);
    lemma_after_events_concat(controller, camera, seq![press], seq![last]);
    lemma_after_single_event(held, same, last);
}

/// A drag that comes back to the point where it began leaves the camera
/// where it was when the drag began.
pub proof fn law_drag_back_restores(
    controller: ViewportController,
    camera: Camera,
    start: ScreenPoint,
    path: Seq<ScreenPoint>,
)
    requires
        controller.drag_anchor is None,
        camera.wf(),
        path.len() > 0,
        path.last() == start,
    ensures
        ({
            let press = InputEvent::PointerDown { pos: start, button: PointerButton::Primary };
            controller.after_events(camera, seq![press] + moves(path)).1 == camera
        }),
{
    law_drag_equivalence(controller, camera, start, path);
    lemma_world_delta_of_nothing(camera);
}

/// No event changes the controller's range or zoom speed, and every event
/// leaves a scale that lay in the range inside it.
pub proof fn lemma_event_keeps_scale_in_range(
    controller: ViewportController,
    camera: Camera,
    event: InputEvent,
)
    requires
        controller.wf(),
    ensures
        ({
            let (after, seen) = controller.after_event(camera, event);
            &&& after.wf()
            &&& after.scale_range == controller.scale_range
            &&& after.zoom_speed == controller.zoom_speed
            &&& scale_in_range(controller, camera) || event is Scroll ==> scale_in_range(
                after,
                seen,
            )
        }),
{
}

/// Scale bounds as an invariant: a scale that lies in the range stays in it,
/// and so stays positive, through every sequence of events.
pub proof fn law_scale_stays_in_range(
    controller: ViewportController,
    camera: Camera,
    events: Seq<InputEvent>,
)
    requires
        controller.wf(),
        scale_in_range(controller, camera),
    ensures
        ({
            let (after, seen) = controller.after_events(camera, events);
            &&& after.wf()
            &&& after.scale_range == controller.scale_range
            &&& scale_in_range(after, seen)
            &&& seen.wf()
        }),
    decreases events.len(),
{
    if events.len() > 0 {
        law_scale_stays_in_range(controller, camera, events.drop_last());
        let (before, seen) = controller.after_events(camera, events.drop_last());
        lemma_event_keeps_scale_in_range(before, seen, events.last());
    }
}

/// Scale bounds under the wheel: after any sequence of wheel events that is
/// not empty, both components of the scale lie in the range and are
/// positive, wherever the scale began.
pub proof fn law_scroll_bounds_scale(
    controller: ViewportController,
    camera: Camera,
    deltas: Seq<i32>,
)
    requires
        controller.wf(),
        deltas.len() > 0,
    ensures
        ({
            let (after, seen) = controller.after_events(camera, scrolls(deltas));
            &&& after == controller
            &&& scale_in_range(controller, seen)
            &&& seen.scale.x > 0
            &&& seen.scale.y > 0
        }),
    decreases deltas.len(),
{
    let events = scrolls(deltas);
    assert(events.drop_last() =~= scrolls(deltas.drop_last()));
    assert(events.last() == InputEvent::Scroll { delta: deltas.last() });
    if deltas.len() == 1 {
        assert(controller.after_events(camera, events.drop_last()) == (controller, camera));
    } else {
        law_scroll_bounds_scale(controller, camera, deltas.drop_last());
    }
    let (before, seen) = controller.after_events(camera, events.drop_last());
    lemma_event_keeps_scale_in_range(before, seen, events.last());
}

/// An update keeps the controller well formed and does not lower the elapsed
/// time.
pub proof fn lemma_update_moves_forward(controller: ViewportController, now: u64)
    requires
        controller.wf(),
    ensures
        controller.clock_after(now).wf(),
        controller.elapsed <= controller.clock_after(now).elapsed,
        controller.clock_after(now).clock_origin is Some,
        controller.clock_origin is Some ==> controller.clock_after(now).clock_origin
            == controller.clock_origin,
{
}

/// Updates keep the controller well formed.
pub proof fn lemma_updates_keep_wf(controller: ViewportController, times: Seq<u64>)
    requires
        controller.wf(),
    ensures
        controller.after_updates(times).wf(),
    decreases times.len(),
{
    if times.len() > 0 {
        lemma_updates_keep_wf(controller, times.drop_last());
        lemma_update_moves_forward(controller.after_updates(times.drop_last()), times.last());
    }
}

/// Clock monotonicity: over any sequence of updates, the elapsed time after
/// the first `i` of them is not above the elapsed time after the first `j`,
/// for `i` not above `j`. This holds whatever times the host reports.
pub proof fn law_clock_never_runs_backward(
    controller: ViewportController,
    times: Seq<u64>,
    i: int,
    j: int,
)
    requires
        controller.wf(),
        0 <= i <= j <= times.len(),
    ensures
        controller.after_updates(times.take(i)).elapsed <= controller.after_updates(
            times.take(j),
        ).elapsed,
    decreases j - i,
{
    if i < j {
        law_clock_never_runs_backward(controller, times, i, j - 1);
        assert(times.take(j).drop_last() =~= times.take(j - 1));
        lemma_updates_keep_wf(controller, times.take(j - 1));
        lemma_update_moves_forward(controller.after_updates(times.take(j - 1)), times.take(j).last());
    }
}

/// Where the host's times do not decrease, a clock that was started by the
/// first of them shows, after the last, the time between the two.
pub proof fn law_clock_tracks_time(controller: ViewportController, times: Seq<u64>)
    requires
        controller.wf(),
        controller.clock_origin is None,
        times.len() > 0,
        forall|i: int, j: int| 0 <= i <= j < times.len() ==> times[i] <= times[j],
    ensures
        controller.after_updates(times).clock_origin == Some(times[0]),
        controller.after_updates(times).elapsed == times.last() - times[0],
    decreases times.len(),
{
    let earlier = times.drop_last();
    if times.len() == 1 {
        assert(controller.after_updates(earlier) == controller);
    } else {
        assert(forall|i: int, j: int| 0 <= i <= j < earlier.len() ==> earlier[i] <= earlier[j]) by {
            assert(forall|i: int| 0 <= i < earlier.len() ==> earlier[i] == times[i]);
        }
        law_clock_tracks_time(controller, earlier);
        assert(earlier.last() == times[times.len() - 2]);
        assert(earlier[0] == times[0]);
    }
}

} // verus!
