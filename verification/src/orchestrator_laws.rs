//! What holds of the orchestrator over whole sequences of occurrences: a
//! requested exit is final, a frame is always drawn at the size of the latest
//! resize, and nothing is drawn while the window has no width or no height.

use vstd::prelude::*;
use crate::camera::Viewport;
use crate::controller::{InputEvent, Key};
use crate::orchestrator::{
    frame_params,
    param_edit,
    Action,
    FrameOrchestrator,
    LoopState,
    Occurrence,
    WindowEvent,
};
use crate::surface::FrameError;

verus! {

/// Whether an occurrence is a change of the window's size.
pub open spec fn is_resize(occurrence: Occurrence) -> bool {
    occurrence matches Occurrence::Window(WindowEvent::Resized { .. })
}

/// Whether no occurrence of the sequence is a change of the window's size.
pub open spec fn without_resize(occurrences: Seq<Occurrence>) -> bool {
    forall|i: int| 0 <= i < occurrences.len() ==> !is_resize(#[trigger] occurrences[i])
}

/// Whether an action belongs to the submission of a frame: its acquisition,
/// its drawing or its presentation.
pub open spec fn submits(action: Action) -> bool {
    action is AcquireFrame || action is Render || action is Present
}

/// Every occurrence leaves a well formed orchestrator well formed.
pub proof fn lemma_after_keeps_wf(o: FrameOrchestrator, occurrence: Occurrence)
    requires
        o.wf(),
    ensures
        o.after(occurrence).0.wf(),
{
    match occurrence {
        Occurrence::Window(WindowEvent::Input(event)) => {
            crate::controller_laws::lemma_event_keeps_scale_in_range(o.controller, o.camera, event);
            lemma_event_keeps_camera_wf(o, event);
        },
        Occurrence::RedrawRequested { now } => {
            crate::controller_laws::lemma_update_moves_forward(o.controller, now);
        },
        _ => {},
    }
}

/// No input event makes a component of the camera's scale zero.
proof fn lemma_event_keeps_camera_wf(o: FrameOrchestrator, event: InputEvent)
    requires
        o.wf(),
    ensures
        o.controller.after_event(o.camera, event).1.wf(),
{
}

/// Every sequence of occurrences leaves a well formed orchestrator well
/// formed.
pub proof fn lemma_after_all_keeps_wf(o: FrameOrchestrator, occurrences: Seq<Occurrence>)
    requires
        o.wf(),
    ensures
        o.after_all(occurrences).0.wf(),
    decreases occurrences.len(),
{
    if occurrences.len() > 0 {
        lemma_after_all_keeps_wf(o, occurrences.drop_last());
        lemma_after_keeps_wf(o.after_all(occurrences.drop_last()).0, occurrences.last());
    }
}

/// Terminal state: once an exit is requested, no sequence of occurrences
/// changes the orchestrator or is answered with any call; in particular no
/// frame is run any more.
pub proof fn law_exit_is_final(o: FrameOrchestrator, occurrences: Seq<Occurrence>)
    requires
        o.state is ExitRequested,
    ensures
        o.after_all(occurrences) == (o, Seq::<Action>::empty()),
    decreases occurrences.len(),
{
    if occurrences.len() > 0 {
        law_exit_is_final(o, occurrences.drop_last());
        assert(Seq::<Action>::empty() + Seq::<Action>::empty() =~= Seq::<Action>::empty());
    }
}

/// The occurrences `first` followed by the occurrences `second` lead where
/// `second` leads from the state that `first` leads to, and are answered
/// with the calls of both.
pub proof fn lemma_after_all_concat(
    o: FrameOrchestrator,
    first: Seq<Occurrence>,
    second: Seq<Occurrence>,
)
    ensures
        o.after_all(first + second) == ({
            let (between, earlier) = o.after_all(first);
            let (end, later) = between.after_all(second);
            (end, earlier + later)
        }),
    decreases second.len(),
{
    let (between, earlier) = o.after_all(first);
    if second.len() == 0 {
        assert(first + second =~= first);
        assert(earlier + Seq::<Action>::empty() =~= earlier);
    } else {
        assert((first + second).drop_last() =~= first + second.drop_last());
        assert((first + second).last() == second.last());
        lemma_after_all_concat(o, first, second.drop_last());
        let (before, middle) = between.after_all(second.drop_last());
        let (end, actions) = before.after(second.last());
        assert(earlier + (middle + actions) =~= (earlier + middle) + actions);
    }
}

/// A single occurrence leads where `after` says.
pub proof fn lemma_after_single(o: FrameOrchestrator, occurrence: Occurrence)
    ensures
        o.after_all(seq![occurrence]) == o.after(occurrence),
{
    let occurrences = seq![occurrence];
    assert(occurrences.drop_last() =~= Seq::<Occurrence>::empty());
    assert(occurrences.last() == occurrence);
    assert(o.after_all(occurrences.drop_last()) == (o, Seq::<Action>::empty()));
    assert(Seq::<Action>::empty() + o.after(occurrence).1 =~= o.after(occurrence).1);
}

/// Both a request to close the window and a press of the escape key request
/// the exit, and whatever the host delivers afterwards is answered with no
/// call.
pub proof fn law_close_and_escape_end_the_loop(
    o: FrameOrchestrator,
    close: bool,
    later: Seq<Occurrence>,
)
    ensures
        ({
            let request = if close {
                Occurrence::Window(WindowEvent::CloseRequested)
            } else {
                Occurrence::Window(
                    WindowEvent::Input(InputEvent::KeyDown { key: Key::Escape }),
                )
            };
            let (end, actions) = o.after_all(seq![request] + later);
            &&& end.state is ExitRequested
            &&& actions == Seq::<Action>::empty()
            &&& end == o.after(request).0
        }),
{
    let request = if close {
        Occurrence::Window(WindowEvent::CloseRequested)
    } else {
        Occurrence::Window(WindowEvent::Input(InputEvent::KeyDown { key: Key::Escape }))
    };
    lemma_after_single(o, request);
    lemma_after_all_concat(o, seq![request], later);
    law_exit_is_final(o.after(request).0, later);
    assert(Seq::<Action>::empty() + Seq::<Action>::empty() =~= Seq::<Action>::empty());
}

/// Only a change of the window's size changes the stored configuration or
/// whether there is a surface to draw on.
pub proof fn lemma_surface_changes_on_resize_only(o: FrameOrchestrator, occurrence: Occurrence)
    requires
        !is_resize(occurrence),
    ensures
        o.after(occurrence).0.config == o.config,
        o.after(occurrence).0.surface_live == o.surface_live,
{
}

/// Through a sequence of occurrences without a change of size the stored
/// configuration stays as it is, and so does whether there is a surface to
/// draw on.
pub proof fn lemma_surface_kept_without_resize(o: FrameOrchestrator, occurrences: Seq<Occurrence>)
    requires
        without_resize(occurrences),
    ensures
        o.after_all(occurrences).0.config == o.config,
        o.after_all(occurrences).0.surface_live == o.surface_live,
    decreases occurrences.len(),
{
    if occurrences.len() > 0 {
        let earlier = occurrences.drop_last();
        assert(without_resize(earlier)) by {
            assert(forall|i: int| 0 <= i < earlier.len() ==> earlier[i] == occurrences[i]);
        }
        lemma_surface_kept_without_resize(o, earlier);
        assert(!is_resize(occurrences.last())) by {
            assert(occurrences.last() == occurrences[occurrences.len() - 1]);
        }
        lemma_surface_changes_on_resize_only(o.after_all(earlier).0, occurrences.last());
    }
}

/// Resize before render: after the window is given the size `width` by
/// `height`, neither of them zero, the frame of the next request to redraw
/// is drawn at that size and at no earlier one, whatever else the host
/// delivers in between short of another change of size; and the surface and
/// the renderer were given that size when the change arrived.
pub proof fn law_frame_uses_latest_size(
    o: FrameOrchestrator,
    width: u32,
    height: u32,
    between: Seq<Occurrence>,
    now: u64,
)
    requires
        o.state is Running,
        width > 0,
        height > 0,
        without_resize(between),
    ensures
        ({
            let size = Viewport { width, height };
            let (resized, answer) = o.after(
                Occurrence::Window(WindowEvent::Resized { width, height }),
            );
            let (ready, _) = resized.after_all(between);
            let (drawn, actions) = ready.after(Occurrence::RedrawRequested { now });
            &&& answer == seq![
                Action::ConfigureSurface(o.config.resized(width, height)),
                Action::ResizeRenderer(size),
                Action::RequestRedraw,
            ]
            &&& ready.config.size() == size
            &&& ready.state is Running ==> actions == param_edit(
                frame_params(drawn.controller.elapsed, ready.camera),
            ) + seq![
                Action::AcquireFrame,
                Action::Render { viewport: size, camera: ready.camera },
                Action::Present,
            ]
            &&& forall|i: int|
                0 <= i < actions.len() ==> (#[trigger] actions[i] matches Action::Render {
                    viewport,
                    ..
                } ==> viewport == size)
        }),
{
    let size = Viewport { width, height };
    let (resized, answer) = o.after(Occurrence::Window(WindowEvent::Resized { width, height }));
    lemma_surface_kept_without_resize(resized, between);
    let (ready, _) = resized.after_all(between);
    let (drawn, actions) = ready.after(Occurrence::RedrawRequested { now });
    if ready.state is Running {
        let edit = param_edit(frame_params(drawn.controller.elapsed, ready.camera));
        assert(edit =~= seq![Action::BeginParamEdit, Action::EndParamEdit]);
    }
}

/// No drawing without a size: after the window is given a size without
/// width or without height, the surface is not configured, and no request
/// to redraw is answered with the acquisition, the drawing or the
/// presentation of a frame until the window is given a size again.
pub proof fn law_no_frame_without_size(
    o: FrameOrchestrator,
    width: u32,
    height: u32,
    between: Seq<Occurrence>,
    now: u64,
)
    requires
        width == 0 || height == 0,
        without_resize(between),
    ensures
        ({
            let (resized, answer) = o.after(
                Occurrence::Window(WindowEvent::Resized { width, height }),
            );
            let (ready, _) = resized.after_all(between);
            let (_, actions) = ready.after(Occurrence::RedrawRequested { now });
            &&& answer == Seq::<Action>::empty()
            &&& resized.config == o.config
            &&& forall|i: int| 0 <= i < actions.len() ==> !submits(#[trigger] actions[i])
        }),
{
    let (resized, answer) = o.after(Occurrence::Window(WindowEvent::Resized { width, height }));
    lemma_surface_kept_without_resize(resized, between);
    let (ready, _) = resized.after_all(between);
    let (drawn, actions) = ready.after(Occurrence::RedrawRequested { now });
    if o.state is ExitRequested {
        law_exit_is_final(o, between);
    } else if ready.state is Running {
        let edit = param_edit(frame_params(drawn.controller.elapsed, ready.camera));
        assert(edit =~= seq![Action::BeginParamEdit, Action::EndParamEdit]);
        assert(actions =~= edit);
    }
}

/// A frame that could not be acquired ends the loop exactly when the device
/// is lost; after any other error the loop goes on, the surface is
/// configured with the stored configuration where there is one to draw on,
/// and nothing is drawn in answer.
pub proof fn law_frame_failure_is_handled(o: FrameOrchestrator, error: FrameError)
    requires
        o.state is Running,
    ensures
        ({
            let (next, actions) = o.after_frame_failure(error);
            &&& next.state is ExitRequested <==> error is DeviceLost
            &&& next.config == o.config
            &&& next.camera == o.camera
            &&& next.controller == o.controller
            &&& forall|i: int| 0 <= i < actions.len() ==> !submits(#[trigger] actions[i])
            &&& !(error is DeviceLost) && o.surface_live ==> actions == seq![
                Action::ConfigureSurface(o.config),
            ]
        }),
{
}

} // verus!
