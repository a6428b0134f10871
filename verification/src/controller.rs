//! The viewport controller: it turns pointer, wheel and keyboard events into
//! changes of the camera, and keeps the animation clock.
//!
//! Dragging with the primary button moves the camera against the pointer, so
//! that the content under the pointer follows it. The wheel multiplies the
//! scale by one plus the zoom speed for every notch away from the user, and
//! divides it for every notch toward the user; the result is kept inside the
//! configured range. Times are counted in millionths of a second.

use vstd::prelude::*;
use crate::camera::{Camera, Scale, ScreenPoint, Viewport, WorldVector};
use crate::fixed::UNIT;

verus! {

/// A button of the pointing device.
#[derive(Clone, Copy, Debug, PartialEq, Eq, Structural)]
pub enum PointerButton {
    Primary,
    Secondary,
    Middle,
    Other(u16),
}

/// A key of the keyboard, as far as the viewport tells keys apart.
#[derive(Clone, Copy, Debug, PartialEq, Eq, Structural)]
pub enum Key {
    Escape,
    Other(u32),
}

/// An input event that the host window delivers.
#[derive(Clone, Copy, Debug, PartialEq, Eq, Structural)]
pub enum InputEvent {
    PointerDown { pos: ScreenPoint, button: PointerButton },
    PointerUp { pos: ScreenPoint, button: PointerButton },
    PointerMoved { pos: ScreenPoint },
    /// The wheel was turned by `delta` notches, away from the user when
    /// positive.
    Scroll { delta: i32 },
    KeyDown { key: Key },
    KeyUp { key: Key },
}

/// Where a drag began: the pointer's position and the camera's position at
/// that moment.
#[derive(Clone, Copy, Debug, PartialEq, Eq, Structural)]
pub struct DragAnchor {
    pub screen: ScreenPoint,
    pub camera_position: WorldVector,
}

/// The bounds, both included, between which the wheel keeps either component
/// of the camera's scale.
#[derive(Clone, Copy, Debug, PartialEq, Eq, Structural)]
pub struct ScaleRange {
    pub min: u32,
    pub max: u32,
}

/// The state of the controller.
#[derive(Clone, Copy, Debug, PartialEq, Eq, Structural)]
pub struct ViewportController {
    /// Set while the primary button is held down.
    pub drag_anchor: Option<DragAnchor>,
    /// The fraction, in millionths, by which one notch of the wheel changes
    /// the scale.
    pub zoom_speed: u32,
    pub scale_range: ScaleRange,
    /// The time of the first update; nothing before it.
    pub clock_origin: Option<u64>,
    /// The time that has passed between the first update and the latest.
    pub elapsed: u64,
}

/// The scale `s` after one notch of the wheel at zoom speed `z`.
pub open spec fn zoom_step(s: int, z: int, inward: bool) -> int {
    if inward {
        s * (UNIT + z) / (UNIT as int)
    } else {
        s * UNIT / (UNIT + z)
    }
}

/// The scale `s` after `n` notches of the wheel in one direction.
pub open spec fn zoom_steps(s: int, z: int, inward: bool, n: nat) -> int
    decreases n,
{
    if n == 0 {
        s
    } else {
        zoom_steps(zoom_step(s, z, inward), z, inward, (n - 1) as nat)
    }
}

/// The number of notches in a wheel movement, whatever its direction.
pub open spec fn notches(delta: int) -> nat {
    if delta >= 0 {
        delta as nat
    } else {
        (-delta) as nat
    }
}

impl ScaleRange {
    /// A range is well formed when its lower bound is positive and not above
    /// its upper bound.
    pub open spec fn wf(self) -> bool {
        0 < self.min <= self.max
    }

    /// Whether `v` lies in the range.
    pub open spec fn holds(self, v: int) -> bool {
        self.min <= v <= self.max
    }

    /// The value of the range that lies nearest to `v`.
    pub open spec fn clamped(self, v: int) -> int {
        if v < self.min {
            self.min as int
        } else if v > self.max {
            self.max as int
        } else {
            v
        }
    }

    /// The scale `s` after a wheel movement of `delta` notches at zoom speed
    /// `z`, kept inside the range.
    pub open spec fn scrolled(self, s: int, z: int, delta: int) -> int {
        self.clamped(zoom_steps(s, z, delta > 0, notches(delta)))
    }

    /// Whether the range is well formed.
    pub fn is_well_formed(&self) -> (ok: bool)
        ensures
            ok == self.wf(),
    {
        0 < self.min && self.min <= self.max
    }

    /// The range from `min` to `max`, or nothing where `min` is zero or lies
    /// above `max`.
    pub fn new(min: u32, max: u32) -> (range: Option<ScaleRange>)
        ensures
            range == if 0 < min <= max {
                Some(ScaleRange { min, max })
            } else {
                None
            },
            range matches Some(r) ==> r.wf(),
    {
        if 0 < min && min <= max {
            Some(ScaleRange { min, max })
        } else {
            None
        }
    }

    /// One component of the scale after a wheel movement of `delta` notches.
    pub fn scroll(&self, s: u32, z: u32, delta: i32) -> (r: u32)
        requires
            self.wf(),
        ensures
            r == self.scrolled(s as int, z as int, delta as int),
            self.holds(r as int),
    {
        let inward: bool = delta > 0;
        let total: u32 = if delta >= 0 {
            delta as u32
        } else if delta == i32::MIN {
            0x8000_0000u32
        } else {
            (-delta) as u32
        };
        let mut remaining: u32 = total;
        let mut cur: u64 = s as u64;
        while remaining > 0
            invariant
                self.wf(),
                cur <= 0x2000_0000_0000,
                !inward ==> cur <= s,
                self.clamped(zoom_steps(cur as int, z as int, inward, remaining as nat))
                    == self.clamped(zoom_steps(s as int, z as int, inward, total as nat)),
            decreases remaining,
        {
            if inward && cur >= self.max as u64 {
                proof {
                    lemma_zoom_in_grows(cur as int, z as int, remaining as nat);
                }
                remaining = 0;
            } else if !inward && cur <= self.min as u64 {
                proof {
                    lemma_zoom_out_shrinks(cur as int, z as int, remaining as nat);
                }
                remaining = 0;
            } else {
                let factor: u128 = UNIT as u128 + z as u128;
                proof {
                    lemma_step_bounds(cur as int, z as int);
                }
                let next: u64 = if inward {
                    (cur as u128 * factor / (UNIT as u128)) as u64
                } else {
                    (cur as u128 * (UNIT as u128) / factor) as u64
                };
                assert(next == zoom_step(cur as int, z as int, inward));
                if next == cur {
                    proof {
                        lemma_zoom_fixed_point(cur as int, z as int, inward, remaining as nat);
                    }
                    remaining = 0;
                } else {
                    cur = next;
                    remaining = remaining - 1;
                }
            }
        }
        if cur < self.min as u64 {
            self.min
        } else if cur > self.max as u64 {
            self.max
        } else {
            cur as u32
        }
    }
}

impl ViewportController {
    /// A controller is well formed when its range of scales is, and when a
    /// clock that has not been started shows no time elapsed.
    pub open spec fn wf(self) -> bool {
        &&& self.scale_range.wf()
        &&& self.clock_origin is None ==> self.elapsed == 0
    }

    /// The controller and the camera after one input event.
    pub open spec fn after_event(self, camera: Camera, event: InputEvent) -> (
        ViewportController,
        Camera,
    ) {
        match event {
            InputEvent::PointerDown { pos, button } => {
                if button == PointerButton::Primary && self.drag_anchor is None {
                    let anchor = DragAnchor { screen: pos, camera_position: camera.position };
                    (ViewportController { drag_anchor: Some(anchor), ..self }, camera)
                } else {
                    (self, camera)
                }
            },
            InputEvent::PointerMoved { pos } => {
                match self.drag_anchor {
                    Some(anchor) => {
                        let moved = camera.world_delta(pos.delta_from(anchor.screen));
                        (self, Camera { position: anchor.camera_position.minus(moved), ..camera })
                    },
                    None => (self, camera),
                }
            },
            InputEvent::PointerUp { pos, button } => {
                if button == PointerButton::Primary {
                    (ViewportController { drag_anchor: None, ..self }, camera)
                } else {
                    (self, camera)
                }
            },
            InputEvent::Scroll { delta } => {
                let z = self.zoom_speed as int;
                let scale = Scale {
                    x: self.scale_range.scrolled(camera.scale.x as int, z, delta as int) as u32,
                    y: self.scale_range.scrolled(camera.scale.y as int, z, delta as int) as u32,
                };
                (self, Camera { scale, ..camera })
            },
            InputEvent::KeyDown { key } => (self, camera),
            InputEvent::KeyUp { key } => (self, camera),
        }
    }

    /// The controller and the camera after a sequence of input events, taken
    /// in order.
    pub open spec fn after_events(self, camera: Camera, events: Seq<InputEvent>) -> (
        ViewportController,
        Camera,
    )
        decreases events.len(),
    {
        if events.len() == 0 {
            (self, camera)
        } else {
            let (controller, seen) = self.after_events(camera, events.drop_last());
            controller.after_event(seen, events.last())
        }
    }

    /// The controller after an update at the time `now`: the first update
    /// starts the clock, a later one moves it forward to the time that has
    /// passed since the first, and never back.
    pub open spec fn clock_after(self, now: u64) -> ViewportController {
        match self.clock_origin {
            None => ViewportController { clock_origin: Some(now), elapsed: 0, ..self },
            Some(origin) => {
                if now - origin > self.elapsed {
                    ViewportController { elapsed: (now - origin) as u64, ..self }
                } else {
                    self
                }
            },
        }
    }

    /// The controller after one update at each of `times`, taken in order.
    pub open spec fn after_updates(self, times: Seq<u64>) -> ViewportController
        decreases times.len(),
    {
        if times.len() == 0 {
            self
        } else {
            self.after_updates(times.drop_last()).clock_after(times.last())
        }
    }

    /// Whether the controller is well formed.
    pub fn is_well_formed(&self) -> (ok: bool)
        ensures
            ok == self.wf(),
    {
        self.scale_range.is_well_formed() && (self.clock_origin.is_some() || self.elapsed == 0)
    }

    /// A controller that is not dragging and whose clock has not started.
    pub fn new(zoom_speed: u32, scale_range: ScaleRange) -> (controller: ViewportController)
        requires
            scale_range.wf(),
        ensures
            controller == (ViewportController {
                drag_anchor: None,
                zoom_speed,
                scale_range,
                clock_origin: None,
                elapsed: 0,
            }),
            controller.wf(),
    {
        ViewportController {
            drag_anchor: None,
            zoom_speed,
            scale_range,
            clock_origin: None,
            elapsed: 0,
        }
    }

    /// Applies one input event to the controller and the camera.
    ///
    /// Pressing the primary button starts a drag unless one is under way;
    /// moving the pointer during a drag sets the camera's position to its
    /// position at the start of the drag less the world displacement of the
    /// pointer since then; releasing the primary button ends the drag; the
    /// wheel changes the scale and keeps it inside the range. Every other
    /// event leaves both unchanged.
    pub fn interact(&mut self, event: &InputEvent, camera: &mut Camera, viewport: Viewport)
        requires
            old(self).wf(),
            old(camera).wf(),
        ensures
            (*final(self), *final(camera)) == old(self).after_event(*old(camera), *event),
            final(self).wf(),
            final(camera).wf(),
            (*event) is Scroll ==> final(self).scale_range.holds(final(camera).scale.x as int)
                && final(self).scale_range.holds(final(camera).scale.y as int),
    {
        match *event {
            InputEvent::PointerDown { pos, button } => {
                let primary: bool = match button {
                    PointerButton::Primary => true,
                    _ => false,
                };
                if primary && self.drag_anchor.is_none() {
                    self.drag_anchor = Some(
                        DragAnchor { screen: pos, camera_position: camera.position },
                    );
                }
            },
            InputEvent::PointerMoved { pos } => {
                match self.drag_anchor {
                    Some(anchor) => {
                        let delta = pos.offset_from(&anchor.screen);
                        let moved = camera.screen_delta_to_world(delta, viewport);
                        camera.position = anchor.camera_position.saturating_sub(&moved);
                    },
                    None => {},
                }
            },
            InputEvent::PointerUp { pos, button } => {
                match button {
                    PointerButton::Primary => {
                        self.drag_anchor = None;
                    },
                    _ => {},
                }
            },
            InputEvent::Scroll { delta } => {
                let x: u32 = self.scale_range.scroll(camera.scale.x, self.zoom_speed, delta);
                let y: u32 = self.scale_range.scroll(camera.scale.y, self.zoom_speed, delta);
                camera.scale = Scale { x, y };
            },
            InputEvent::KeyDown { key } => {},
            InputEvent::KeyUp { key } => {},
        }
    }

    /// Advances the clock to the time `now`, in millionths of a second on
    /// the host's monotonic clock, and returns the time elapsed since the
    /// first update. The camera is left as it is.
    ///
    /// The elapsed time never decreases, whatever `now` is.
    pub fn update(&mut self, camera: &mut Camera, now: u64) -> (elapsed: u64)
        requires
            old(self).wf(),
        ensures
            *final(self) == old(self).clock_after(now),
            *final(camera) == *old(camera),
            elapsed == final(self).elapsed,
            old(self).elapsed <= elapsed,
            final(self).wf(),
    {
        match self.clock_origin {
            None => {
                self.clock_origin = Some(now);
                self.elapsed = 0;
            },
            Some(origin) => {
                if now >= origin && now - origin > self.elapsed {
                    self.elapsed = now - origin;
                }
            },
        }
        self.elapsed
    }

    /// The time elapsed at the latest update; the clock is not advanced.
    pub fn current_elapsed(&self) -> (elapsed: u64)
        ensures
            elapsed == self.elapsed,
    {
        self.elapsed
    }
}

/// One notch of the wheel neither makes a scale negative nor, for a scale
/// below `2^32`, takes it past `2^45`; inward it does not lower the scale and
/// outward it does not raise it.
proof fn lemma_step_bounds(s: int, z: int)
    by (nonlinear_arith)
    requires
        0 <= s,
        0 <= z < 0x1_0000_0000,
    ensures
        s <= zoom_step(s, z, true),
        0 <= zoom_step(s, z, false) <= s,
        s * (UNIT + z) >= 0,
        s * UNIT >= 0,
        s < 0x1_0000_0000 ==> zoom_step(s, z, true) <= 0x2000_0000_0000,
        s <= 0x2000_0000_0000 ==> s * (UNIT + z) <= 0x2000_0000_0000 * 0x2_0000_0000,
        s <= 0x2000_0000_0000 ==> s * UNIT <= 0x2000_0000_0000 * 0x2_0000_0000,
{
}

/// Turning the wheel away from the user never lowers the scale.
proof fn lemma_zoom_in_grows(s: int, z: int, n: nat)
    requires
        0 <= s,
        0 <= z < 0x1_0000_0000,
    ensures
        s <= zoom_steps(s, z, true, n),
    decreases n,
{
    if n > 0 {
        lemma_step_bounds(s, z);
        lemma_zoom_in_grows(zoom_step(s, z, true), z, (n - 1) as nat);
    }
}

/// Turning the wheel toward the user never raises the scale, nor makes it
/// negative.
proof fn lemma_zoom_out_shrinks(s: int, z: int, n: nat)
    requires
        0 <= s,
        0 <= z < 0x1_0000_0000,
    ensures
        0 <= zoom_steps(s, z, false, n) <= s,
    decreases n,
{
    if n > 0 {
        lemma_step_bounds(s, z);
        lemma_zoom_out_shrinks(zoom_step(s, z, false), z, (n - 1) as nat);
    }
}

/// A scale that one notch leaves unchanged is left unchanged by any number of
/// notches.
proof fn lemma_zoom_fixed_point(s: int, z: int, inward: bool, n: nat)
    requires
        zoom_step(s, z, inward) == s,
    ensures
        zoom_steps(s, z, inward, n) == s,
    decreases n,
{
    if n > 0 {
        lemma_zoom_fixed_point(s, z, inward, (n - 1) as nat);
    }
}

} // verus!
