//! An orbit camera steered by dragging the pointer.
//!
//! Angles are counted in steps of `π / pixels_per_revolution`, half a pixel
//! of rotation drag, so that a drag turns the camera by an exact number of
//! steps and both `π` and the default orientation are whole numbers of them.
//! The camera's distance from the origin is
//! `distance * 2^(zoom / pixels_per_double_distance)`.
use vstd::arithmetic::div_mod::{lemma_fundamental_div_mod, lemma_fundamental_div_mod_converse};
use vstd::prelude::*;

verus! {

/// A mouse button.
#[derive(Clone, Copy, Debug, PartialEq, Eq, Structural)]
pub enum MouseButton {
    Left,
    Right,
    Middle,
    Other(u8),
}

/// The pointer input a navigator reacts to.
#[derive(Clone, Copy, Debug, PartialEq, Eq, Structural)]
pub enum PointerEvent {
    /// The pointer moved to `(x, y)`, in pixels.
    Moved { x: i32, y: i32 },
    Pressed(MouseButton),
    Released(MouseButton),
}

/// The state of a navigator.
pub struct NavigatorView {
    /// Azimuth, in steps, in `[0, 2 * pixels_per_revolution)`: a full turn.
    pub phi: int,
    /// Polar angle, in steps, in `[0, pixels_per_revolution]`: `[0, π]`.
    pub theta: int,
    /// Pixels of zoom drag, up minus down, since the start.
    pub zoom: int,
    /// The camera's distance when `zoom` is zero.
    pub distance: nat,
    pub pixels_per_revolution: int,
    pub pixels_per_double_distance: int,
    /// The last known pointer position.
    pub pointer: (i32, i32),
    /// Where the rotation drag was last seen, while the left button is held.
    pub rotation_anchor: Option<(i32, i32)>,
    /// Where the zoom drag was last seen, while the right button is held.
    pub zoom_anchor: Option<(i32, i32)>,
}

impl NavigatorView {
    /// The sensitivities are positive and the angles and the zoom lie in
    /// their ranges.
    pub open spec fn wf(self) -> bool {
        &&& 1 <= self.pixels_per_revolution <= u32::MAX
        &&& 1 <= self.pixels_per_double_distance <= u32::MAX
        &&& 0 <= self.phi < 2 * self.pixels_per_revolution
        &&& 0 <= self.theta <= self.pixels_per_revolution
        &&& i64::MIN <= self.zoom <= i64::MAX
        &&& self.distance <= u32::MAX
    }
}

/// `v` limited to `[lo, hi]`.
pub open spec fn clamp(v: int, lo: int, hi: int) -> int {
    if v < lo {
        lo
    } else if v > hi {
        hi
    } else {
        v
    }
}

/// The state after the pointer moved to `(x, y)`. While rotating, the drag
/// since the anchor, `(dx, dy) = anchor - (x, y)`, turns `phi` by `2 * dx`
/// steps, `2π * dx / pixels_per_revolution`, and `theta` by `2 * dy` steps,
/// clamped to `[0, π]`. While zooming, the drag `y - anchor.1` adds to
/// `zoom`, clamped to the range of `i64`. Each anchor that is held moves to
/// `(x, y)`.
pub open spec fn after_move(v: NavigatorView, x: i32, y: i32) -> NavigatorView {
    let rotated = match v.rotation_anchor {
        Some(anchor) => NavigatorView {
            phi: (v.phi + 2 * (anchor.0 - x)) % (2 * v.pixels_per_revolution),
            theta: clamp(v.theta + 2 * (anchor.1 - y), 0, v.pixels_per_revolution),
            rotation_anchor: Some((x, y)),
            ..v
        },
        None => v,
    };
    let zoomed = match v.zoom_anchor {
        Some(anchor) => NavigatorView {
            zoom: clamp(v.zoom + (y - anchor.1), i64::MIN as int, i64::MAX as int),
            zoom_anchor: Some((x, y)),
            ..rotated
        },
        None => rotated,
    };
    NavigatorView { pointer: (x, y), ..zoomed }
}

/// The state after `event`: a press of the left button starts rotating and
/// one of the right button starts zooming, each anchored at the pointer; a
/// release stops it; a move drags. Other buttons change nothing.
pub open spec fn after_event(v: NavigatorView, event: PointerEvent) -> NavigatorView {
    match event {
        PointerEvent::Moved { x, y } => after_move(v, x, y),
        PointerEvent::Pressed(MouseButton::Left) => NavigatorView { rotation_anchor: Some(v.pointer), ..v },
        PointerEvent::Released(MouseButton::Left) => NavigatorView { rotation_anchor: None, ..v },
        PointerEvent::Pressed(MouseButton::Right) => NavigatorView { zoom_anchor: Some(v.pointer), ..v },
        PointerEvent::Released(MouseButton::Right) => NavigatorView { zoom_anchor: None, ..v },
        _ => v,
    }
}

/// The state after each of `events` in turn.
pub open spec fn after_events(v: NavigatorView, events: Seq<PointerEvent>) -> NavigatorView
    decreases events.len(),
{
    if events.len() == 0 {
        v
    } else {
        after_event(after_events(v, events.drop_last()), events.last())
    }
}

proof fn lemma_after_event_wf(v: NavigatorView, event: PointerEvent)
    requires
        v.wf(),
    ensures
        after_event(v, event).wf(),
        after_event(v, event).pixels_per_revolution == v.pixels_per_revolution,
        after_event(v, event).pixels_per_double_distance == v.pixels_per_double_distance,
        after_event(v, event).distance == v.distance,
{
    if let PointerEvent::Moved { x, y } = event {
        if let Some(anchor) = v.rotation_anchor {
            let m = 2 * v.pixels_per_revolution;
            assert(0 <= (v.phi + 2 * (anchor.0 - x)) % m < m);
        }
    }
}

/// However far and however often the pointer is dragged, the polar angle
/// stays within `[0, π]`: no sequence of events takes it out, nor changes
/// the sensitivities or the base distance.
pub proof fn lemma_theta_stays_in_range(v: NavigatorView, events: Seq<PointerEvent>)
    requires
        v.wf(),
    ensures
        after_events(v, events).wf(),
        0 <= after_events(v, events).theta <= v.pixels_per_revolution,
        after_events(v, events).pixels_per_revolution == v.pixels_per_revolution,
        after_events(v, events).pixels_per_double_distance == v.pixels_per_double_distance,
        after_events(v, events).distance == v.distance,
    decreases events.len(),
{
    if events.len() > 0 {
        lemma_theta_stays_in_range(v, events.drop_last());
        lemma_after_event_wf(after_events(v, events.drop_last()), events.last());
    }
}

/// A zoom drag of `pixels_per_double_distance` pixels downwards doubles the
/// distance: the zoom grows by exactly that many pixels, one doubling.
pub proof fn lemma_zoom_drag_doubles(v: NavigatorView, x: i32, y: i32)
    requires
        v.wf(),
        v.zoom_anchor is Some,
        y == v.zoom_anchor->Some_0.1 + v.pixels_per_double_distance,
        v.zoom + v.pixels_per_double_distance <= i64::MAX,
    ensures
        after_move(v, x, y).zoom == v.zoom + v.pixels_per_double_distance,
        after_move(v, x, y).distance == v.distance,
        after_move(v, x, y).pixels_per_double_distance == v.pixels_per_double_distance,
{
}

/// A zoom drag of `pixels_per_double_distance` pixels upwards halves the
/// distance: the zoom shrinks by exactly that many pixels, one doubling.
pub proof fn lemma_zoom_drag_halves(v: NavigatorView, x: i32, y: i32)
    requires
        v.wf(),
        v.zoom_anchor is Some,
        y == v.zoom_anchor->Some_0.1 - v.pixels_per_double_distance,
        v.zoom - v.pixels_per_double_distance >= i64::MIN,
    ensures
        after_move(v, x, y).zoom == v.zoom - v.pixels_per_double_distance,
        after_move(v, x, y).distance == v.distance,
        after_move(v, x, y).pixels_per_double_distance == v.pixels_per_double_distance,
{
}

/// An orbit camera around the origin, turned by dragging with the left
/// button held and moved nearer or farther by dragging with the right one.
pub struct Navigator {
    phi: i64,
    theta: i64,
    zoom: i64,
    distance: u32,
    pixels_per_revolution: u32,
    pixels_per_double_distance: u32,
    mouse_position: (i32, i32),
    rotation_start_position: Option<(i32, i32)>,
    translation_start_position: Option<(i32, i32)>,
}

impl View for Navigator {
    type V = NavigatorView;

    closed spec fn view(&self) -> NavigatorView {
        NavigatorView {
            phi: self.phi as int,
            theta: self.theta as int,
            zoom: self.zoom as int,
            distance: self.distance as nat,
            pixels_per_revolution: self.pixels_per_revolution as int,
            pixels_per_double_distance: self.pixels_per_double_distance as int,
            pointer: self.mouse_position,
            rotation_anchor: self.rotation_start_position,
            zoom_anchor: self.translation_start_position,
        }
    }
}

proof fn lemma_mod_of_negative(n: int, m: int)
    requires
        n > 0,
        m > 0,
    ensures
        (-n) % m == if n % m == 0 { 0 } else { m - n % m },
{
    let q = n / m;
    let r = n % m;
    lemma_fundamental_div_mod(n, m);
    assert(0 <= r < m);
    if r == 0 {
        assert(-n == (-q) * m + 0) by (nonlinear_arith)
            requires n == m * q + r, r == 0;
        lemma_fundamental_div_mod_converse(-n, m, -q, 0);
    } else {
        assert(-n == (-q - 1) * m + (m - r)) by (nonlinear_arith)
            requires n == m * q + r;
        lemma_fundamental_div_mod_converse(-n, m, -q - 1, m - r);
    }
}

/// `value` modulo `modulus`, in `[0, modulus)`.
fn modulo(value: i64, modulus: i64) -> (r: i64)
    requires
        modulus >= 1,
    ensures
        r == (value as int) % (modulus as int),
        0 <= r < modulus,
{
    if value >= 0 {
        ((value as u64) % (modulus as u64)) as i64
    } else {
        let below = ((-(value as i128)) as u128 % (modulus as u128)) as i64;
        proof {
            lemma_mod_of_negative(-(value as int), modulus as int);
        }
        if below == 0 {
            0
        } else {
            modulus - below
        }
    }
}

/// `value` limited to `[lo, hi]`.
fn clamp_i64(value: i64, lo: i64, hi: i64) -> (r: i64)
    requires
        lo <= hi,
    ensures
        r == clamp(value as int, lo as int, hi as int),
{
    if value < lo {
        lo
    } else if value > hi {
        hi
    } else {
        value
    }
}

/// `a + b`, clamped to the range of `i64`.
fn saturating_add_i64(a: i64, b: i64) -> (r: i64)
    ensures
        r == clamp(a + b, i64::MIN as int, i64::MAX as int),
{
    if b > 0 && a > i64::MAX - b {
        i64::MAX
    } else if b < 0 && a < i64::MIN - b {
        i64::MIN
    } else {
        a + b
    }
}

impl Navigator {
    /// A navigator at the given azimuth and polar angle, in steps of
    /// `π / pixels_per_revolution`, and distance, with no button held and the
    /// pointer at `(0, 0)`. The azimuth is taken modulo a full turn and the
    /// polar angle is clamped to `[0, π]`.
    pub fn new(
        initial_phi: i64,
        initial_theta: i64,
        initial_distance: u32,
        pixels_per_revolution: u32,
        pixels_per_double_distance: u32,
    ) -> (r: Self)
        requires
            pixels_per_revolution >= 1,
            pixels_per_double_distance >= 1,
        ensures
            r@.wf(),
            r@.phi == (initial_phi as int) % (2 * pixels_per_revolution as int),
            r@.theta == clamp(initial_theta as int, 0, pixels_per_revolution as int),
            r@.zoom == 0,
            r@.distance == initial_distance,
            r@.pixels_per_revolution == pixels_per_revolution,
            r@.pixels_per_double_distance == pixels_per_double_distance,
            r@.pointer == (0i32, 0i32),
            r@.rotation_anchor is None,
            r@.zoom_anchor is None,
    {
        let phi = modulo(initial_phi, 2 * (pixels_per_revolution as i64));
        Navigator {
            phi,
            theta: clamp_i64(initial_theta, 0, pixels_per_revolution as i64),
            zoom: 0,
            distance: initial_distance,
            pixels_per_revolution,
            pixels_per_double_distance,
            mouse_position: (0, 0),
            rotation_start_position: None,
            translation_start_position: None,
        }
    }

    /// The azimuth, in steps of `π / pixels_per_revolution`.
    pub fn phi(&self) -> (r: i64)
        ensures
            r == self@.phi,
    {
        self.phi
    }

    /// The polar angle, in steps of `π / pixels_per_revolution`.
    pub fn theta(&self) -> (r: i64)
        ensures
            r == self@.theta,
    {
        self.theta
    }

    /// Pixels of zoom drag, up minus down.
    pub fn zoom(&self) -> (r: i64)
        ensures
            r == self@.zoom,
    {
        self.zoom
    }

    /// The distance when the zoom is zero.
    pub fn distance(&self) -> (r: u32)
        ensures
            r == self@.distance,
    {
        self.distance
    }

    pub fn pixels_per_revolution(&self) -> (r: u32)
        ensures
            r == self@.pixels_per_revolution,
    {
        self.pixels_per_revolution
    }

    pub fn pixels_per_double_distance(&self) -> (r: u32)
        ensures
            r == self@.pixels_per_double_distance,
    {
        self.pixels_per_double_distance
    }

    /// Updates the state for one pointer event.
    pub fn handle_event(&mut self, event: PointerEvent)
        requires
            old(self)@.wf(),
        ensures
            final(self)@ == after_event(old(self)@, event),
            final(self)@.wf(),
    {
        match event {
            PointerEvent::Moved { x, y } => self.mouse_moved(x, y),
            PointerEvent::Pressed(MouseButton::Left) => self.rotation_start(),
            PointerEvent::Released(MouseButton::Left) => self.rotation_stop(),
            PointerEvent::Pressed(MouseButton::Right) => self.translation_start(),
            PointerEvent::Released(MouseButton::Right) => self.translation_stop(),
            _ => {},
        }
    }

    fn rotation_start(&mut self)
        ensures
            final(self)@ == (NavigatorView { rotation_anchor: Some(old(self)@.pointer), ..old(self)@ }),
    {
        self.rotation_start_position = Some(self.mouse_position);
    }

    fn rotation_stop(&mut self)
        ensures
            final(self)@ == (NavigatorView { rotation_anchor: None, ..old(self)@ }),
    {
        self.rotation_start_position = None;
    }

    fn translation_start(&mut self)
        ensures
            final(self)@ == (NavigatorView { zoom_anchor: Some(old(self)@.pointer), ..old(self)@ }),
    {
        self.translation_start_position = Some(self.mouse_position);
    }

    fn translation_stop(&mut self)
        ensures
            final(self)@ == (NavigatorView { zoom_anchor: None, ..old(self)@ }),
    {
        self.translation_start_position = None;
    }

    fn mouse_moved(&mut self, x: i32, y: i32)
        requires
            old(self)@.wf(),
        ensures
            final(self)@ == after_move(old(self)@, x, y),
            final(self)@.wf(),
    {
        self.mouse_position = (x, y);
        if let Some(anchor) = self.rotation_start_position {
            let dx = anchor.0 as i64 - x as i64;
            let dy = anchor.1 as i64 - y as i64;
            self.phi = modulo(self.phi + 2 * dx, 2 * (self.pixels_per_revolution as i64));
            self.theta = clamp_i64(self.theta + 2 * dy, 0, self.pixels_per_revolution as i64);
            self.rotation_start_position = Some((x, y));
        }
        if let Some(anchor) = self.translation_start_position {
            self.zoom = saturating_add_i64(self.zoom, y as i64 - anchor.1 as i64);
            self.translation_start_position = Some((x, y));
        }
    }
}

impl Default for Navigator {
    /// Azimuth `0.15π`, polar angle `0.35π`, distance 5, 500 pixels of drag
    /// per revolution and 200 per doubling of the distance.
    fn default() -> (r: Self)
        ensures
            r@.wf(),
            r@.phi == 75,
            r@.theta == 175,
            r@.zoom == 0,
            r@.distance == 5,
            r@.pixels_per_revolution == 500,
            r@.pixels_per_double_distance == 200,
            r@.pointer == (0i32, 0i32),
            r@.rotation_anchor is None,
            r@.zoom_anchor is None,
    {
        Self::new(75, 175, 5, 500, 200)
    }
}

} // verus!
