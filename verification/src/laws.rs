//! What holds of the controller for every input.

use vstd::prelude::*;
use crate::input::{Action, InputSnapshot, PointerInput};
use crate::movement::{
    norm_squared, spec_axes, spec_cursor_grab, spec_debug_step, spec_direction,
    spec_displacement, spec_look, spec_move_camera, Axes, CameraController, ClickWatcher,
    CursorOptions, DebugReporter, Heading, Int3, Transform, FRAC_PI_2, PITCH_LIMIT, UNIT_SQUARED,
};
use crate::units::{
    is_isqrt, lemma_isqrt_exists, lemma_isqrt_unique, lemma_tdiv_bounds, magnitude, spec_isqrt,
    tdiv, Micro, SCALE,
};

verus! {

/// The orientation after a run of frames, each with its pointer input.
pub open spec fn spec_look_all(
    start: CameraController,
    frames: Seq<PointerInput>,
    sensitivity: Micro,
) -> CameraController
    decreases frames.len(),
{
    if frames.len() == 0 {
        start
    } else {
        spec_look(spec_look_all(start, frames.drop_last(), sensitivity), frames.last(), sensitivity)
    }
}

/// Pitch limit: one update with pointer data brings the pitch within the
/// limit whatever it was, and the limit is short of a quarter turn.
pub proof fn update_limits_pitch(
    controller: CameraController,
    pointer: PointerInput,
    sensitivity: Micro,
)
    requires
        !(pointer is Unavailable),
    ensures
        spec_look(controller, pointer, sensitivity).wf(),
        0 < PITCH_LIMIT < FRAC_PI_2,
{
}

/// Pitch limit over time: from a pitch within the limit, no run of updates
/// leads outside it.  Every prefix of a run is a run, so this holds after
/// each update.
pub proof fn pitch_stays_within_limit(
    start: CameraController,
    frames: Seq<PointerInput>,
    sensitivity: Micro,
)
    requires
        start.wf(),
    ensures
        spec_look_all(start, frames, sensitivity).wf(),
    decreases frames.len(),
{
    if frames.len() > 0 {
        pitch_stays_within_limit(start, frames.drop_last(), sensitivity);
    }
}

/// With no key held, no axis is pushed.
pub proof fn no_keys_no_push(input: &InputSnapshot)
    requires
        input.pressed@.len() == 0,
    ensures
        spec_axes(input).is_zero(),
{
    assert forall|action: Action| !input.active(action) by {
        assert(forall|button| !input.holds(button));
    }
}

/// Without a push the camera stays where it is, whatever the frame time,
/// the speed and the heading.
pub proof fn no_push_no_motion(
    transform: Transform,
    axes: Axes,
    heading: Heading,
    speed: int,
    dt: int,
)
    requires
        axes.is_zero(),
    ensures
        spec_move_camera(transform, axes, heading, speed, dt) == transform,
{
    let d = spec_direction(axes, heading);
    assert(d.x == 0 && d.y == 0 && d.z == 0) by (nonlinear_arith)
        requires
            d.x == axes.forward * heading.sin + axes.right * heading.cos,
            d.y == axes.up * SCALE,
            d.z == axes.forward * heading.cos - axes.right * heading.sin,
            axes.forward == 0,
            axes.right == 0,
            axes.up == 0,
    ;
    assert(norm_squared(d) == 0) by (nonlinear_arith)
        requires
            d.x == 0 && d.y == 0 && d.z == 0,
            norm_squared(d) == d.x * d.x + d.y * d.y + d.z * d.z,
    ;
}

proof fn lemma_square_le(x: int, y: int)
    by (nonlinear_arith)
    requires
        0 <= x <= y,
    ensures
        x * x <= y * y,
{
}

proof fn lemma_square_lt(x: int, y: int)
    by (nonlinear_arith)
    requires
        0 <= x < y,
    ensures
        x * x < y * y,
{
}

proof fn lemma_square_of_magnitude(x: int)
    by (nonlinear_arith)
    ensures
        magnitude(x) * magnitude(x) == x * x,
{
}

proof fn lemma_square_of_product(x: int, y: int)
    by (nonlinear_arith)
    ensures
        (x * y) * (x * y) == (x * x) * (y * y),
        magnitude(x * y) == magnitude(x) * magnitude(y),
{
}

proof fn lemma_cancel_le(x: int, y: int, k: int)
    by (nonlinear_arith)
    requires
        k > 0,
        x * k <= y * k,
    ensures
        x <= y,
{
}

proof fn lemma_cancel_lt(x: int, y: int, k: int)
    by (nonlinear_arith)
    requires
        k > 0,
        x * k < y * k,
    ensures
        x < y,
{
}

/// One component of the displacement against the exact quotient: with
/// `q = tdiv(d * a, den)`, the square of `q * den` is at most that of
/// `d * a`, which is less than the square of `(|q| + 1) * den`.
proof fn lemma_component(d: int, a: int, den: int)
    requires
        den > 0,
    ensures
        (tdiv(d * a, den) * tdiv(d * a, den)) * (den * den) <= (d * d) * (a * a),
        (d * d) * (a * a) < ((magnitude(tdiv(d * a, den)) + 1) * (magnitude(tdiv(d * a, den)) + 1))
            * (den * den),
{
    let p = d * a;
    let q = tdiv(p, den);
    let m = magnitude(q);
    lemma_tdiv_bounds(p, den);
    // squares of the two bounds
    assert(0 <= m * den) by (nonlinear_arith)
        requires
            m >= 0,
            den > 0,
    ;
    lemma_square_le(m * den, magnitude(p));
    lemma_square_lt(magnitude(p), (m + 1) * den);
    lemma_square_of_magnitude(p);
    lemma_square_of_magnitude(q);
    lemma_square_of_product(m, den);
    lemma_square_of_product(m + 1, den);
    lemma_square_of_product(d, a);
}

/// The squared length of the direction of travel: the heading's squared
/// length for each pushed horizontal axis, one whole squared for the
/// vertical one.
proof fn lemma_direction_length(axes: Axes, heading: Heading)
    ensures
        norm_squared(spec_direction(axes, heading)) == (axes.forward * axes.forward + axes.right
            * axes.right) * (heading.sin * heading.sin + heading.cos * heading.cos) + (axes.up
            * axes.up) * UNIT_SQUARED,
{
    let f = axes.forward as int;
    let r = axes.right as int;
    let u = axes.up as int;
    let s = heading.sin as int;
    let c = heading.cos as int;
    let d = spec_direction(axes, heading);
    let fs = f * s;
    let rc = r * c;
    let fc = f * c;
    let rs = r * s;
    assert((fs + rc) * (fs + rc) == fs * fs + 2 * (fs * rc) + rc * rc) by (nonlinear_arith);
    assert((fc - rs) * (fc - rs) == fc * fc - 2 * (fc * rs) + rs * rs) by (nonlinear_arith);
    assert(fs * rc == fc * rs) by (nonlinear_arith)
        requires
            fs == f * s,
            rc == r * c,
            fc == f * c,
            rs == r * s,
    ;
    lemma_square_of_product(f, s);
    lemma_square_of_product(r, c);
    lemma_square_of_product(f, c);
    lemma_square_of_product(r, s);
    let ff = f * f;
    let rr = r * r;
    let ss = s * s;
    let cc = c * c;
    assert((ff + rr) * (ss + cc) == ff * ss + ff * cc + rr * ss + rr * cc) by (nonlinear_arith);
    assert(d.x * d.x + d.z * d.z == (ff + rr) * (ss + cc));
    assert((u * 1_000_000) * (u * 1_000_000) == (u * u) * 1_000_000_000_000)
        by (nonlinear_arith);
    assert(UNIT_SQUARED == 1_000_000_000_000);
}

/// `v` with each component moved one millionth away from zero.
pub open spec fn lengthened(v: Int3) -> Int3 {
    Int3 { x: magnitude(v.x) + 1, y: magnitude(v.y) + 1, z: magnitude(v.z) + 1 }
}

/// Normalised speed: whichever keys push, two at right angles included,
/// the displacement of a frame is as long as the step `speed * dt`, up to
/// rounding, and not longer by the square root of two.
///
/// The product `speed * dt` is the step in millionths of a millionth, so the
/// squared step is `(speed * dt)^2 / UNIT_SQUARED`.  The squared length of
/// the displacement is at most three millionths over it, and the squared
/// length of the lengthened displacement is more than it.
pub proof fn displacement_has_step_length(axes: Axes, heading: Heading, speed: int, dt: int)
    requires
        axes.wf(),
        !axes.is_zero(),
        heading.wf(),
    ensures
        ({
            let m = spec_displacement(axes, heading, speed, dt);
            let a = speed * dt;
            &&& 1_000_000 * (UNIT_SQUARED * norm_squared(m)) <= 1_000_003 * (a * a)
            &&& a * a < UNIT_SQUARED * norm_squared(lengthened(m))
        }),
{
    let d = spec_direction(axes, heading);
    let n = norm_squared(d);
    let a = speed * dt;
    let h = heading.sin * heading.sin + heading.cos * heading.cos;
    let f = axes.forward as int;
    let r = axes.right as int;
    let u = axes.up as int;
    lemma_direction_length(axes, heading);
    // the direction is about as long as the number of pushed axes says
    assert(n >= 999_996_000_000) by (nonlinear_arith)
        requires
            n == (f * f + r * r) * h + (u * u) * 1_000_000_000_000,
            h >= 999_996_000_000,
            -1 <= f <= 1,
            -1 <= r <= 1,
            -1 <= u <= 1,
            !(f == 0 && r == 0 && u == 0),
    ;
    let len = spec_isqrt(n);
    lemma_isqrt_exists(n);
    assert(len >= 999_997) by (nonlinear_arith)
        requires
            n >= 999_996_000_000,
            n < (len + 1) * (len + 1),
            0 <= len,
    ;
    let den = len * SCALE;
    assert(den > 0 && den * den == (len * len) * 1_000_000_000_000) by (nonlinear_arith)
        requires
            den == len * 1_000_000,
            len > 0,
    ;
    let m = spec_displacement(axes, heading, speed, dt);
    assert(m.x == tdiv(d.x * a, den) && m.y == tdiv(d.y * a, den) && m.z == tdiv(d.z * a, den));
    lemma_component(d.x, a, den);
    lemma_component(d.y, a, den);
    lemma_component(d.z, a, den);
    let qq = norm_squared(m);
    let aa = a * a;
    let dd = den * den;
    let ll = len * len;
    let up = (magnitude(m.x) + 1) * (magnitude(m.x) + 1) + (magnitude(m.y) + 1) * (magnitude(m.y)
        + 1) + (magnitude(m.z) + 1) * (magnitude(m.z) + 1);
    assert(aa >= 0) by (nonlinear_arith)
        requires
            aa == a * a,
    ;
    // sum the three components
    assert(qq * dd <= n * aa && n * aa < up * dd) by (nonlinear_arith)
        requires
            qq == m.x * m.x + m.y * m.y + m.z * m.z,
            n == d.x * d.x + d.y * d.y + d.z * d.z,
            up == (magnitude(m.x) + 1) * (magnitude(m.x) + 1) + (magnitude(m.y) + 1) * (magnitude(
                m.y,
            ) + 1) + (magnitude(m.z) + 1) * (magnitude(m.z) + 1),
            (m.x * m.x) * dd <= (d.x * d.x) * aa,
            (m.y * m.y) * dd <= (d.y * d.y) * aa,
            (m.z * m.z) * dd <= (d.z * d.z) * aa,
            (d.x * d.x) * aa < ((magnitude(m.x) + 1) * (magnitude(m.x) + 1)) * dd,
            (d.y * d.y) * aa < ((magnitude(m.y) + 1) * (magnitude(m.y) + 1)) * dd,
            (d.z * d.z) * aa < ((magnitude(m.z) + 1) * (magnitude(m.z) + 1)) * dd,
    ;
    // upper bound
    assert(1_000_000 * n <= 1_000_003 * ll) by (nonlinear_arith)
        requires
            n < (len + 1) * (len + 1),
            ll == len * len,
            len >= 999_997,
    ;
    assert((1_000_000 * (1_000_000_000_000 * qq)) * ll <= (1_000_003 * aa) * ll)
        by (nonlinear_arith)
        requires
            qq * dd <= n * aa,
            dd == ll * 1_000_000_000_000,
            1_000_000 * n <= 1_000_003 * ll,
            aa >= 0,
    ;
    assert(ll > 0) by (nonlinear_arith)
        requires
            ll == len * len,
            len > 0,
    ;
    lemma_cancel_le(1_000_000 * (1_000_000_000_000 * qq), 1_000_003 * aa, ll);
    // lower bound
    assert(aa * ll < (1_000_000_000_000 * up) * ll) by (nonlinear_arith)
        requires
            n * aa < up * dd,
            dd == ll * 1_000_000_000_000,
            ll <= n,
            aa >= 0,
    ;
    lemma_cancel_lt(aa, 1_000_000_000_000 * up, ll);
    assert(norm_squared(lengthened(m)) == up);
}

/// Straight ahead: at yaw zero the forward key moves along the third axis
/// alone, by `speed * dt` rounded toward zero to the millionth.
pub proof fn forward_at_yaw_zero(speed: int, dt: int)
    ensures
        ({
            let m = spec_displacement(
                Axes { forward: 1, right: 0, up: 0 },
                Heading { sin: 0, cos: SCALE },
                speed,
                dt,
            );
            m.x == 0 && m.y == 0 && m.z == tdiv(speed * dt, SCALE as int)
        }),
{
    let axes = Axes { forward: 1, right: 0, up: 0 };
    let heading = Heading { sin: 0, cos: SCALE };
    let d = spec_direction(axes, heading);
    let a = speed * dt;
    assert(d.x == 0 && d.y == 0 && d.z == 1_000_000);
    assert(heading.wf());
    assert(norm_squared(d) == 1_000_000_000_000) by (nonlinear_arith)
        requires
            d.x == 0 && d.y == 0 && d.z == 1_000_000,
            norm_squared(d) == d.x * d.x + d.y * d.y + d.z * d.z,
    ;
    assert(is_isqrt(1_000_000_000_000, 1_000_000)) by (nonlinear_arith);
    lemma_isqrt_exists(1_000_000_000_000);
    lemma_isqrt_unique(1_000_000_000_000, 1_000_000, spec_isqrt(1_000_000_000_000));
    let den = spec_isqrt(norm_squared(d)) * SCALE;
    assert(den == 1_000_000_000_000);
    assert(d.x * a == 0 && d.y * a == 0 && d.z * a == 1_000_000 * a) by (nonlinear_arith)
        requires
            d.x == 0 && d.y == 0 && d.z == 1_000_000,
    ;
    // a common factor of a million leaves the rounded quotient as it is
    let m = magnitude(a);
    assert((1_000_000 * m) / 1_000_000_000_000 == m / 1_000_000) by {
        vstd::arithmetic::div_mod::lemma_div_denominator(1_000_000 * m, 1_000_000, 1_000_000);
        vstd::arithmetic::div_mod::lemma_div_multiples_vanish(m, 1_000_000);
        assert((1_000_000 * m) / 1_000_000 == m);
    }
}

/// Movement ignores pitch.  Whatever the host's sine and cosine, two
/// cameras at one place with one yaw move alike, however each is pitched.
/// The forward and right vectors lie in the horizontal plane, at right
/// angles and of one length, and the vertical part of the direction comes
/// from the vertical keys alone.
pub proof fn movement_ignores_pitch(
    trig: spec_fn(Micro) -> Heading,
    a: Transform,
    b: Transform,
    axes: Axes,
    speed: int,
    dt: int,
)
    requires
        a.translation == b.translation,
        a.rotation.yaw == b.rotation.yaw,
    ensures
        spec_move_camera(a, axes, trig(a.rotation.yaw), speed, dt).translation
            == spec_move_camera(b, axes, trig(b.rotation.yaw), speed, dt).translation,
        ({
            let heading = trig(a.rotation.yaw);
            let forward = spec_direction(Axes { forward: 1, right: 0, up: 0 }, heading);
            let right = spec_direction(Axes { forward: 0, right: 1, up: 0 }, heading);
            &&& forward.y == 0
            &&& right.y == 0
            &&& forward.x * right.x + forward.z * right.z == 0
            &&& norm_squared(forward) == norm_squared(right)
            &&& spec_direction(axes, heading).y == axes.up * SCALE
        }),
{
    let h = trig(a.rotation.yaw);
    let s = h.sin as int;
    let c = h.cos as int;
    let forward = spec_direction(Axes { forward: 1, right: 0, up: 0 }, h);
    let right = spec_direction(Axes { forward: 0, right: 1, up: 0 }, h);
    assert(forward.x == s && forward.z == c && right.x == c && right.z == -s && forward.y == 0
        && right.y == 0) by (nonlinear_arith)
        requires
            forward.x == 1 * s + 0 * c,
            forward.y == 0 * 1_000_000,
            forward.z == 1 * c - 0 * s,
            right.x == 0 * s + 1 * c,
            right.y == 0 * 1_000_000,
            right.z == 0 * c - 1 * s,
    ;
    assert(s * c + c * (-s) == 0 && s * s + 0 * 0 + c * c == c * c + 0 * 0 + (-s) * (-s))
        by (nonlinear_arith);
}

/// No backlog: a frame without pointer data changes nothing and leaves
/// nothing behind, so the motion that arrived during it has no effect on the
/// frame after.
pub proof fn unread_motion_leaves_no_backlog(
    controller: CameraController,
    next: PointerInput,
    sensitivity: Micro,
)
    ensures
        spec_look(controller, PointerInput::Unavailable, sensitivity) == controller,
        spec_look(spec_look(controller, PointerInput::Unavailable, sensitivity), next, sensitivity)
            == spec_look(controller, next, sensitivity),
{
}

/// No backlog, over time: a frame without pointer data, put anywhere into a
/// run of frames, leaves the orientation at the end of the run as it would
/// have been without it.
pub proof fn unread_frame_leaves_no_trace(
    start: CameraController,
    frames: Seq<PointerInput>,
    k: int,
    sensitivity: Micro,
)
    requires
        0 <= k <= frames.len(),
    ensures
        spec_look_all(start, frames.insert(k, PointerInput::Unavailable), sensitivity)
            == spec_look_all(start, frames, sensitivity),
    decreases frames.len() - k,
{
    let longer = frames.insert(k, PointerInput::Unavailable);
    if k == frames.len() {
        assert(longer.drop_last() =~= frames);
        assert(longer.last() == PointerInput::Unavailable);
    } else {
        assert(longer.drop_last() =~= frames.drop_last().insert(k, PointerInput::Unavailable));
        assert(longer.last() == frames.last());
        unread_frame_leaves_no_trace(start, frames.drop_last(), k, sensitivity);
    }
}

/// A pointer in the exact middle of the window sets yaw and pitch to zero,
/// whatever they were.
pub proof fn centred_pointer_levels_view(
    controller: CameraController,
    x: Micro,
    y: Micro,
    width: Micro,
    height: Micro,
    sensitivity: Micro,
)
    requires
        2 * x == width,
        2 * y == height,
    ensures
        spec_look(controller, PointerInput::Position { x, y, width, height }, sensitivity)
            == CameraController::spec_level(),
{
    assert(-0int * sensitivity == 0) by (nonlinear_arith);
}

/// The reporter after a run of frames; `downs[k]` tells whether the debug
/// trigger was down in frame `k`.
pub open spec fn spec_reporter_after(start: DebugReporter, downs: Seq<bool>) -> DebugReporter
    decreases downs.len(),
{
    if downs.len() == 0 {
        start
    } else {
        spec_debug_step(spec_reporter_after(start, downs.drop_last()), downs.last()).0
    }
}

/// Whether frame `k` of the run reports.
pub open spec fn spec_reports_at(start: DebugReporter, downs: Seq<bool>, k: int) -> bool {
    spec_debug_step(spec_reporter_after(start, downs.take(k)), downs[k]).1
}

/// The debug report is edge-triggered: a frame reports exactly when the
/// trigger is down in it and was up in the frame before (at the start of the
/// run, up in the reporter's memory).  So while the trigger is held from
/// one frame to the next, the later frame does not report.
pub proof fn held_trigger_reports_once(start: DebugReporter, downs: Seq<bool>, k: int)
    requires
        0 <= k < downs.len(),
    ensures
        spec_reports_at(start, downs, k) <==> downs[k] && !(if k == 0 {
            start.held
        } else {
            downs[k - 1]
        }),
        k > 0 && downs[k - 1] ==> !spec_reports_at(start, downs, k),
{
    let before = downs.take(k);
    if k > 0 {
        assert(before.last() == downs[k - 1]);
    }
}

/// A trigger that goes down and is held over a run of frames is reported in
/// the first frame of the run and in none after it.
pub proof fn held_run_reports_in_its_first_frame(start: DebugReporter, downs: Seq<bool>)
    requires
        !start.held,
        downs.len() > 0,
        forall|k: int| 0 <= k < downs.len() ==> downs[k],
    ensures
        spec_reports_at(start, downs, 0),
        forall|k: int| 0 < k < downs.len() ==> !spec_reports_at(start, downs, k),
{
    held_trigger_reports_once(start, downs, 0);
    assert forall|k: int| 0 < k < downs.len() implies !spec_reports_at(start, downs, k) by {
        held_trigger_reports_once(start, downs, k);
    }
}

/// Capturing is idempotent: a frame changes nothing of a captured pointer,
/// click or no click, and the frame of a click leaves the pointer captured
/// whatever it was.
pub proof fn capture_is_idempotent(cursor: CursorOptions, was_down: bool, down: bool)
    ensures
        cursor.captured() ==> spec_cursor_grab(cursor, was_down, down) == cursor,
        spec_cursor_grab(cursor, false, true).captured(),
        spec_cursor_grab(spec_cursor_grab(cursor, false, true), was_down, down)
            == spec_cursor_grab(cursor, false, true),
{
}

/// The capture is edge-triggered: only the frame in which the primary
/// button goes down touches the pointer settings.  A button that is up, or
/// that is held since an earlier frame, leaves them as they are, also when
/// the platform has freed the pointer in between.
pub proof fn held_button_leaves_the_pointer_alone(
    cursor: CursorOptions,
    was_down: bool,
    down: bool,
)
    ensures
        !down ==> spec_cursor_grab(cursor, was_down, down) == cursor,
        was_down ==> spec_cursor_grab(cursor, was_down, down) == cursor,
        spec_cursor_grab(cursor, was_down, down) != cursor ==> down && !was_down
            && !cursor.captured(),
{
}

/// The watcher after a run of frames; `downs[k]` tells whether the primary
/// button was down in frame `k`.
pub open spec fn spec_watcher_after(start: ClickWatcher, downs: Seq<bool>) -> ClickWatcher {
    if downs.len() == 0 {
        start
    } else {
        ClickWatcher { held: downs.last() }
    }
}

/// The pointer settings that frame `k` of a run leaves.  `seen[k]` are the
/// settings that the frame finds: what the frame before left, or what the
/// platform made of it since.
pub open spec fn spec_cursor_after(
    start: ClickWatcher,
    downs: Seq<bool>,
    seen: Seq<CursorOptions>,
    k: int,
) -> CursorOptions {
    spec_cursor_grab(seen[k], spec_watcher_after(start, downs.take(k)).held, downs[k])
}

/// Over a run of frames, a frame captures the pointer exactly when the
/// button is down in it and was up in the frame before (at the start of the
/// run, up in the watcher's memory); every other frame leaves the settings
/// it finds.
pub proof fn capture_follows_the_press(
    start: ClickWatcher,
    downs: Seq<bool>,
    seen: Seq<CursorOptions>,
    k: int,
)
    requires
        0 <= k < downs.len(),
        seen.len() == downs.len(),
    ensures
        spec_cursor_after(start, downs, seen, k) == if downs[k] && !(if k == 0 {
            start.held
        } else {
            downs[k - 1]
        }) {
            CursorOptions::spec_captured()
        } else {
            seen[k]
        },
{
    let before = downs.take(k);
    if k > 0 {
        assert(before.last() == downs[k - 1]);
    }
}

/// A button that goes down and is held over a run of frames captures the
/// pointer in the first frame of the run and leaves it alone in all after
/// it, whatever the platform has done to the pointer meanwhile.
pub proof fn held_button_captures_in_its_first_frame(
    start: ClickWatcher,
    downs: Seq<bool>,
    seen: Seq<CursorOptions>,
)
    requires
        !start.held,
        downs.len() > 0,
        seen.len() == downs.len(),
        forall|k: int| 0 <= k < downs.len() ==> downs[k],
    ensures
        spec_cursor_after(start, downs, seen, 0).captured(),
        forall|k: int|
            0 < k < downs.len() ==> #[trigger] spec_cursor_after(start, downs, seen, k)
                == seen[k],
{
    capture_follows_the_press(start, downs, seen, 0);
    assert forall|k: int| 0 < k < downs.len() implies #[trigger] spec_cursor_after(
        start,
        downs,
        seen,
        k,
    ) == seen[k] by {
        capture_follows_the_press(start, downs, seen, k);
    }
}

} // verus!
