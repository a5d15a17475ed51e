//! The camera controller: movement integration, pointer look, cursor
//! capture and the debug report.
//!
//! Angles are radians, lengths are world units and speeds are units per
//! second, all as [`Micro`] counts of millionths.  The host supplies the
//! sine and cosine of the current yaw as a [`Heading`]; everything else is
//! computed here in whole numbers.

use vstd::prelude::*;
use crate::input::{Action, InputSnapshot, PointerDelta, PointerInput};
use crate::units::{
    clamp, clamp_micro, isqrt, lemma_product_fits, lemma_tdiv_bounds, magnitude, mul_micro,
    saturate, saturate_wide, spec_isqrt, tdiv, Micro, SCALE,
};

verus! {

/// A quarter turn, rounded down to the millionth.
pub const FRAC_PI_2: Micro = 1_570_796;

/// How far short of a quarter turn the pitch stops.
pub const PITCH_MARGIN: Micro = 100_000;

/// The largest pitch, up or down.
pub const PITCH_LIMIT: Micro = FRAC_PI_2 - PITCH_MARGIN;

/// The square of one whole.
pub const UNIT_SQUARED: i64 = SCALE * SCALE;

/// How far the squared length of a heading may be from `UNIT_SQUARED`.
pub const HEADING_TOLERANCE: i64 = 4 * SCALE;

/// The largest sine or cosine a heading may hold.
pub const HEADING_BOUND: i64 = SCALE + 1;

/// Degrees in one radian.
pub const DEGREES_PER_RADIAN: Micro = 57_295_780;

/// Movement parameters of the controlled camera.
#[derive(Clone, Copy, PartialEq, Eq, Debug, Structural)]
pub struct Player {
    /// Units per second.
    pub speed: Micro,
    /// Scale from pointer input to angle.
    pub sensitivity: Micro,
}

/// How pointer input becomes orientation.
#[derive(Clone, Copy, PartialEq, Eq, Debug, Structural)]
pub enum LookStrategy {
    /// The motion events of each frame turn the view further.
    RelativeMotion,
    /// The pointer's place in the window sets the view.
    AbsolutePosition,
}

impl LookStrategy {
    /// The sensitivity that suits the strategy: two thousandths of a radian
    /// for each count of motion, or one half for positions.
    pub open spec fn spec_sensitivity(self) -> Micro {
        match self {
            LookStrategy::RelativeMotion => 2_000,
            LookStrategy::AbsolutePosition => 500_000,
        }
    }

    /// The sensitivity that suits the strategy.
    pub fn sensitivity(self) -> (sensitivity: Micro)
        ensures
            sensitivity == self.spec_sensitivity(),
    {
        match self {
            LookStrategy::RelativeMotion => 2_000,
            LookStrategy::AbsolutePosition => 500_000,
        }
    }
}

impl Player {
    /// Speed 5, and the sensitivity that suits pointer positions.
    pub open spec fn spec_default() -> Player {
        Player { speed: 5_000_000, sensitivity: 500_000 }
    }

    /// Speed 5, and the sensitivity that suits `strategy`.
    pub fn for_strategy(strategy: LookStrategy) -> (player: Player)
        ensures
            player.speed == 5_000_000,
            player.sensitivity == strategy.spec_sensitivity(),
    {
        Player { speed: 5_000_000, sensitivity: strategy.sensitivity() }
    }
}

impl Default for Player {
    fn default() -> (player: Player)
        ensures
            player == Player::spec_default(),
    {
        Player::for_strategy(LookStrategy::AbsolutePosition)
    }
}

/// Orientation of the controlled camera.
#[derive(Clone, Copy, PartialEq, Eq, Debug, Structural)]
pub struct CameraController {
    /// Turn about the up axis.
    pub yaw: Micro,
    /// Turn about the right axis.
    pub pitch: Micro,
}

impl CameraController {
    /// The pitch is within the limit.
    pub open spec fn wf(&self) -> bool {
        -PITCH_LIMIT <= self.pitch <= PITCH_LIMIT
    }

    /// Looking straight ahead.
    pub open spec fn spec_level() -> CameraController {
        CameraController { yaw: 0, pitch: 0 }
    }

    /// A controller that looks straight ahead.
    pub fn level() -> (controller: CameraController)
        ensures
            controller == CameraController::spec_level(),
            controller.wf(),
    {
        CameraController { yaw: 0, pitch: 0 }
    }
}

/// A point or displacement in world space.
#[derive(Clone, Copy, PartialEq, Eq, Debug, Structural)]
pub struct Vec3 {
    pub x: Micro,
    pub y: Micro,
    pub z: Micro,
}

/// An orientation: a turn by `yaw` about the up axis applied to a turn by
/// `pitch` about the right axis, in that order.
#[derive(Clone, Copy, PartialEq, Eq, Debug, Structural)]
pub struct Rotation {
    pub yaw: Micro,
    pub pitch: Micro,
}

/// Position and orientation of the controlled entity.
#[derive(Clone, Copy, PartialEq, Eq, Debug, Structural)]
pub struct Transform {
    pub translation: Vec3,
    pub rotation: Rotation,
}

/// Sine and cosine of the yaw, as the host computed them.
#[derive(Clone, Copy, PartialEq, Eq, Debug, Structural)]
pub struct Heading {
    pub sin: Micro,
    pub cos: Micro,
}

impl Heading {
    /// The pair has unit length up to rounding.
    pub open spec fn wf(&self) -> bool {
        &&& -HEADING_BOUND <= self.sin <= HEADING_BOUND
        &&& -HEADING_BOUND <= self.cos <= HEADING_BOUND
        &&& UNIT_SQUARED - HEADING_TOLERANCE <= self.sin * self.sin + self.cos * self.cos
            <= UNIT_SQUARED + HEADING_TOLERANCE
    }

    /// Whether the pair has unit length up to rounding.
    pub fn is_valid(&self) -> (b: bool)
        ensures
            b == self.wf(),
    {
        if self.sin < -HEADING_BOUND || self.sin > HEADING_BOUND {
            return false;
        }
        if self.cos < -HEADING_BOUND || self.cos > HEADING_BOUND {
            return false;
        }
        assert(0 <= self.sin * self.sin <= 1_000_002_000_001 && 0 <= self.cos * self.cos
            <= 1_000_002_000_001) by (nonlinear_arith)
            requires
                -1_000_001 <= self.sin <= 1_000_001,
                -1_000_001 <= self.cos <= 1_000_001,
        ;
        let norm: i64 = self.sin * self.sin + self.cos * self.cos;
        UNIT_SQUARED - HEADING_TOLERANCE <= norm && norm <= UNIT_SQUARED + HEADING_TOLERANCE
    }

    /// The heading of yaw zero.
    pub fn ahead() -> (heading: Heading)
        ensures
            heading == (Heading { sin: 0, cos: SCALE }),
            heading.wf(),
    {
        Heading { sin: 0, cos: SCALE }
    }
}

/// Which way the held keys push along each axis of the camera: -1, 0 or 1.
#[derive(Clone, Copy, PartialEq, Eq, Debug, Structural)]
pub struct Axes {
    pub forward: i8,
    pub right: i8,
    pub up: i8,
}

impl Axes {
    /// Each component is -1, 0 or 1.
    pub open spec fn wf(&self) -> bool {
        &&& -1 <= self.forward <= 1
        &&& -1 <= self.right <= 1
        &&& -1 <= self.up <= 1
    }

    /// No axis is pushed.
    pub open spec fn is_zero(&self) -> bool {
        self.forward == 0 && self.right == 0 && self.up == 0
    }
}

/// A vector of whole numbers without a size limit.
pub struct Int3 {
    pub x: int,
    pub y: int,
    pub z: int,
}

/// Push along one axis: opposite keys cancel.
pub open spec fn spec_axis(plus: bool, minus: bool) -> int {
    (if plus { 1int } else { 0int }) - (if minus { 1int } else { 0int })
}

/// The push that the held keys of `input` give along each axis.
pub open spec fn spec_axes(input: &InputSnapshot) -> Axes {
    Axes {
        forward: spec_axis(input.active(Action::Forward), input.active(Action::Backward)) as i8,
        right: spec_axis(input.active(Action::StrafeRight), input.active(Action::StrafeLeft)) as i8,
        up: spec_axis(input.active(Action::Ascend), input.active(Action::Descend)) as i8,
    }
}

/// The direction of travel before it is brought to unit length.
///
/// Forward is `(sin, 0, cos)` and right is `(cos, 0, -sin)`; up is the
/// world's vertical axis.
pub open spec fn spec_direction(axes: Axes, heading: Heading) -> Int3 {
    Int3 {
        x: axes.forward * heading.sin + axes.right * heading.cos,
        y: axes.up * SCALE,
        z: axes.forward * heading.cos - axes.right * heading.sin,
    }
}

/// Squared length.
pub open spec fn norm_squared(v: Int3) -> int {
    v.x * v.x + v.y * v.y + v.z * v.z
}

/// The translation of one frame: the direction of travel brought to unit
/// length and scaled by `speed * dt`, each component rounded toward zero.
/// `dt` is in microseconds.  Nothing moves when the direction has length
/// zero or the heading is not valid.
pub open spec fn spec_displacement(axes: Axes, heading: Heading, speed: int, dt: int) -> Int3 {
    let d = spec_direction(axes, heading);
    let n = norm_squared(d);
    if n == 0 || !heading.wf() {
        Int3 { x: 0, y: 0, z: 0 }
    } else {
        let den = spec_isqrt(n) * SCALE;
        Int3 {
            x: tdiv(d.x * (speed * dt), den),
            y: tdiv(d.y * (speed * dt), den),
            z: tdiv(d.z * (speed * dt), den),
        }
    }
}

/// `position` moved by `by`, each coordinate limited to the `i64` range.
pub open spec fn spec_moved(position: Vec3, by: Int3) -> Vec3 {
    Vec3 {
        x: saturate(position.x + by.x) as i64,
        y: saturate(position.y + by.y) as i64,
        z: saturate(position.z + by.z) as i64,
    }
}

/// The transform after one frame of movement: the position moved by the
/// displacement of the frame, the orientation as it was.
pub open spec fn spec_move_camera(
    transform: Transform,
    axes: Axes,
    heading: Heading,
    speed: int,
    dt: int,
) -> Transform {
    Transform {
        translation: spec_moved(
            transform.translation,
            spec_displacement(axes, heading, speed, dt),
        ),
        rotation: transform.rotation,
    }
}

fn axis(plus: bool, minus: bool) -> (a: i8)
    ensures
        a == spec_axis(plus, minus),
{
    let p: i8 = if plus { 1 } else { 0 };
    let m: i8 = if minus { 1 } else { 0 };
    p - m
}

/// The push that the held keys of `input` give along each axis.
pub fn movement_axes(input: &InputSnapshot) -> (axes: Axes)
    ensures
        axes == spec_axes(input),
        axes.wf(),
{
    Axes {
        forward: axis(
            input.action_pressed(Action::Forward),
            input.action_pressed(Action::Backward),
        ),
        right: axis(
            input.action_pressed(Action::StrafeRight),
            input.action_pressed(Action::StrafeLeft),
        ),
        up: axis(input.action_pressed(Action::Ascend), input.action_pressed(Action::Descend)),
    }
}

fn signed(sign: i8, v: i64) -> (r: i64)
    requires
        -1 <= sign <= 1,
        v > i64::MIN,
    ensures
        r == sign * v,
        magnitude(r as int) <= magnitude(v as int),
{
    assert(1 * v == v && (-1) * v == -v && 0 * v == 0) by (nonlinear_arith);
    if sign == 1 {
        v
    } else if sign == -1 {
        -v
    } else {
        0
    }
}

fn scaled_component(d: i64, amount: i128, den: i128, from: Micro) -> (r: Micro)
    requires
        -0x40_0000 <= d <= 0x40_0000,
        -0x8000_0000_0000_0000_0000_0000 <= amount <= 0x8000_0000_0000_0000_0000_0000,
        1 <= den,
    ensures
        r == saturate(from + tdiv(d * amount, den as int)),
{
    assert(-0x20_0000_0000_0000_0000_0000_0000_0000 <= d * amount
        <= 0x20_0000_0000_0000_0000_0000_0000_0000) by (nonlinear_arith)
        requires
            -0x40_0000 <= d <= 0x40_0000,
            -0x8000_0000_0000_0000_0000_0000 <= amount <= 0x8000_0000_0000_0000_0000_0000,
    ;
    let product: i128 = (d as i128) * amount;
    proof {
        lemma_tdiv_bounds(product as int, den as int);
        let q = magnitude(tdiv(product as int, den as int));
        assert(q <= q * den) by (nonlinear_arith)
            requires
                q >= 0,
                den >= 1,
        ;
    }
    let step: i128 = product / den;
    saturate_wide(from as i128 + step)
}

/// Moves the camera for one frame of `dt_micros` microseconds.
///
/// The held movement keys give a direction in the frame of `heading`; it is
/// brought to unit length, scaled by `player.speed` times the frame time and
/// added to the position.  With no direction, or a heading that is not of
/// unit length, nothing changes.
pub fn move_camera(
    dt_micros: u32,
    input: &InputSnapshot,
    transform: &mut Transform,
    player: &Player,
    heading: &Heading,
)
    ensures
        *final(transform) == spec_move_camera(
            *old(transform),
            spec_axes(input),
            *heading,
            player.speed as int,
            dt_micros as int,
        ),
{
    let axes = movement_axes(input);
    if !heading.is_valid() {
        return;
    }
    let dx: i64 = signed(axes.forward, heading.sin) + signed(axes.right, heading.cos);
    let dy: i64 = (axes.up as i64) * SCALE;
    let dz: i64 = signed(axes.forward, heading.cos) - signed(axes.right, heading.sin);
    assert(dx * dx <= 0x40_0000 * 0x40_0000 && dy * dy <= 0x40_0000 * 0x40_0000 && dz * dz
        <= 0x40_0000 * 0x40_0000) by (nonlinear_arith)
        requires
            -0x40_0000 <= dx <= 0x40_0000,
            -0x40_0000 <= dy <= 0x40_0000,
            -0x40_0000 <= dz <= 0x40_0000,
    ;
    assert(dx * dx >= 0 && dy * dy >= 0 && dz * dz >= 0) by (nonlinear_arith);
    let n: i64 = dx * dx + dy * dy + dz * dz;
    if n == 0 {
        return;
    }
    let len: u64 = isqrt(n as u64);
    assert(len >= 1) by (nonlinear_arith)
        requires
            1 <= n < (len + 1) * (len + 1),
            0 <= len,
    ;
    assert(-0x8000_0000_0000_0000_0000_0000 <= player.speed * dt_micros
        <= 0x8000_0000_0000_0000_0000_0000) by (nonlinear_arith)
        requires
            -0x8000_0000_0000_0000 <= player.speed <= 0x7fff_ffff_ffff_ffff,
            0 <= dt_micros <= 0xffff_ffff,
    ;
    let amount: i128 = (player.speed as i128) * (dt_micros as i128);
    assert(1 <= len * SCALE <= 0xffff_ffff * 1_000_000) by (nonlinear_arith)
        requires
            1 <= len <= 0xffff_ffff,
            SCALE == 1_000_000,
    ;
    let den: i128 = (len as i128) * (SCALE as i128);
    let from = transform.translation;
    let to = Vec3 {
        x: scaled_component(dx, amount, den, from.x),
        y: scaled_component(dy, amount, den, from.y),
        z: scaled_component(dz, amount, den, from.z),
    };
    transform.translation = to;
}

/// Sum of the horizontal counts of `deltas`.
pub open spec fn sum_dx(deltas: Seq<PointerDelta>) -> int
    decreases deltas.len(),
{
    if deltas.len() == 0 {
        0
    } else {
        sum_dx(deltas.drop_last()) + deltas.last().dx
    }
}

/// Sum of the vertical counts of `deltas`.
pub open spec fn sum_dy(deltas: Seq<PointerDelta>) -> int
    decreases deltas.len(),
{
    if deltas.len() == 0 {
        0
    } else {
        sum_dy(deltas.drop_last()) + deltas.last().dy
    }
}

/// The turn that a run of `counts` of pointer motion gives: the counts,
/// limited to the `i64` range, times the sensitivity, rounded toward zero.
pub open spec fn spec_turn(counts: int, sensitivity: int) -> int {
    tdiv(saturate(counts) * sensitivity, SCALE as int)
}

/// The angle that stands for a pointer at `position` along a window side of
/// length `extent`: minus the offset from the middle of the side, times the
/// sensitivity, times one hundredth, rounded toward zero.  The offset is
/// taken doubled, so that the middle of the side is exact, and limited to
/// the `i64` range.
pub open spec fn spec_absolute_angle(position: int, extent: int, sensitivity: int) -> int {
    tdiv(-saturate(2 * position - extent) * sensitivity, 200 * SCALE)
}

/// The orientation after one frame of pointer input.
///
/// Without pointer data nothing changes.  Motion events turn the view by
/// their sum times the sensitivity.  A pointer position sets the view from
/// the pointer's offset from the middle of the window, whatever it was
/// before.  Either way the pitch is then limited to `PITCH_LIMIT`.
pub open spec fn spec_look(
    controller: CameraController,
    pointer: PointerInput,
    sensitivity: Micro,
) -> CameraController {
    match pointer {
        PointerInput::Unavailable => controller,
        PointerInput::Motion(deltas) => CameraController {
            yaw: saturate(controller.yaw - spec_turn(sum_dx(deltas@), sensitivity as int)) as i64,
            pitch: clamp(
                controller.pitch - spec_turn(sum_dy(deltas@), sensitivity as int),
                -PITCH_LIMIT as int,
                PITCH_LIMIT as int,
            ) as i64,
        },
        PointerInput::Position { x, y, width, height } => CameraController {
            yaw: saturate(spec_absolute_angle(x as int, width as int, sensitivity as int)) as i64,
            pitch: clamp(
                spec_absolute_angle(y as int, height as int, sensitivity as int),
                -PITCH_LIMIT as int,
                PITCH_LIMIT as int,
            ) as i64,
        },
    }
}

/// The orientation that `controller` asks of the transform.
pub open spec fn spec_rotation(controller: CameraController) -> Rotation {
    Rotation { yaw: controller.yaw, pitch: controller.pitch }
}

/// Sums the motion events of one frame, each total limited to the `i64`
/// range.
pub fn total_motion(deltas: &Vec<PointerDelta>) -> (total: (i64, i64))
    ensures
        total.0 == saturate(sum_dx(deltas@)),
        total.1 == saturate(sum_dy(deltas@)),
{
    let mut tx: i128 = 0;
    let mut ty: i128 = 0;
    let mut i: usize = 0;
    while i < deltas.len()
        invariant
            i <= deltas.len(),
            tx == sum_dx(deltas@.take(i as int)),
            ty == sum_dy(deltas@.take(i as int)),
            -0x8000_0000_0000_0000 * i <= tx <= 0x8000_0000_0000_0000 * i,
            -0x8000_0000_0000_0000 * i <= ty <= 0x8000_0000_0000_0000 * i,
        decreases deltas.len() - i,
    {
        proof {
            let next = deltas@.take(i + 1);
            assert(next.drop_last() =~= deltas@.take(i as int));
            assert(next.last() == deltas@[i as int]);
        }
        tx = tx + deltas[i].dx as i128;
        ty = ty + deltas[i].dy as i128;
        i += 1;
    }
    proof {
        assert(deltas@.take(i as int) =~= deltas@);
    }
    (saturate_wide(tx), saturate_wide(ty))
}

fn turned(angle: Micro, counts: i64, sensitivity: Micro) -> (r: i128)
    ensures
        r == angle - tdiv(counts * sensitivity, SCALE as int),
{
    proof {
        lemma_product_fits(counts as int, sensitivity as int);
    }
    let product: i128 = (counts as i128) * (sensitivity as i128);
    angle as i128 - product / (SCALE as i128)
}

fn absolute_angle(position: Micro, extent: Micro, sensitivity: Micro) -> (r: i128)
    ensures
        r == spec_absolute_angle(position as int, extent as int, sensitivity as int),
{
    let offset: i64 = saturate_wide(2 * (position as i128) - (extent as i128));
    proof {
        lemma_product_fits(-offset as int, sensitivity as int);
    }
    let product: i128 = (-(offset as i128)) * (sensitivity as i128);
    product / (200 * SCALE as i128)
}

fn limit_pitch(pitch: i128) -> (r: Micro)
    ensures
        r == clamp(pitch as int, -PITCH_LIMIT as int, PITCH_LIMIT as int),
{
    clamp_micro(saturate_wide(pitch), -PITCH_LIMIT, PITCH_LIMIT)
}

/// Updates the orientation from this frame's pointer input and writes it to
/// the transform.
///
/// Without pointer data neither the controller nor the transform changes.
pub fn look_around(
    input: &InputSnapshot,
    transform: &mut Transform,
    player: &Player,
    controller: &mut CameraController,
)
    ensures
        *final(controller) == spec_look(*old(controller), input.pointer, player.sensitivity),
        final(transform).translation == old(transform).translation,
        final(transform).rotation == if input.pointer is Unavailable {
            old(transform).rotation
        } else {
            spec_rotation(*final(controller))
        },
        !(input.pointer is Unavailable) || old(controller).wf() ==> final(controller).wf(),
{
    match &input.pointer {
        PointerInput::Unavailable => {
            return;
        },
        PointerInput::Motion(deltas) => {
            let total = total_motion(deltas);
            controller.yaw = saturate_wide(turned(controller.yaw, total.0, player.sensitivity));
            controller.pitch = limit_pitch(turned(controller.pitch, total.1, player.sensitivity));
        },
        PointerInput::Position { x, y, width, height } => {
            controller.yaw = saturate_wide(absolute_angle(*x, *width, player.sensitivity));
            controller.pitch = limit_pitch(absolute_angle(*y, *height, player.sensitivity));
        },
    }
    transform.rotation = Rotation { yaw: controller.yaw, pitch: controller.pitch };
}

/// How the platform holds the pointer.
#[derive(Clone, Copy, PartialEq, Eq, Debug, Structural)]
pub enum GrabMode {
    /// The pointer moves freely.
    Free,
    /// The pointer is kept inside the window.
    Confined,
    /// The pointer is held in place.
    Locked,
}

/// The pointer settings of the window.
#[derive(Clone, Copy, PartialEq, Eq, Debug, Structural)]
pub struct CursorOptions {
    pub grab_mode: GrabMode,
    pub visible: bool,
}

impl CursorOptions {
    /// Locked and hidden.
    pub open spec fn spec_captured() -> CursorOptions {
        CursorOptions { grab_mode: GrabMode::Locked, visible: false }
    }

    /// The pointer is locked and hidden.
    pub open spec fn captured(&self) -> bool {
        *self == CursorOptions::spec_captured()
    }

    /// Whether the pointer is locked and hidden.
    pub fn is_captured(&self) -> (b: bool)
        ensures
            b == self.captured(),
    {
        self.grab_mode == GrabMode::Locked && !self.visible
    }

    /// Locks and hides the pointer.
    pub fn capture(&mut self)
        ensures
            *final(self) == CursorOptions::spec_captured(),
    {
        self.grab_mode = GrabMode::Locked;
        self.visible = false;
    }
}

/// Remembers whether the primary button was down in the previous frame.
#[derive(Clone, Copy, PartialEq, Eq, Debug, Structural)]
pub struct ClickWatcher {
    pub held: bool,
}

impl Default for ClickWatcher {
    /// A watcher that has not seen the button down.
    fn default() -> (watcher: ClickWatcher)
        ensures
            !watcher.held,
    {
        ClickWatcher { held: false }
    }
}

/// The pointer settings after a frame: captured in the frame in which the
/// primary button goes down, that is when it is down and was not down the
/// frame before; else as they were.
pub open spec fn spec_cursor_grab(
    cursor: CursorOptions,
    was_down: bool,
    down: bool,
) -> CursorOptions {
    if down && !was_down {
        CursorOptions::spec_captured()
    } else {
        cursor
    }
}

/// Captures the pointer again in the frame in which the primary button goes
/// down.  While the button stays down, and while it is up, the settings are
/// left as they are, whatever they are.
pub fn cursor_grab(input: &InputSnapshot, watcher: &mut ClickWatcher, cursor: &mut CursorOptions)
    ensures
        *final(watcher) == (ClickWatcher { held: input.active(Action::PrimaryClick) }),
        *final(cursor) == spec_cursor_grab(
            *old(cursor),
            old(watcher).held,
            input.active(Action::PrimaryClick),
        ),
{
    let down = input.action_pressed(Action::PrimaryClick);
    let click = down && !watcher.held;
    watcher.held = down;
    if click {
        cursor.capture();
    }
}

/// The parts of a newly controlled camera: default movement parameters and
/// a level view.  Captures the pointer.
pub fn setup_camera_controller(cursor: &mut CursorOptions) -> (parts: (Player, CameraController))
    ensures
        parts.0 == Player::spec_default(),
        parts.1 == CameraController::spec_level(),
        *final(cursor) == CursorOptions::spec_captured(),
{
    cursor.capture();
    (Player::default(), CameraController::level())
}

/// Remembers whether the debug trigger was down in the previous frame.
#[derive(Clone, Copy, PartialEq, Eq, Debug, Structural)]
pub struct DebugReporter {
    pub held: bool,
}

impl Default for DebugReporter {
    /// A reporter that has not seen the trigger down.
    fn default() -> (reporter: DebugReporter)
        ensures
            !reporter.held,
    {
        DebugReporter { held: false }
    }
}

/// The pose of the camera, with its angles in degrees.
#[derive(Clone, Copy, PartialEq, Eq, Debug, Structural)]
pub struct DebugReport {
    pub position: Vec3,
    pub yaw_degrees: Micro,
    pub pitch_degrees: Micro,
}

/// An angle in degrees, from radians.
pub open spec fn spec_degrees(radians: int) -> int {
    saturate(tdiv(radians * DEGREES_PER_RADIAN, SCALE as int))
}

/// The report of the given pose.
pub open spec fn spec_report(transform: Transform, controller: CameraController) -> DebugReport {
    DebugReport {
        position: transform.translation,
        yaw_degrees: spec_degrees(controller.yaw as int) as i64,
        pitch_degrees: spec_degrees(controller.pitch as int) as i64,
    }
}

/// Converts radians to degrees.
pub fn to_degrees(radians: Micro) -> (degrees: Micro)
    ensures
        degrees == spec_degrees(radians as int),
{
    mul_micro(radians, DEGREES_PER_RADIAN)
}

/// One frame of the debug trigger: the reporter afterwards, and whether
/// the frame reports.  It reports when the trigger is down and was not down
/// the frame before.
pub open spec fn spec_debug_step(reporter: DebugReporter, down: bool) -> (DebugReporter, bool) {
    (DebugReporter { held: down }, down && !reporter.held)
}

impl DebugReporter {
    /// Takes note of the debug trigger of this frame.  True in the frame in
    /// which the trigger goes down.
    pub fn triggered(&mut self, input: &InputSnapshot) -> (fire: bool)
        ensures
            (*final(self), fire) == spec_debug_step(
                *old(self),
                input.active(Action::DebugTrigger),
            ),
    {
        let down = input.action_pressed(Action::DebugTrigger);
        let fire = down && !self.held;
        self.held = down;
        fire
    }
}

/// The report of the given pose.
pub fn debug_report(transform: &Transform, controller: &CameraController) -> (report: DebugReport)
    ensures
        report == spec_report(*transform, *controller),
{
    DebugReport {
        position: transform.translation,
        yaw_degrees: to_degrees(controller.yaw),
        pitch_degrees: to_degrees(controller.pitch),
    }
}

/// Reports the pose in the frame in which the debug trigger goes down, and
/// in no other: not while it stays down, and not while it is up.
pub fn debug_camera_info(
    input: &InputSnapshot,
    reporter: &mut DebugReporter,
    transform: &Transform,
    controller: &CameraController,
) -> (report: Option<DebugReport>)
    ensures
        *final(reporter) == spec_debug_step(
            *old(reporter),
            input.active(Action::DebugTrigger),
        ).0,
        report == if spec_debug_step(*old(reporter), input.active(Action::DebugTrigger)).1 {
            Some(spec_report(*transform, *controller))
        } else {
            None
        },
{
    if reporter.triggered(input) {
        Some(debug_report(transform, controller))
    } else {
        None
    }
}

} // verus!
