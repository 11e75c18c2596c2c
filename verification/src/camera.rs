//! The orbit-camera controller.
//!
//! The camera orbits a fixed focus point at a given distance (the
//! radius), its direction set by two angles: yaw (rotation about the
//! world's vertical axis) and pitch (tilt toward the poles). Pointer
//! drags turn into angle changes scaled by the viewport size, so a
//! full-viewport-width drag is half a turn of yaw whatever the window
//! resolution; the scroll wheel zooms by scaling the radius, so the
//! zoom feel is exponential rather than linear.
//!
//! Everything is fixed-point:
//! - angles are `i64` microradians (one millionth of a radian);
//! - distances are `u64` thousandths of a world unit.
//!
//! Invariants of a well-formed state: the radius stays in
//! `[RADIUS_MIN_MILLI, RADIUS_MAX_MILLI]` (so strictly positive), yaw is
//! normalized into `[0, TAU_URAD)`, and pitch is clamped into
//! `[-PITCH_LIMIT_URAD, PITCH_LIMIT_URAD]`, which sits strictly inside
//! the open interval (-pi/2, pi/2): the camera never reaches a pole.

use vstd::prelude::*;
use vstd::arithmetic::div_mod::lemma_fundamental_div_mod;
use vstd::arithmetic::div_mod::lemma_fundamental_div_mod_converse;

verus! {

/// Pi in microradians, rounded to the nearest integer.
pub const PI_URAD: i64 = 3141593;

/// A full turn (2*pi) in microradians; kept as exactly twice `PI_URAD`
/// so that two half-turn drags add up to an exact full turn.
pub const TAU_URAD: i64 = 2 * PI_URAD;

/// Pi/2 in microradians, rounded down: every legal pitch is strictly
/// below this bound in magnitude.
pub const HALF_PI_URAD: i64 = 1570796;

/// The pitch clamp bound (about 85.9 degrees), strictly inside pi/2,
/// so the camera can never tip over a pole.
pub const PITCH_LIMIT_URAD: i64 = 1500000;

/// Smallest radius the zoom can reach: 0.05 world units.
pub const RADIUS_MIN_MILLI: u64 = 50;

/// Largest radius the zoom can reach: one million world units.
pub const RADIUS_MAX_MILLI: u64 = 1000000000;

/// Fixed-point denominator of the zoom factor.
pub const ZOOM_SCALE: u64 = 1000;

/// How much of the radius one scroll step removes (or adds), in
/// `ZOOM_SCALE` units: 100 / 1000 = ten percent per step.
pub const ZOOM_STEP: u64 = 100;

/// Scroll input is clamped to this many steps per update, which keeps
/// the zoom factor strictly positive (at least 0.1x, at most 1.9x).
pub const SCROLL_CLAMP: i64 = 9;

/// A point in world space, in thousandths of a world unit per axis.
#[derive(Clone, Copy, Debug, PartialEq, Eq, Structural)]
pub struct Point3 {
    pub x: i64,
    pub y: i64,
    pub z: i64,
}

/// The whole state of one orbit camera.
#[derive(Clone, Copy, Debug, PartialEq, Eq, Structural)]
pub struct OrbitCameraState {
    /// The point the camera orbits and always looks at.
    pub focus: Point3,
    /// Distance from the focus to the camera, in thousandths of a
    /// world unit; always strictly positive.
    pub radius: u64,
    /// Rotation about the vertical axis, in microradians, normalized
    /// into `[0, TAU_URAD)`.
    pub yaw: u64,
    /// Tilt toward the poles, in microradians, clamped into
    /// `[-PITCH_LIMIT_URAD, PITCH_LIMIT_URAD]`.
    pub pitch: i64,
    /// True while the last drag pushed the raw (unclamped) pitch out of
    /// its legal range; horizontal drag is inverted while it holds, so
    /// orbiting keeps feeling right after the camera was pushed over
    /// the top.
    pub upside_down: bool,
}

/// `x` clamped into `[lo, hi]`.
pub open spec fn clamp_int(x: int, lo: int, hi: int) -> int {
    if x < lo {
        lo
    } else if x > hi {
        hi
    } else {
        x
    }
}

/// Division that truncates toward zero (for `b > 0`), as integer
/// division of same-sign operands does in executable code.
pub open spec fn div_toward_zero(a: int, b: int) -> int {
    if a >= 0 {
        a / b
    } else {
        -((-a) / b)
    }
}

/// A drag of `d` pixels across a viewport dimension of `span` pixels,
/// as an angle in microradians: scaled by pi over the full dimension,
/// so a full-span drag is exactly half a turn.
pub open spec fn drag_angle_urad(d: int, span: int) -> int {
    div_toward_zero(d * (PI_URAD as int), span)
}

/// The yaw change of a horizontal drag: the drag angle, inverted while
/// the camera is upside down.
pub open spec fn yaw_delta_urad(dx: int, span: int, upside_down: bool) -> int {
    if upside_down {
        -drag_angle_urad(dx, span)
    } else {
        drag_angle_urad(dx, span)
    }
}

/// An angle normalized into `[0, TAU_URAD)` by whole turns.
pub open spec fn wrap_angle(a: int) -> int {
    a % (TAU_URAD as int)
}

/// Pitch after a raw change of `d`, clamped into its legal range.
pub open spec fn pitch_after(p: int, d: int) -> int {
    clamp_int(p + d, -(PITCH_LIMIT_URAD as int), PITCH_LIMIT_URAD as int)
}

/// Whether a raw pitch change of `d` fell outside the legal range, the
/// condition that flips `upside_down`.
pub open spec fn pitch_flipped(p: int, d: int) -> bool {
    p + d < -(PITCH_LIMIT_URAD as int) || p + d > PITCH_LIMIT_URAD as int
}

/// The zoom factor of a scroll input, in `ZOOM_SCALE` units: one, minus
/// ten percent per scroll step, with the step count clamped so the
/// factor stays strictly positive.
pub open spec fn zoom_factor(scroll: int) -> int {
    ZOOM_SCALE as int - (ZOOM_STEP as int) * clamp_int(
        scroll,
        -(SCROLL_CLAMP as int),
        SCROLL_CLAMP as int,
    )
}

/// Radius after a scroll input: scaled by the zoom factor, then clamped
/// into `[RADIUS_MIN_MILLI, RADIUS_MAX_MILLI]`.
pub open spec fn radius_after(r: int, scroll: int) -> int {
    clamp_int(
        r * zoom_factor(scroll) / (ZOOM_SCALE as int),
        RADIUS_MIN_MILLI as int,
        RADIUS_MAX_MILLI as int,
    )
}

impl OrbitCameraState {
    /// A state is well formed when the radius is inside its bounds,
    /// yaw is normalized, and pitch is inside its clamp range.
    pub open spec fn wf(self) -> bool {
        &&& RADIUS_MIN_MILLI <= self.radius <= RADIUS_MAX_MILLI
        &&& self.yaw < TAU_URAD
        &&& -PITCH_LIMIT_URAD <= self.pitch <= PITCH_LIMIT_URAD
    }

    /// A fresh camera orbiting `focus` at the requested radius (clamped
    /// into its legal bounds), level and facing along yaw zero.
    pub fn new(focus: Point3, radius_milli: u64) -> (s: OrbitCameraState)
        ensures
            s.wf(),
            s.focus == focus,
            s.radius as int == clamp_int(
                radius_milli as int,
                RADIUS_MIN_MILLI as int,
                RADIUS_MAX_MILLI as int,
            ),
            s.yaw == 0,
            s.pitch == 0,
            !s.upside_down,
    {
        let radius: u64 = if radius_milli < RADIUS_MIN_MILLI {
            RADIUS_MIN_MILLI
        } else if radius_milli > RADIUS_MAX_MILLI {
            RADIUS_MAX_MILLI
        } else {
            radius_milli
        };
        OrbitCameraState { focus, radius, yaw: 0, pitch: 0, upside_down: false }
    }

    /// One frame of input applied to the camera: a pointer drag of
    /// `(dx, dy)` pixels rotates (scaled by pi over the viewport
    /// dimension, horizontal inverted while upside down), a scroll
    /// input zooms (ten percent of the radius per step, clamped), and
    /// zero input changes nothing. The focus never moves, pitch stays
    /// clamped, yaw stays normalized and the radius stays inside its
    /// positive bounds, so the result is again well formed.
    pub fn update(&self, dx: i64, dy: i64, scroll: i64, viewport_w: u64, viewport_h: u64) -> (next:
        OrbitCameraState)
        requires
            self.wf(),
            1 <= viewport_w,
            1 <= viewport_h,
        ensures
            next.wf(),
            next.focus == self.focus,
            next.radius == radius_after(self.radius as int, scroll as int),
            scroll == 0 ==> next.radius == self.radius,
            dx == 0 && dy == 0 ==> next.yaw == self.yaw && next.pitch == self.pitch
                && next.upside_down == self.upside_down,
            dx != 0 || dy != 0 ==> next.yaw == wrap_angle(
                self.yaw + yaw_delta_urad(dx as int, viewport_w as int, self.upside_down),
            ),
            dx != 0 || dy != 0 ==> next.pitch == pitch_after(
                self.pitch as int,
                drag_angle_urad(dy as int, viewport_h as int),
            ),
            dx != 0 || dy != 0 ==> next.upside_down == pitch_flipped(
                self.pitch as int,
                drag_angle_urad(dy as int, viewport_h as int),
            ),
            dx == 0 && dy == 0 && scroll == 0 ==> next == *self,
    {
        let mut next: OrbitCameraState = *self;
        if dx != 0 || dy != 0 {
            let yaw_mag: u128 = drag_angle_magnitude(dx, viewport_w);
            let yaw_neg: bool = (dx < 0) != self.upside_down;
            next.yaw = wrap_yaw_add(self.yaw, yaw_mag, yaw_neg);
            let pitch_mag: u128 = drag_angle_magnitude(dy, viewport_h);
            proof {
                assert(abs_int(dy as int) * (PI_URAD as int) <= 0x8000000000000000 * (
                PI_URAD as int));
            }
            let applied: (i64, bool) = pitch_apply(self.pitch, pitch_mag, dy < 0);
            next.pitch = applied.0;
            next.upside_down = applied.1;
        }
        if scroll != 0 {
            next.radius = zoom_radius(next.radius, scroll);
        } else {
            proof {
                vstd::arithmetic::div_mod::lemma_div_multiples_vanish(self.radius as int, 1000);
                assert(clamp_int(0, -(SCROLL_CLAMP as int), SCROLL_CLAMP as int) == 0);
                assert(zoom_factor(0) == 1000);
                assert(self.radius * zoom_factor(0) == 1000 * self.radius);
            }
        }
        next
    }
}

/// The magnitude `|d|` of a pixel delta, widened so that even
/// `i64::MIN` has one.
spec fn abs_int(d: int) -> int {
    if d >= 0 {
        d
    } else {
        -d
    }
}

/// `|d| * PI_URAD / span`: the magnitude of the drag angle, computed in
/// 128 bits so that no pixel delta can overflow.
fn drag_angle_magnitude(d: i64, span: u64) -> (mag: u128)
    requires
        1 <= span,
    ensures
        mag == abs_int(d as int) * (PI_URAD as int) / (span as int),
        mag <= abs_int(d as int) * (PI_URAD as int),
        d >= 0 ==> mag == drag_angle_urad(d as int, span as int),
        d < 0 ==> mag == -drag_angle_urad(d as int, span as int),
{
    let m: u128 = if d >= 0 {
        d as u128
    } else {
        (-(d as i128)) as u128
    };
    let scaled: u128 = m * (PI_URAD as u128);
    let q: u128 = scaled / (span as u128);
    proof {
        vstd::arithmetic::div_mod::lemma_div_is_ordered_by_denominator(scaled as int, 1, span as int);
        vstd::arithmetic::div_mod::lemma_div_basics(scaled as int);
        if d < 0 {
            assert((-(d as int)) * (PI_URAD as int) == -(d as int * (PI_URAD as int)));
        }
    }
    q
}

/// Yaw after adding an angle of magnitude `mag` with the given sign,
/// brought back into `[0, TAU_URAD)` by whole turns, exactly as
/// `wrap_angle` states it.
fn wrap_yaw_add(yaw: u64, mag: u128, neg: bool) -> (r: u64)
    requires
        yaw < TAU_URAD,
    ensures
        r < TAU_URAD,
        r == wrap_angle(yaw + (if neg { -(mag as int) } else { mag as int })),
{
    let m: u128 = mag % (TAU_URAD as u128);
    let m64: u64 = m as u64;
    let dm: u64 = if !neg {
        m64
    } else if m64 == 0 {
        0
    } else {
        TAU_URAD as u64 - m64
    };
    let s: u64 = yaw + dm;
    let r: u64 = if s >= TAU_URAD as u64 {
        s - TAU_URAD as u64
    } else {
        s
    };
    proof {
        let tau = TAU_URAD as int;
        let mi = mag as int;
        let delta: int = if neg { -mi } else { mi };
        lemma_fundamental_div_mod(mi, tau);
        let q = mi / tau;
        if neg {
            if m64 == 0 {
                assert(-mi == (-q) * tau + 0) by (nonlinear_arith)
                    requires mi == tau * q + 0,
                ;
                lemma_fundamental_div_mod_converse(-mi, tau, -q, 0);
            } else {
                assert(-mi == (-q - 1) * tau + (tau - (mi % tau))) by (nonlinear_arith)
                    requires mi == tau * q + (mi % tau),
                ;
                lemma_fundamental_div_mod_converse(-mi, tau, -q - 1, tau - (mi % tau));
            }
        }
        assert(dm == delta % tau);
        lemma_fundamental_div_mod(delta, tau);
        let k = delta / tau;
        if s >= TAU_URAD as u64 {
            assert(yaw + delta == (k + 1) * tau + (yaw + dm - tau)) by (nonlinear_arith)
                requires delta == tau * k + dm,
            ;
            lemma_fundamental_div_mod_converse(yaw + delta, tau, k + 1, yaw + dm - tau);
        } else {
            assert(yaw + delta == k * tau + (yaw + dm)) by (nonlinear_arith)
                requires delta == tau * k + dm,
            ;
            lemma_fundamental_div_mod_converse(yaw + delta, tau, k, yaw + dm);
        }
    }
    r
}

/// Pitch and the upside-down flag after a raw pitch change of
/// magnitude `mag` with the given sign: the pitch clamped into its
/// legal range, the flag set exactly when the raw value fell outside.
/// The bound on `mag` is the largest drag angle any `i64` pixel delta
/// can give; it keeps the raw pitch inside 128 bits.
fn pitch_apply(pitch: i64, mag: u128, neg: bool) -> (res: (i64, bool))
    requires
        -PITCH_LIMIT_URAD <= pitch <= PITCH_LIMIT_URAD,
        mag <= 0x8000000000000000u128 * (PI_URAD as u128),
    ensures
        res.0 == pitch_after(pitch as int, if neg { -(mag as int) } else { mag as int }),
        res.1 == pitch_flipped(pitch as int, if neg { -(mag as int) } else { mag as int }),
        -PITCH_LIMIT_URAD <= res.0 <= PITCH_LIMIT_URAD,
{
    let p: i128 = pitch as i128;
    let m: i128 = mag as i128;
    let raw: i128 = if neg {
        p - m
    } else {
        p + m
    };
    if raw < -(PITCH_LIMIT_URAD as i128) {
        (-PITCH_LIMIT_URAD, true)
    } else if raw > PITCH_LIMIT_URAD as i128 {
        (PITCH_LIMIT_URAD, true)
    } else {
        (raw as i64, false)
    }
}

/// Radius after one scroll input, exactly as `radius_after` states it.
fn zoom_radius(radius: u64, scroll: i64) -> (r: u64)
    requires
        RADIUS_MIN_MILLI <= radius <= RADIUS_MAX_MILLI,
    ensures
        RADIUS_MIN_MILLI <= r <= RADIUS_MAX_MILLI,
        r == radius_after(radius as int, scroll as int),
{
    let steps: i64 = if scroll < -SCROLL_CLAMP {
        -SCROLL_CLAMP
    } else if scroll > SCROLL_CLAMP {
        SCROLL_CLAMP
    } else {
        scroll
    };
    let factor_signed: i64 = ZOOM_SCALE as i64 - ZOOM_STEP as i64 * steps;
    assert(100 <= factor_signed <= 1900);
    let factor: u64 = factor_signed as u64;
    assert(radius * factor <= 1900000000000) by (nonlinear_arith)
        requires
            radius <= 1000000000,
            factor <= 1900,
    ;
    let scaled: u64 = radius * factor / ZOOM_SCALE;
    if scaled < RADIUS_MIN_MILLI {
        RADIUS_MIN_MILLI
    } else if scaled > RADIUS_MAX_MILLI {
        RADIUS_MAX_MILLI
    } else {
        scaled
    }
}

/// Law: after any drag, however large, the clamped pitch lies strictly
/// inside the open interval (-pi/2, pi/2): the camera never reaches a
/// pole.
pub proof fn lemma_pitch_stays_inside_open_range(p: int, d: int)
    ensures
        -HALF_PI_URAD < pitch_after(p, d) < HALF_PI_URAD,
{
}

/// Law: any scroll input applied to a radius inside its bounds leaves
/// the radius inside its bounds, in particular strictly positive.
pub proof fn lemma_radius_stays_positive(r: int, scroll: int)
    requires
        RADIUS_MIN_MILLI <= r <= RADIUS_MAX_MILLI,
    ensures
        RADIUS_MIN_MILLI <= radius_after(r, scroll) <= RADIUS_MAX_MILLI,
        0 < radius_after(r, scroll),
{
}

/// Law: a drag across the full viewport dimension is exactly half a
/// turn, whatever the resolution.
pub proof fn lemma_full_span_drag_is_half_turn(span: int)
    requires
        1 <= span,
    ensures
        drag_angle_urad(span, span) == PI_URAD as int,
{
    vstd::arithmetic::mul::lemma_mul_nonnegative(span, PI_URAD as int);
    vstd::arithmetic::div_mod::lemma_div_multiples_vanish(PI_URAD as int, span);
}

/// Law: drag sensitivity is resolution independent: scaling both the
/// pixel delta and the viewport dimension by the same factor gives
/// exactly the same angle.
pub proof fn lemma_drag_resolution_independent(d: int, span: int, k: int)
    requires
        1 <= span,
        1 <= k,
    ensures
        drag_angle_urad(k * d, k * span) == drag_angle_urad(d, span),
{
    let pi = PI_URAD as int;
    if d >= 0 {
        lemma_drag_scale_nonneg(d, span, k);
    } else {
        lemma_drag_scale_nonneg(-d, span, k);
        assert((k * -d) * pi == -((k * d) * pi)) by (nonlinear_arith);
        assert(-(k * d) == k * -d) by (nonlinear_arith);
        assert(k * d < 0) by (nonlinear_arith)
            requires d < 0, 1 <= k,
        ;
    }
}

/// The scaling step of `lemma_drag_resolution_independent`, for a
/// nonnegative pixel delta: `(k*d * pi) / (k*span) == (d * pi) / span`.
proof fn lemma_drag_scale_nonneg(d: int, span: int, k: int)
    requires
        0 <= d,
        1 <= span,
        1 <= k,
    ensures
        (k * d) * (PI_URAD as int) / (k * span) == d * (PI_URAD as int) / span,
        0 <= (k * d) * (PI_URAD as int),
        0 <= k * d,
{
    let pi = PI_URAD as int;
    let a = d * pi;
    vstd::arithmetic::mul::lemma_mul_nonnegative(d, pi);
    vstd::arithmetic::mul::lemma_mul_nonnegative(k, a);
    vstd::arithmetic::mul::lemma_mul_nonnegative(k, d);
    assert((k * d) * pi == k * a) by (nonlinear_arith)
        requires a == d * pi,
    ;
    vstd::arithmetic::div_mod::lemma_div_denominator(k * a, k, span);
    vstd::arithmetic::div_mod::lemma_div_multiples_vanish(a, k);
}

/// Law: whole turns vanish under yaw normalization: adding any
/// multiple of a full turn to a normalized yaw gives the same yaw
/// back.
pub proof fn lemma_whole_turns_vanish(yaw: int, k: int)
    requires
        0 <= yaw < TAU_URAD,
    ensures
        wrap_angle(yaw + k * (TAU_URAD as int)) == yaw,
{
    lemma_fundamental_div_mod_converse(yaw + k * (TAU_URAD as int), TAU_URAD as int, k, yaw);
}

/// Law: orbiting a full turn returns the camera: two drags whose yaw
/// changes add up to one full turn bring a normalized yaw back to
/// exactly where it started.
pub proof fn lemma_full_turn_returns(yaw: int, d1: int, d2: int)
    requires
        0 <= yaw < TAU_URAD,
        d1 + d2 == TAU_URAD as int,
    ensures
        wrap_angle(wrap_angle(yaw + d1) + d2) == yaw,
{
    let tau = TAU_URAD as int;
    lemma_fundamental_div_mod(yaw + d1, tau);
    vstd::arithmetic::div_mod::lemma_mod_bound(yaw + d1, tau);
    let q = (yaw + d1) / tau;
    let w1 = wrap_angle(yaw + d1);
    assert(w1 + d2 == (1 - q) * tau + yaw) by (nonlinear_arith)
        requires yaw + d1 == tau * q + w1, d1 + d2 == tau,
    ;
    lemma_fundamental_div_mod_converse(w1 + d2, tau, 1 - q, yaw);
}

impl Default for OrbitCameraState {
    /// The deterministic starting state of a session: orbiting the
    /// origin from ten world units away, level, facing along yaw zero.
    fn default() -> (s: OrbitCameraState)
        ensures
            s.wf(),
            s.focus == (Point3 { x: 0, y: 0, z: 0 }),
            s.radius == 10000,
            s.yaw == 0,
            s.pitch == 0,
            !s.upside_down,
    {
        OrbitCameraState {
            focus: Point3 { x: 0, y: 0, z: 0 },
            radius: 10000,
            yaw: 0,
            pitch: 0,
            upside_down: false,
        }
    }
}

} // verus!
