//! Scroll-driven zoom towards or away from the anchor.
//!
//! A scroll event changes the agent's distance to the anchor by
//! `scroll_sign * distance * sensitivity * elapsed`, clamped to a hard
//! minimum-distance floor. A zero scroll is a true no-op, not a near-zero
//! write.

use vstd::prelude::*;

use crate::movement::Anchor;
use crate::movement::AnchoredMovement;
use crate::movement::OrbitTransform;
use crate::movement::Seconds;
use crate::resources::CameraZoomSettings;
use crate::scalar::abs_val;
use crate::scalar::fixed_mul;
use crate::scalar::lemma_fixed_mul_neg;
use crate::scalar::lemma_fixed_mul_nonneg;
use crate::scalar::lemma_fixed_mul_unit;
use crate::scalar::max_val;
use crate::scalar::scalar;
use crate::scalar::Scalar;
use crate::scalar::MICROS_PER_UNIT;
use crate::sqrt::isqrt_u128;
use crate::sqrt::lemma_sqrt_floor_bounds;
use crate::sqrt::sqrt_floor;
use crate::vector::dist_sq;
use crate::vector::dist_sq_u128;
use crate::vector::in_coord_range;
use crate::vector::lemma_scale_away_bounds;
use crate::vector::scale_away;
use crate::vector::scale_component;
use crate::vector::Vec3;

verus! {

/// A scroll event: line or pixel deltas along both axes; only the vertical
/// axis drives the zoom.
#[derive(Clone, Copy, Debug, PartialEq, Eq, Structural)]
pub struct MouseWheel {
    pub x: Scalar,
    pub y: Scalar,
}

/// The zoom factor a scroll direction asks for: plus one unit for an upward
/// scroll, minus one for a downward scroll, zero for none.
pub open spec fn zoom_sign(y: int) -> int {
    if y > 0 {
        MICROS_PER_UNIT as int
    } else if y < 0 {
        -(MICROS_PER_UNIT as int)
    } else {
        0
    }
}

/// The distance change a scroll event asks for, before clamping:
/// `sign * distance * sensitivity * elapsed`, with each product rounded as
/// the fixed-point arithmetic rounds.
pub open spec fn zoom_amount(y: int, distance: int, sensitivity: int, delta: Seconds) -> int {
    fixed_mul(fixed_mul(fixed_mul(zoom_sign(y), distance), sensitivity), delta.0@)
}

/// The distance after a zoom step: the current distance less the zoom
/// amount, but never below the configured floor.
pub open spec fn zoomed_distance_spec(
    y: int,
    distance: int,
    sensitivity: int,
    delta: Seconds,
    minimal_distance: int,
) -> int {
    max_val(distance - zoom_amount(y, distance, sensitivity, delta), minimal_distance)
}

/// The machine-size bounds under which the zoom step is defined.
pub open spec fn zoom_fits(
    y: int,
    distance: int,
    sensitivity: int,
    delta: Seconds,
) -> bool {
    let scaled = fixed_mul(fixed_mul(zoom_sign(y), distance), sensitivity);
    let amount = zoom_amount(y, distance, sensitivity, delta);
    &&& i64::MIN <= fixed_mul(zoom_sign(y), distance) <= i64::MAX
    &&& i64::MIN <= scaled <= i64::MAX
    &&& i64::MIN <= amount <= i64::MAX
    &&& i64::MIN <= distance - amount <= i64::MAX
}

fn get_zoom(wheel: &MouseWheel) -> (r: Option<Scalar>)
    ensures
        r == if wheel.y@ == 0 {
            Option::<Scalar>::None
        } else {
            Option::<Scalar>::Some(scalar(zoom_sign(wheel.y@)))
        },
{
    if wheel.y.micros < 0 {
        Some(Scalar { micros: -MICROS_PER_UNIT })
    } else if wheel.y.micros > 0 {
        Some(Scalar { micros: MICROS_PER_UNIT })
    } else {
        None
    }
}

/// One clamped zoom step on a plain distance: the shared core of the scroll
/// movement, also usable on distances recovered from world positions.
pub fn zoomed_distance(
    distance: Scalar,
    zoom: Scalar,
    sensitivity: Scalar,
    delta: Seconds,
    minimal_distance: Scalar,
) -> (r: Scalar)
    requires
        i64::MIN <= fixed_mul(zoom@, distance@) <= i64::MAX,
        i64::MIN <= fixed_mul(fixed_mul(zoom@, distance@), sensitivity@) <= i64::MAX,
        i64::MIN <= fixed_mul(fixed_mul(fixed_mul(zoom@, distance@), sensitivity@), delta.0@)
            <= i64::MAX,
        i64::MIN <= distance@ - fixed_mul(
            fixed_mul(fixed_mul(zoom@, distance@), sensitivity@),
            delta.0@,
        ) <= i64::MAX,
    ensures
        r@ == max_val(
            distance@ - fixed_mul(
                fixed_mul(fixed_mul(zoom@, distance@), sensitivity@),
                delta.0@,
            ),
            minimal_distance@,
        ),
{
    let zoom_step = zoom.mul(distance).mul(sensitivity).mul(delta.0);
    distance.sub(zoom_step).max(minimal_distance)
}

/// Whether one repositioned coordinate stays within machine range.
pub open spec fn axis_fits(coordinate: int, target: int, num: int, den: int) -> bool {
    &&& i64::MIN <= scale_away(coordinate - target, num, den) <= i64::MAX
    &&& i64::MIN <= target + scale_away(coordinate - target, num, den) <= i64::MAX
}

/// The machine-size bounds under which a positional zoom step is defined,
/// together with the two inputs the rule itself excludes: a position at the
/// anchor (whose direction could not be normalized) and a negative floor.
pub open spec fn zoom_translation_pre(
    wheel_y: int,
    translation: Vec3,
    target: Vec3,
    delta: Seconds,
    settings: CameraZoomSettings,
) -> bool {
    let dsq = dist_sq(translation, target);
    let dist = sqrt_floor(dsq);
    let new_dist = zoomed_distance_spec(
        wheel_y,
        dist,
        settings.sensitivity@,
        delta,
        settings.minimal_distance@,
    );
    &&& in_coord_range(translation)
    &&& in_coord_range(target)
    &&& (wheel_y == 0 || {
        &&& dsq > 0
        &&& settings.minimal_distance@ >= 0
        &&& zoom_fits(wheel_y, dist, settings.sensitivity@, delta)
        &&& axis_fits(translation.x@, target.x@, new_dist, dist)
        &&& axis_fits(translation.y@, target.y@, new_dist, dist)
        &&& axis_fits(translation.z@, target.z@, new_dist, dist)
    })
}

/// Where a positional zoom step puts the agent: along the same direction
/// from the anchor, at the clamped new distance; unchanged for a zero
/// scroll.
pub open spec fn zoomed_translation_spec(
    wheel_y: int,
    translation: Vec3,
    target: Vec3,
    sensitivity: int,
    delta: Seconds,
    minimal_distance: int,
) -> Vec3 {
    if wheel_y == 0 {
        translation
    } else {
        let dist = sqrt_floor(dist_sq(translation, target));
        let new_dist = zoomed_distance_spec(wheel_y, dist, sensitivity, delta, minimal_distance);
        Vec3 {
            x: scalar(target.x@ + scale_away(translation.x@ - target.x@, new_dist, dist)),
            y: scalar(target.y@ + scale_away(translation.y@ - target.y@, new_dist, dist)),
            z: scalar(target.z@ + scale_away(translation.z@ - target.z@, new_dist, dist)),
        }
    }
}

impl MouseWheel {
    /// The zoom step on a world position: the direction from the anchor to
    /// the agent is kept, the distance along it is zoomed and clamped. A
    /// zero scroll returns the position unchanged, exactly.
    pub fn zoom_translation(
        &self,
        translation: Vec3,
        target: Vec3,
        delta: Seconds,
        settings: CameraZoomSettings,
    ) -> (r: Vec3)
        requires
            zoom_translation_pre(self.y@, translation, target, delta, settings),
        ensures
            r == zoomed_translation_spec(
                self.y@,
                translation,
                target,
                settings.sensitivity@,
                delta,
                settings.minimal_distance@,
            ),
    {
        let zoom = match get_zoom(self) {
            Some(zoom) => zoom,
            None => {
                return translation;
            },
        };
        let dsq = dist_sq_u128(&translation, &target);
        let dist_u = isqrt_u128(dsq);
        proof {
            assert(self.y@ != 0);
            lemma_sqrt_floor_bounds(dsq as int);
            let dx = translation.x@ - target.x@;
            let dy = translation.y@ - target.y@;
            let dz = translation.z@ - target.z@;
            assert(dx * dx <= 0x4000_0000_0000_0000 * 0x4000_0000_0000_0000) by (nonlinear_arith)
                requires
                    -0x4000_0000_0000_0000 <= dx <= 0x4000_0000_0000_0000,
            ;
            assert(dy * dy <= 0x4000_0000_0000_0000 * 0x4000_0000_0000_0000) by (nonlinear_arith)
                requires
                    -0x4000_0000_0000_0000 <= dy <= 0x4000_0000_0000_0000,
            ;
            assert(dz * dz <= 0x4000_0000_0000_0000 * 0x4000_0000_0000_0000) by (nonlinear_arith)
                requires
                    -0x4000_0000_0000_0000 <= dz <= 0x4000_0000_0000_0000,
            ;
            assert(dsq as int <= 3 * 0x4000_0000_0000_0000 * 0x4000_0000_0000_0000);
            assert(dist_u <= 0x7fff_ffff_ffff_ffffu128) by (nonlinear_arith)
                requires
                    (dist_u as int) * (dist_u as int) <= dsq as int,
                    dsq as int <= 3 * 0x4000_0000_0000_0000 * 0x4000_0000_0000_0000,
            ;
            if dist_u == 0 {
                assert((dist_u as int + 1) * (dist_u as int + 1) == 1) by (nonlinear_arith)
                    requires
                        dist_u as int == 0,
                ;
                assert(false);
            }
            lemma_fixed_mul_unit(dist_u as int);
        }
        let dist = Scalar { micros: dist_u as i64 };
        let new_dist = zoomed_distance(dist, zoom, settings.sensitivity, delta,
            settings.minimal_distance);
        let x = scale_component(translation.x, target.x, new_dist, dist_u);
        let y = scale_component(translation.y, target.y, new_dist, dist_u);
        let z = scale_component(translation.z, target.z, new_dist, dist_u);
        Vec3 { x, y, z }
    }
}

impl AnchoredMovement for MouseWheel {
    type TExtra = CameraZoomSettings;

    open spec fn movement_pre(
        &self,
        agent: OrbitTransform,
        around: Anchor,
        delta: Seconds,
        extra: CameraZoomSettings,
    ) -> bool {
        self.y@ == 0 || zoom_fits(self.y@, agent.distance@, extra.sensitivity@, delta)
    }

    open spec fn movement_spec(
        &self,
        agent: OrbitTransform,
        around: Anchor,
        delta: Seconds,
        extra: CameraZoomSettings,
    ) -> OrbitTransform {
        if self.y@ == 0 {
            agent
        } else {
            OrbitTransform {
                yaw: agent.yaw,
                pitch: agent.pitch,
                distance: scalar(
                    zoomed_distance_spec(
                        self.y@,
                        agent.distance@,
                        extra.sensitivity@,
                        delta,
                        extra.minimal_distance@,
                    ),
                ),
            }
        }
    }

    fn anchored_movement(
        &self,
        agent: &mut OrbitTransform,
        around: Anchor,
        delta: Seconds,
        extra: CameraZoomSettings,
    ) {
        let zoom = match get_zoom(self) {
            Some(zoom) => zoom,
            None => {
                return;
            },
        };
        proof {
            lemma_fixed_mul_unit(agent.distance@);
        }
        agent.distance = zoomed_distance(
            agent.distance,
            zoom,
            extra.sensitivity,
            delta,
            extra.minimal_distance,
        );
    }
}

/// A zero scroll leaves the transform unchanged, exactly.
pub proof fn lemma_zoom_zero_scroll_is_noop(
    event: MouseWheel,
    agent: OrbitTransform,
    around: Anchor,
    delta: Seconds,
    settings: CameraZoomSettings,
)
    requires
        event.y@ == 0,
    ensures
        event.movement_spec(agent, around, delta, settings) == agent,
{
}

/// The distance after a non-zero zoom step is never below the configured
/// minimum, whatever the scroll magnitude, sensitivity or elapsed time.
pub proof fn lemma_zoom_respects_floor(
    event: MouseWheel,
    agent: OrbitTransform,
    around: Anchor,
    delta: Seconds,
    settings: CameraZoomSettings,
)
    requires
        event.y@ != 0,
        event.movement_pre(agent, around, delta, settings),
    ensures
        event.movement_spec(agent, around, delta, settings).distance@
            >= settings.minimal_distance@,
{
}

/// After a non-zero positional zoom step, the squared distance to the
/// anchor is at least the square of the configured minimum, whatever the
/// scroll magnitude, sensitivity or elapsed time.
pub proof fn lemma_zoom_translation_floor(
    wheel_y: int,
    translation: Vec3,
    target: Vec3,
    delta: Seconds,
    settings: CameraZoomSettings,
)
    requires
        wheel_y != 0,
        zoom_translation_pre(wheel_y, translation, target, delta, settings),
    ensures
        dist_sq(
            zoomed_translation_spec(
                wheel_y,
                translation,
                target,
                settings.sensitivity@,
                delta,
                settings.minimal_distance@,
            ),
            target,
        ) >= settings.minimal_distance@ * settings.minimal_distance@,
{
    let dsq = dist_sq(translation, target);
    let q = sqrt_floor(dsq);
    let p = zoomed_distance_spec(
        wheel_y,
        q,
        settings.sensitivity@,
        delta,
        settings.minimal_distance@,
    );
    let minimal = settings.minimal_distance@;
    lemma_sqrt_floor_bounds(dsq);
    assert(q >= 1) by {
        if q == 0 {
            assert((q + 1) * (q + 1) == 1) by (nonlinear_arith)
                requires
                    q == 0,
            ;
        }
    }
    let ox = translation.x@ - target.x@;
    let oy = translation.y@ - target.y@;
    let oz = translation.z@ - target.z@;
    let cx = scale_away(ox, p, q);
    let cy = scale_away(oy, p, q);
    let cz = scale_away(oz, p, q);
    lemma_scale_away_bounds(ox, p, q);
    lemma_scale_away_bounds(oy, p, q);
    lemma_scale_away_bounds(oz, p, q);
    let result = zoomed_translation_spec(
        wheel_y,
        translation,
        target,
        settings.sensitivity@,
        delta,
        settings.minimal_distance@,
    );
    assert(result.x@ == target.x@ + cx && result.y@ == target.y@ + cy && result.z@ == target.z@
        + cz);
    assert(cx * cx * (q * q) >= ox * ox * (p * p)) by (nonlinear_arith)
        requires
            abs_val(cx) * q >= abs_val(ox) * p,
            abs_val(cx) == if cx < 0 { -cx } else { cx },
            abs_val(ox) == if ox < 0 { -ox } else { ox },
            p >= 0,
            q >= 1,
    ;
    assert(cy * cy * (q * q) >= oy * oy * (p * p)) by (nonlinear_arith)
        requires
            abs_val(cy) * q >= abs_val(oy) * p,
            abs_val(cy) == if cy < 0 { -cy } else { cy },
            abs_val(oy) == if oy < 0 { -oy } else { oy },
            p >= 0,
            q >= 1,
    ;
    assert(cz * cz * (q * q) >= oz * oz * (p * p)) by (nonlinear_arith)
        requires
            abs_val(cz) * q >= abs_val(oz) * p,
            abs_val(cz) == if cz < 0 { -cz } else { cz },
            abs_val(oz) == if oz < 0 { -oz } else { oz },
            p >= 0,
            q >= 1,
    ;
    let sum_after = cx * cx + cy * cy + cz * cz;
    let qq = q * q;
    let pp = p * p;
    assert(sum_after * qq >= dsq * pp) by (nonlinear_arith)
        requires
            cx * cx * (q * q) >= ox * ox * (p * p),
            cy * cy * (q * q) >= oy * oy * (p * p),
            cz * cz * (q * q) >= oz * oz * (p * p),
            sum_after == cx * cx + cy * cy + cz * cz,
            dsq == ox * ox + oy * oy + oz * oz,
            qq == q * q,
            pp == p * p,
    ;
    assert(dsq * pp >= qq * pp) by (nonlinear_arith)
        requires
            dsq >= qq,
            pp >= 0,
    ;
    assert(qq >= 1) by (nonlinear_arith)
        requires
            q >= 1,
            qq == q * q,
    ;
    assert(sum_after >= pp) by (nonlinear_arith)
        requires
            sum_after * qq >= qq * pp,
            qq >= 1,
    ;
    assert(p * p >= minimal * minimal) by (nonlinear_arith)
        requires
            p >= minimal >= 0,
    ;
    assert(dist_sq(result, target) == sum_after);
}

/// A positive positional scroll never moves the agent farther from the
/// anchor and a negative one never moves it closer, as long as the agent
/// starts at or beyond the floor.
pub proof fn lemma_zoom_translation_direction(
    wheel_y: int,
    translation: Vec3,
    target: Vec3,
    delta: Seconds,
    settings: CameraZoomSettings,
)
    requires
        wheel_y != 0,
        zoom_translation_pre(wheel_y, translation, target, delta, settings),
        settings.sensitivity@ >= 0,
        delta.0@ >= 0,
        settings.minimal_distance@ <= sqrt_floor(dist_sq(translation, target)),
    ensures
        wheel_y > 0 ==> dist_sq(
            zoomed_translation_spec(
                wheel_y,
                translation,
                target,
                settings.sensitivity@,
                delta,
                settings.minimal_distance@,
            ),
            target,
        ) <= dist_sq(translation, target),
        wheel_y < 0 ==> dist_sq(
            zoomed_translation_spec(
                wheel_y,
                translation,
                target,
                settings.sensitivity@,
                delta,
                settings.minimal_distance@,
            ),
            target,
        ) >= dist_sq(translation, target),
{
    let dsq = dist_sq(translation, target);
    let q = sqrt_floor(dsq);
    let p = zoomed_distance_spec(
        wheel_y,
        q,
        settings.sensitivity@,
        delta,
        settings.minimal_distance@,
    );
    lemma_sqrt_floor_bounds(dsq);
    assert(q >= 1) by {
        if q == 0 {
            assert((q + 1) * (q + 1) == 1) by (nonlinear_arith)
                requires
                    q == 0,
            ;
        }
    }
    lemma_fixed_mul_unit(q);
    let scaled = fixed_mul(q, settings.sensitivity@);
    lemma_fixed_mul_nonneg(q, settings.sensitivity@);
    lemma_fixed_mul_nonneg(scaled, delta.0@);
    lemma_fixed_mul_neg(q, settings.sensitivity@);
    lemma_fixed_mul_neg(scaled, delta.0@);
    let ox = translation.x@ - target.x@;
    let oy = translation.y@ - target.y@;
    let oz = translation.z@ - target.z@;
    let cx = scale_away(ox, p, q);
    let cy = scale_away(oy, p, q);
    let cz = scale_away(oz, p, q);
    lemma_scale_away_bounds(ox, p, q);
    lemma_scale_away_bounds(oy, p, q);
    lemma_scale_away_bounds(oz, p, q);
    let result = zoomed_translation_spec(
        wheel_y,
        translation,
        target,
        settings.sensitivity@,
        delta,
        settings.minimal_distance@,
    );
    assert(result.x@ == target.x@ + cx && result.y@ == target.y@ + cy && result.z@ == target.z@
        + cz);
    assert(dist_sq(result, target) == cx * cx + cy * cy + cz * cz);
    if wheel_y > 0 {
        assert(p <= q);
        assert(cx * cx <= ox * ox) by (nonlinear_arith)
            requires
                abs_val(cx) <= abs_val(ox),
                abs_val(cx) == if cx < 0 { -cx } else { cx },
                abs_val(ox) == if ox < 0 { -ox } else { ox },
        ;
        assert(cy * cy <= oy * oy) by (nonlinear_arith)
            requires
                abs_val(cy) <= abs_val(oy),
                abs_val(cy) == if cy < 0 { -cy } else { cy },
                abs_val(oy) == if oy < 0 { -oy } else { oy },
        ;
        assert(cz * cz <= oz * oz) by (nonlinear_arith)
            requires
                abs_val(cz) <= abs_val(oz),
                abs_val(cz) == if cz < 0 { -cz } else { cz },
                abs_val(oz) == if oz < 0 { -oz } else { oz },
        ;
    } else {
        assert(p >= q);
        assert(cx * cx >= ox * ox) by (nonlinear_arith)
            requires
                abs_val(cx) * q >= abs_val(ox) * p,
                p >= q >= 1,
                abs_val(cx) == if cx < 0 { -cx } else { cx },
                abs_val(ox) == if ox < 0 { -ox } else { ox },
        ;
        assert(cy * cy >= oy * oy) by (nonlinear_arith)
            requires
                abs_val(cy) * q >= abs_val(oy) * p,
                p >= q >= 1,
                abs_val(cy) == if cy < 0 { -cy } else { cy },
                abs_val(oy) == if oy < 0 { -oy } else { oy },
        ;
        assert(cz * cz >= oz * oz) by (nonlinear_arith)
            requires
                abs_val(cz) * q >= abs_val(oz) * p,
                p >= q >= 1,
                abs_val(cz) == if cz < 0 { -cz } else { cz },
                abs_val(oz) == if oz < 0 { -oz } else { oz },
        ;
    }
}

/// A positive scroll never increases the distance and a negative scroll
/// never decreases it, as long as the agent starts at or above the floor; a
/// positive scroll whose step amounts to at least one micro-unit strictly
/// decreases the distance while the floor allows it.
pub proof fn lemma_zoom_direction_sign(
    event: MouseWheel,
    agent: OrbitTransform,
    around: Anchor,
    delta: Seconds,
    settings: CameraZoomSettings,
)
    requires
        event.movement_pre(agent, around, delta, settings),
        agent.distance@ >= 0,
        settings.sensitivity@ >= 0,
        delta.0@ >= 0,
        agent.distance@ >= settings.minimal_distance@,
    ensures
        event.y@ > 0 ==> event.movement_spec(agent, around, delta, settings).distance@
            <= agent.distance@,
        event.y@ < 0 ==> event.movement_spec(agent, around, delta, settings).distance@
            >= agent.distance@,
        event.y@ > 0 && fixed_mul(fixed_mul(agent.distance@, settings.sensitivity@), delta.0@)
            >= 1 && agent.distance@ > settings.minimal_distance@
            ==> event.movement_spec(agent, around, delta, settings).distance@
            < agent.distance@,
{
    let distance = agent.distance@;
    lemma_fixed_mul_unit(distance);
    if event.y@ > 0 {
        lemma_fixed_mul_nonneg(distance, settings.sensitivity@);
        lemma_fixed_mul_nonneg(fixed_mul(distance, settings.sensitivity@), delta.0@);
    }
    if event.y@ < 0 {
        lemma_fixed_mul_neg(distance, settings.sensitivity@);
        lemma_fixed_mul_nonneg(distance, settings.sensitivity@);
        lemma_fixed_mul_neg(fixed_mul(distance, settings.sensitivity@), delta.0@);
        lemma_fixed_mul_nonneg(fixed_mul(distance, settings.sensitivity@), delta.0@);
    }
}

} // verus!
