//! The per-frame integrator: gravity, motion, and the way out of a platform.
//!
//! One frame applies gravity, then moves the player, then resolves the
//! collision with each platform in the caller's order. Each step takes the
//! frame's duration as an argument.

use crate::config::{GRAVITY, TERMINAL_VELOCITY};
use crate::entities::platform::Platform;
use crate::entities::player::{Player, PlayerModel};
use crate::entities::{BodyModel, Rect, RectModel, Vec2Model};
use crate::fixed::{in_limit, lemma_mul_scaled_zero, mul_scaled, scale_mul, LIMIT};
use collision::{displaced, overlap_x, overlap_y, resolves_horizontally};
use vstd::prelude::*;

pub mod collision;

verus! {

/// The integrator and its two constants.
#[derive(Clone, Copy, Debug, PartialEq, Eq, Structural)]
pub struct Physics {
    /// Acceleration of a falling body.
    pub gravity: i64,
    /// Fastest that gravity makes a body fall.
    pub terminal_velocity: i64,
}

/// Body `a` after gravity acted on it for the time `delta_time`: on the
/// ground nothing changes; in the air it gains `gravity * delta_time` of
/// downward velocity, up to `terminal_velocity` and no further. A body that
/// rises is never slowed to the terminal velocity: the bound is a ceiling.
pub open spec fn fallen(a: BodyModel, gravity: int, terminal_velocity: int, delta_time: int) -> BodyModel {
    if a.on_ground {
        a
    } else {
        let sped_up = a.velocity.y + mul_scaled(gravity, delta_time);
        BodyModel {
            velocity: Vec2Model {
                x: a.velocity.x,
                y: if sped_up > terminal_velocity {
                    terminal_velocity
                } else {
                    sped_up
                },
            },
            ..a
        }
    }
}

/// Body `a` after gravity acted on it once for each of the durations `frames`,
/// in their order.
pub open spec fn fallen_repeatedly(
    a: BodyModel,
    gravity: int,
    terminal_velocity: int,
    frames: Seq<int>,
) -> BodyModel
    decreases frames.len(),
{
    if frames.len() == 0 {
        a
    } else {
        fallen(
            fallen_repeatedly(a, gravity, terminal_velocity, frames.drop_last()),
            gravity,
            terminal_velocity,
            frames.last(),
        )
    }
}

/// Body `a` after it moved with its velocity for the time `delta_time`, in
/// one step.
pub open spec fn integrated(a: BodyModel, delta_time: int) -> BodyModel {
    a.moved_to(displaced(a.position, a.velocity, delta_time))
}

/// Whether body `a` meets platform `p` from above: it falls, or its top is
/// above the top of the platform.
pub open spec fn comes_from_above(a: BodyModel, p: BodyModel) -> bool {
    a.velocity.y > 0 || a.bounds().top < p.bounds().top
}

/// Whether body `a`, overlapping platform `p`, lands on it: the collision is
/// resolved vertically, and the body meets the platform from above.
pub open spec fn lands_on(a: BodyModel, p: BodyModel) -> bool {
    &&& a.overlaps(p)
    &&& !resolves_horizontally(a.bounds(), p.bounds())
    &&& comes_from_above(a, p)
}

/// Whether body `a`, overlapping platform `p`, hits it from below: the
/// collision is resolved vertically, and the body does not meet the platform
/// from above.
pub open spec fn hits_from_below(a: BodyModel, p: BodyModel) -> bool {
    &&& a.overlaps(p)
    &&& !resolves_horizontally(a.bounds(), p.bounds())
    &&& !comes_from_above(a, p)
}

/// Body `a` after it was pushed out of platform `p` along the axis of the
/// smaller overlap, vertically on a tie. Pushed sideways it is put beside the
/// platform, to the left where its left edge is left of the platform's, and
/// stops moving sideways. Pushed vertically it stops moving vertically: a
/// body that falls, or whose top is above the platform's, is put on top of
/// the platform and then stands on the ground; any other body is put below
/// the platform and is then in the air.
pub open spec fn pushed_out(a: BodyModel, p: BodyModel) -> BodyModel {
    let ab = a.bounds();
    let pb = p.bounds();
    if resolves_horizontally(ab, pb) {
        BodyModel {
            position: Vec2Model {
                x: if ab.left < pb.left {
                    pb.left - a.size.x
                } else {
                    pb.right
                },
                y: a.position.y,
            },
            velocity: Vec2Model { x: 0, y: a.velocity.y },
            ..a
        }
    } else if comes_from_above(a, p) {
        BodyModel {
            position: Vec2Model { x: a.position.x, y: pb.top - a.size.y },
            velocity: Vec2Model { x: a.velocity.x, y: 0 },
            on_ground: true,
            ..a
        }
    } else {
        BodyModel {
            position: Vec2Model { x: a.position.x, y: pb.bottom },
            velocity: Vec2Model { x: a.velocity.x, y: 0 },
            on_ground: false,
            ..a
        }
    }
}

/// Body `a` after its collision with platform `p` was resolved: unchanged
/// where they do not overlap, pushed out where they do.
pub open spec fn resolved(a: BodyModel, p: BodyModel) -> BodyModel {
    if a.overlaps(p) {
        pushed_out(a, p)
    } else {
        a
    }
}

/// The player after its collision with platform `p` was resolved. Landing
/// gives it all its jumps back.
pub open spec fn player_resolved(player: PlayerModel, p: BodyModel) -> PlayerModel {
    PlayerModel {
        body: resolved(player.body, p),
        current_jump_count: if lands_on(player.body, p) {
            0
        } else {
            player.current_jump_count
        },
        ..player
    }
}

/// Body `a` kept right of the line `x = 0`: left of it, it is put on the line
/// and stops moving sideways. Nothing bounds it to the right, above or below.
pub open spec fn kept_in_bounds(a: BodyModel) -> BodyModel {
    if a.position.x < 0 {
        BodyModel {
            position: Vec2Model { x: 0, y: a.position.y },
            velocity: Vec2Model { x: 0, y: a.velocity.y },
            ..a
        }
    } else {
        a
    }
}

impl Physics {
    /// Whether the constants are within the limit for factors.
    pub open spec fn wf(&self) -> bool {
        in_limit(self.gravity as int) && in_limit(self.terminal_velocity as int)
    }

    /// The integrator with a gravity of 980 pixels per second squared and a
    /// terminal velocity of 500 pixels per second.
    pub fn new() -> (r: Physics)
        ensures
            r.gravity == GRAVITY,
            r.terminal_velocity == TERMINAL_VELOCITY,
            r.wf(),
    {
        Physics { gravity: GRAVITY, terminal_velocity: TERMINAL_VELOCITY }
    }

    /// Whether the constants are within the limit for factors.
    pub fn is_well_formed(&self) -> (r: bool)
        ensures
            r == self.wf(),
    {
        -LIMIT <= self.gravity && self.gravity <= LIMIT && -LIMIT <= self.terminal_velocity
            && self.terminal_velocity <= LIMIT
    }

    /// Lets gravity act on the player for the time `delta_time`. A player on
    /// the ground is left as it is. In the air it gains downward velocity, up
    /// to the terminal velocity and no further.
    pub fn apply_gravity(&self, player: &mut Player, delta_time: i64)
        requires
            self.wf(),
            old(player).body.wf(),
            in_limit(delta_time as int),
        ensures
            final(player)@ == old(player)@.with_body(
                fallen(
                    old(player)@.body,
                    self.gravity as int,
                    self.terminal_velocity as int,
                    delta_time as int,
                ),
            ),
            old(player).body.on_ground ==> *final(player) == *old(player),
            !old(player).body.on_ground ==> final(player).body.velocity.y
                <= self.terminal_velocity,
    {
        if !player.is_on_ground() {
            let mut velocity = player.velocity();
            velocity.y = velocity.y + scale_mul(self.gravity, delta_time);
            if velocity.y > self.terminal_velocity {
                velocity.y = self.terminal_velocity;
            }
            player.set_velocity(velocity);
        }
    }

    /// Moves the player with its velocity for the time `delta_time`, in one
    /// step. Nothing but the position changes.
    pub fn update_position(&self, player: &mut Player, delta_time: i64)
        requires
            old(player).body.wf(),
            in_limit(delta_time as int),
        ensures
            final(player)@ == old(player)@.with_body(
                integrated(old(player)@.body, delta_time as int),
            ),
            final(player).body.velocity == old(player).body.velocity,
            final(player).body.position@ == displaced(
                old(player).body.position@,
                old(player).body.velocity@,
                delta_time as int,
            ),
            old(player).body.velocity.x == 0 && old(player).body.velocity.y == 0
                ==> final(player).body.position == old(player).body.position,
    {
        let velocity = player.velocity();
        let mut position = player.position();
        position.x = position.x + scale_mul(velocity.x, delta_time);
        position.y = position.y + scale_mul(velocity.y, delta_time);
        player.set_position(position);
        proof {
            lemma_mul_scaled_zero(delta_time as int);
        }
    }

    /// Resolves the collision of the player with one platform. Whether they
    /// overlap is found anew from their boxes; a player that overlaps the
    /// platform is pushed out of it along the axis of the smaller overlap,
    /// vertically on a tie, and stops along that axis. Pushed vertically, a
    /// player that falls, or whose top is above the platform's, is put on top
    /// of the platform, stands on the ground and has all its jumps back; any
    /// other is put below the platform and is in the air. The platform stays
    /// where it is.
    pub fn check_collision(&self, player: &mut Player, platform: &Platform)
        requires
            old(player).body.wf(),
            platform.wf(),
        ensures
            final(player)@ == player_resolved(old(player)@, platform@.body),
            lands_on(old(player)@.body, platform@.body) ==> final(player).body.on_ground,
            lands_on(old(player)@.body, platform@.body) ==> final(player).body.position.y
                == platform.body.position.y - old(player).body.size.y,
            hits_from_below(old(player)@.body, platform@.body) ==> !final(player).body.on_ground,
            hits_from_below(old(player)@.body, platform@.body) ==> final(player).body.position.y
                == platform.body.position.y + platform.body.size.y,
            !old(player)@.body.overlaps(platform@.body) ==> *final(player) == *old(player),
    {
        let player_bounds = (
            player.position().x,
            player.position().y,
            player.position().x + player.size().x,
            player.position().y + player.size().y,
        );
        let platform_bounds = platform.get_bounds();
        if self.rectangles_overlap(player_bounds, platform_bounds) {
            self.resolve_collision(player, platform);
        }
    }

    /// Whether two boxes share an area. Boxes that only touch do not.
    fn rectangles_overlap(&self, rect1: Rect, rect2: Rect) -> (r: bool)
        ensures
            r == RectModel::of(rect1).overlaps(RectModel::of(rect2)),
    {
        let (x1, y1, x2, y2) = rect1;
        let (ox1, oy1, ox2, oy2) = rect2;
        x1 < ox2 && x2 > ox1 && y1 < oy2 && y2 > oy1
    }

    /// Pushes the player out of the platform along the axis of the smaller
    /// overlap, vertically on a tie.
    fn resolve_collision(&self, player: &mut Player, platform: &Platform)
        requires
            old(player).body.wf(),
            platform.wf(),
        ensures
            final(player)@ == (PlayerModel {
                body: pushed_out(old(player)@.body, platform@.body),
                current_jump_count: if !resolves_horizontally(
                    old(player)@.body.bounds(),
                    platform@.body.bounds(),
                ) && comes_from_above(old(player)@.body, platform@.body) {
                    0
                } else {
                    old(player)@.current_jump_count
                },
                ..old(player)@
            }),
    {
        let (px1, py1, px2, py2) = (
            player.position().x,
            player.position().y,
            player.position().x + player.size().x,
            player.position().y + player.size().y,
        );
        let (plx1, ply1, plx2, ply2) = platform.get_bounds();
        let overlap_x: i64 = if px2 - plx1 <= plx2 - px1 {
            px2 - plx1
        } else {
            plx2 - px1
        };
        let overlap_y: i64 = if py2 - ply1 <= ply2 - py1 {
            py2 - ply1
        } else {
            ply2 - py1
        };
        let mut position = player.position();
        let mut velocity = player.velocity();
        if overlap_x < overlap_y {
            if px1 < plx1 {
                position.x = plx1 - player.size().x;
            } else {
                position.x = plx2;
            }
            velocity.x = 0;
        } else {
            if velocity.y > 0 || py1 < ply1 {
                position.y = ply1 - player.size().y;
                velocity.y = 0;
                player.set_on_ground(true);
            } else {
                position.y = ply2;
                velocity.y = 0;
                player.set_on_ground(false);
            }
        }
        player.set_position(position);
        player.set_velocity(velocity);
    }

    /// Keeps the player right of the line `x = 0`: left of it, the player is
    /// put on the line and stops moving sideways. Nothing bounds it to the
    /// right, above or below.
    pub fn check_bounds(&self, player: &mut Player)
        ensures
            final(player)@ == old(player)@.with_body(kept_in_bounds(old(player)@.body)),
    {
        let mut position = player.position();
        let mut velocity = player.velocity();
        if position.x < 0 {
            position.x = 0;
            velocity.x = 0;
        }
        player.set_position(position);
        player.set_velocity(velocity);
    }
}

impl Default for Physics {
    fn default() -> (r: Physics)
        ensures
            r.gravity == GRAVITY,
            r.terminal_velocity == TERMINAL_VELOCITY,
    {
        Physics::new()
    }
}

/// Gravity leaves a body on the ground as it is.
pub proof fn lemma_gravity_spares_grounded(
    a: BodyModel,
    gravity: int,
    terminal_velocity: int,
    delta_time: int,
)
    requires
        a.on_ground,
    ensures
        fallen(a, gravity, terminal_velocity, delta_time) == a,
{
}

/// Gravity changes nothing of a body but its vertical velocity.
pub proof fn lemma_gravity_changes_only_fall(
    a: BodyModel,
    gravity: int,
    terminal_velocity: int,
    delta_time: int,
)
    ensures
        fallen(a, gravity, terminal_velocity, delta_time) == (BodyModel {
            velocity: Vec2Model {
                x: a.velocity.x,
                y: fallen(a, gravity, terminal_velocity, delta_time).velocity.y,
            },
            ..a
        }),
{
}

/// After gravity has acted any number of times, at least once, a body in the
/// air falls no faster than the terminal velocity; so does a body on the
/// ground that fell no faster before.
pub proof fn lemma_gravity_respects_terminal_velocity(
    a: BodyModel,
    gravity: int,
    terminal_velocity: int,
    frames: Seq<int>,
)
    requires
        frames.len() >= 1,
        !a.on_ground || a.velocity.y <= terminal_velocity,
    ensures
        fallen_repeatedly(a, gravity, terminal_velocity, frames).velocity.y <= terminal_velocity,
        fallen_repeatedly(a, gravity, terminal_velocity, frames).on_ground == a.on_ground,
    decreases frames.len(),
{
    lemma_gravity_keeps_ground(a, gravity, terminal_velocity, frames.drop_last());
    if frames.len() > 1 {
        lemma_gravity_respects_terminal_velocity(
            a,
            gravity,
            terminal_velocity,
            frames.drop_last(),
        );
    }
}

/// Gravity never changes whether a body is on the ground.
pub proof fn lemma_gravity_keeps_ground(
    a: BodyModel,
    gravity: int,
    terminal_velocity: int,
    frames: Seq<int>,
)
    ensures
        fallen_repeatedly(a, gravity, terminal_velocity, frames).on_ground == a.on_ground,
        a.on_ground ==> fallen_repeatedly(a, gravity, terminal_velocity, frames) == a,
    decreases frames.len(),
{
    if frames.len() > 0 {
        lemma_gravity_keeps_ground(a, gravity, terminal_velocity, frames.drop_last());
    }
}

/// No step of the integrator changes the extent or the mass of a body.
pub proof fn lemma_steps_keep_extent(
    a: BodyModel,
    p: BodyModel,
    gravity: int,
    terminal_velocity: int,
    delta_time: int,
)
    ensures
        fallen(a, gravity, terminal_velocity, delta_time).size == a.size,
        fallen(a, gravity, terminal_velocity, delta_time).mass == a.mass,
        integrated(a, delta_time).size == a.size,
        integrated(a, delta_time).mass == a.mass,
        resolved(a, p).size == a.size,
        resolved(a, p).mass == a.mass,
        kept_in_bounds(a).size == a.size,
        kept_in_bounds(a).mass == a.mass,
{
}

/// Moving a body changes nothing of it but its position.
pub proof fn lemma_motion_changes_only_position(a: BodyModel, delta_time: int)
    ensures
        integrated(a, delta_time) == a.moved_to(integrated(a, delta_time).position),
{
}

/// A body without velocity stays where it is, however long it moves.
pub proof fn lemma_rest_stays(a: BodyModel, delta_time: int)
    requires
        a.velocity.x == 0,
        a.velocity.y == 0,
    ensures
        integrated(a, delta_time) == a,
{
    lemma_mul_scaled_zero(delta_time);
}

/// A body that overlaps a platform, is not pushed sideways, and falls or has
/// its top above the platform's, lands: it is put on top of the platform and
/// stands on the ground.
pub proof fn lemma_landing(a: BodyModel, p: BodyModel)
    requires
        a.overlaps(p),
        overlap_y(a.bounds(), p.bounds()) <= overlap_x(a.bounds(), p.bounds()),
        a.velocity.y > 0 || a.bounds().top < p.bounds().top,
    ensures
        lands_on(a, p),
        resolved(a, p).position.y == p.bounds().top - a.size.y,
        resolved(a, p).position.x == a.position.x,
        resolved(a, p).velocity.y == 0,
        resolved(a, p).on_ground,
        resolved(a, p).bounds().bottom == p.bounds().top,
{
}

/// A body that overlaps a platform, is not pushed sideways, does not fall and
/// has its top not above the platform's, is put below the platform and is
/// then in the air, whether it stood on the ground before or not.
pub proof fn lemma_pushed_below(a: BodyModel, p: BodyModel)
    requires
        a.overlaps(p),
        overlap_y(a.bounds(), p.bounds()) <= overlap_x(a.bounds(), p.bounds()),
        a.velocity.y <= 0,
        a.bounds().top >= p.bounds().top,
    ensures
        hits_from_below(a, p),
        resolved(a, p).position.y == p.bounds().bottom,
        resolved(a, p).position.x == a.position.x,
        resolved(a, p).velocity.x == a.velocity.x,
        resolved(a, p).velocity.y == 0,
        !resolved(a, p).on_ground,
{
}

/// A body whose collision with a platform was resolved no longer overlaps the
/// platform.
pub proof fn lemma_resolved_is_clear(a: BodyModel, p: BodyModel)
    ensures
        !resolved(a, p).overlaps(p),
        resolved(resolved(a, p), p) == resolved(a, p),
{
}

} // verus!
