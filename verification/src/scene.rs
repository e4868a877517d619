//! Mutable scene state of the overlay and its per-frame updates: bounce
//! physics, hue advance, frame-timestamp history and live framerate.
//!
//! Positions, velocities and sizes are fixed-point thousandths of a unit;
//! timestamps are milliseconds; hue is in thousandths of a degree.

use vstd::prelude::*;

verus! {

/// Largest magnitude a position or size may have when a frame is stepped;
/// keeps every intermediate sum well inside `i64`.
pub const COORD_LIMIT: i64 = 1000000000000;

/// Largest magnitude a velocity may have when a frame is stepped.
pub const VEL_LIMIT: i64 = 1000000000;

/// How far back (in milliseconds) a frame timestamp may lie before it is
/// pruned from the history.
pub const HISTORY_WINDOW_MS: u64 = 1000;

/// Hue advance per frame, in thousandths of a degree.
pub const HUE_STEP: u32 = 3000;

pub open spec fn sorted_nondec(s: Seq<u64>) -> bool {
    forall|i: int, j: int| 0 <= i <= j < s.len() ==> s[i] <= s[j]
}

/// Oldest-first pruning: drop leading timestamps at least a second older
/// than `now`, and stop at the first recent one.
pub open spec fn prune_front(s: Seq<u64>, now: u64) -> Seq<u64>
    decreases s.len(),
{
    if s.len() == 0 {
        s
    } else if now - s[0] >= HISTORY_WINDOW_MS {
        prune_front(s.subrange(1, s.len() as int), now)
    } else {
        s
    }
}

/// Instantaneous framerate in thousandths of a frame per second: sample
/// count over the seconds between the oldest sample and `now`; zero when
/// fewer than two samples exist or no time has elapsed.
pub open spec fn fps_milli_spec(s: Seq<u64>, now: u64) -> int {
    if s.len() < 2 {
        0
    } else if now <= s[0] {
        0
    } else {
        (s.len() as int) * 1000000 / (now - s[0])
    }
}

/// The velocity after the bounce test: flipped when the leading edge
/// `pos + extent` would pass `limit` or the trailing edge `pos` is already
/// negative, kept otherwise.
pub open spec fn bounced_vel(pos: int, extent: int, limit: int, vel: int) -> int {
    if pos + extent > limit || pos < 0 { -vel } else { vel }
}

/// The animated scene: position and velocity of the bouncing text, the
/// current hue, and the timestamps of recent frames.
pub struct SceneState {
    pub pos_x: i64,
    pub pos_y: i64,
    pub vel_x: i64,
    pub vel_y: i64,
    pub hue: u32,
    pub timestamps: Vec<u64>,
}

impl SceneState {
    /// The hue stays below a full turn and the timestamp history stays in
    /// insertion order, oldest first.
    pub open spec fn wf(self) -> bool {
        &&& self.hue < crate::color::FULL_TURN
        &&& sorted_nondec(self.timestamps@)
    }

    /// Every recorded timestamp lies at or before `now`.
    pub open spec fn timestamps_at_or_before(self, now: u64) -> bool {
        forall|i: int| 0 <= i < self.timestamps@.len() ==> self.timestamps@[i] <= now
    }

    /// No recorded timestamp is a full second or more older than `now`.
    pub open spec fn timestamps_fresh(self, now: u64) -> bool {
        forall|i: int| 0 <= i < self.timestamps@.len() ==> now - self.timestamps@[i] < HISTORY_WINDOW_MS
    }

    /// The position, velocity and hue are small enough for one frame step.
    pub open spec fn step_in_range(self) -> bool {
        &&& -COORD_LIMIT <= self.pos_x <= COORD_LIMIT
        &&& -COORD_LIMIT <= self.pos_y <= COORD_LIMIT
        &&& -VEL_LIMIT <= self.vel_x <= VEL_LIMIT
        &&& -VEL_LIMIT <= self.vel_y <= VEL_LIMIT
    }

    pub fn new(pos_x: i64, pos_y: i64, vel_x: i64, vel_y: i64) -> (s: SceneState)
        ensures
            s.pos_x == pos_x,
            s.pos_y == pos_y,
            s.vel_x == vel_x,
            s.vel_y == vel_y,
            s.hue == 0,
            s.timestamps@ == Seq::<u64>::empty(),
            s.wf(),
    {
        SceneState { pos_x, pos_y, vel_x, vel_y, hue: 0, timestamps: Vec::new() }
    }

    /// Records the timestamp of the frame being drawn and prunes entries
    /// older than one second, oldest first.
    pub fn record_frame(&mut self, now_ms: u64)
        requires
            old(self).wf(),
            old(self).timestamps_at_or_before(now_ms),
        ensures
            final(self).timestamps@ == prune_front(
                old(self).timestamps@.push(now_ms),
                now_ms,
            ),
            final(self).timestamps@.len() >= 1,
            final(self).timestamps_at_or_before(now_ms),
            final(self).timestamps_fresh(now_ms),
            final(self).pos_x == old(self).pos_x,
            final(self).pos_y == old(self).pos_y,
            final(self).vel_x == old(self).vel_x,
            final(self).vel_y == old(self).vel_y,
            final(self).hue == old(self).hue,
            final(self).wf(),
    {
        self.timestamps.push(now_ms);
        let ghost pushed = self.timestamps@;
        loop
            invariant
                self.timestamps@.len() >= 1,
                sorted_nondec(self.timestamps@),
                forall|i: int| 0 <= i < self.timestamps@.len()
                    ==> self.timestamps@[i] <= now_ms,
                self.timestamps@[self.timestamps@.len() - 1] == now_ms,
                prune_front(self.timestamps@, now_ms) == prune_front(pushed, now_ms),
                self.pos_x == old(self).pos_x,
                self.pos_y == old(self).pos_y,
                self.vel_x == old(self).vel_x,
                self.vel_y == old(self).vel_y,
                self.hue == old(self).hue,
            ensures
                self.timestamps@ == prune_front(pushed, now_ms),
                forall|i: int| 0 <= i < self.timestamps@.len()
                    ==> now_ms - self.timestamps@[i] < HISTORY_WINDOW_MS,
            decreases self.timestamps@.len(),
        {
            let head: u64 = self.timestamps[0];
            if now_ms - head >= HISTORY_WINDOW_MS {
                proof {
                    assert(self.timestamps@.len() >= 2);
                }
                let ghost before = self.timestamps@;
                self.timestamps.remove(0);
                proof {
                    assert(self.timestamps@ =~= before.subrange(1, before.len() as int));
                }
            } else {
                proof {
                    assert(prune_front(self.timestamps@, now_ms) == self.timestamps@);
                }
                break;
            }
        }
    }

    /// The framerate over the recorded history: sample count divided by the
    /// seconds between the oldest sample and `now`, in thousandths; zero
    /// with fewer than two samples.
    pub fn fps_milli(&self, now_ms: u64) -> (fps: u128)
        requires
            self.timestamps_at_or_before(now_ms),
        ensures
            fps == fps_milli_spec(self.timestamps@, now_ms),
    {
        if self.timestamps.len() > 1 {
            let oldest: u64 = self.timestamps[0];
            let elapsed: u64 = now_ms - oldest;
            if elapsed > 0 {
                let count: u128 = self.timestamps.len() as u128;
                proof {
                    assert(count * 1000000 <= 0xffffffffffffffffu128 * 1000000);
                }
                count * 1000000u128 / (elapsed as u128)
            } else {
                0
            }
        } else {
            0
        }
    }

    /// One bounce-and-integrate step: each velocity component is negated
    /// when the text's leading edge would pass the framebuffer edge or its
    /// trailing edge is already negative, and the position then advances by
    /// one velocity step.
    pub fn step_physics(&mut self, text_w: i64, text_h: i64, win_w: i64, win_h: i64)
        requires
            old(self).step_in_range(),
            0 <= text_w <= COORD_LIMIT,
            0 <= text_h <= COORD_LIMIT,
            0 <= win_w <= COORD_LIMIT,
            0 <= win_h <= COORD_LIMIT,
        ensures
            final(self).vel_x == bounced_vel(
                old(self).pos_x as int,
                text_w as int,
                win_w as int,
                old(self).vel_x as int,
            ),
            final(self).vel_y == bounced_vel(
                old(self).pos_y as int,
                text_h as int,
                win_h as int,
                old(self).vel_y as int,
            ),
            final(self).pos_x == old(self).pos_x + final(self).vel_x,
            final(self).pos_y == old(self).pos_y + final(self).vel_y,
            final(self).hue == old(self).hue,
            final(self).timestamps == old(self).timestamps,
    {
        if self.pos_x + text_w > win_w || self.pos_x < 0 {
            self.vel_x = -self.vel_x;
        }
        if self.pos_y + text_h > win_h || self.pos_y < 0 {
            self.vel_y = -self.vel_y;
        }
        self.pos_x = self.pos_x + self.vel_x;
        self.pos_y = self.pos_y + self.vel_y;
    }

    /// Advances the hue by the per-frame step, wrapped at a full turn.
    pub fn advance_hue(&mut self)
        requires
            old(self).hue < crate::color::FULL_TURN,
        ensures
            final(self).hue == (old(self).hue + HUE_STEP) % (crate::color::FULL_TURN as int),
            final(self).pos_x == old(self).pos_x,
            final(self).pos_y == old(self).pos_y,
            final(self).vel_x == old(self).vel_x,
            final(self).vel_y == old(self).vel_y,
            final(self).timestamps == old(self).timestamps,
    {
        self.hue = (self.hue + HUE_STEP) % crate::color::FULL_TURN;
    }
}

/// The bounce law: a rightward-moving text whose right edge passes the
/// framebuffer edge has its velocity flipped to leftward; and if the
/// position that step produces is negative, the next step that tests the
/// left edge flips the velocity back to rightward.
pub proof fn lemma_bounce_turns_back(pos: int, extent: int, limit: int, vel: int)
    requires
        vel > 0,
        pos + extent > limit,
    ensures
        bounced_vel(pos, extent, limit, vel) < 0,
        ({
            let vel1 = bounced_vel(pos, extent, limit, vel);
            let pos1 = pos + vel1;
            pos1 < 0 ==> bounced_vel(pos1, extent, limit, vel1) > 0
        }),
{
}

} // verus!
