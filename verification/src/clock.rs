//! In-table campaign time: game days and hours.
use vstd::prelude::*;

verus! {

/// Campaign clock. Each completed travel resolution advances it by two game hours.
#[derive(Debug, Clone, Copy, PartialEq, Eq, Structural)]
pub struct GameClock {
    pub game_day: u32,
    pub game_hour: u8,
    pub play_started_unix: Option<i64>,
}

/// Day and hour after `hours` more hours: the hour wraps at 24 and the overflow
/// moves into the day.
pub open spec fn clock_after(day: u32, hour: u8, hours: nat) -> (u32, u8) {
    (((day + (hour + hours) / 24) as u32), (((hour + hours) % 24) as u8))
}

/// Whether advancing by `hours` keeps the day within `u32`.
pub open spec fn clock_can_advance(day: u32, hour: u8, hours: nat) -> bool {
    day + (hour + hours) / 24 <= u32::MAX
}

impl GameClock {
    /// Day one, midnight, play not started.
    pub fn start() -> (c: GameClock)
        ensures
            c.game_day == 1,
            c.game_hour == 0,
            c.play_started_unix is None,
    {
        GameClock { game_day: 1, game_hour: 0, play_started_unix: None }
    }

    pub fn advance_hours(&mut self, hours: u8)
        requires
            clock_can_advance(old(self).game_day, old(self).game_hour, hours as nat),
        ensures
            (final(self).game_day, final(self).game_hour) == clock_after(
                old(self).game_day,
                old(self).game_hour,
                hours as nat,
            ),
            final(self).play_started_unix == old(self).play_started_unix,
    {
        let total: u32 = self.game_hour as u32 + hours as u32;
        self.game_day = self.game_day + total / 24;
        self.game_hour = (total % 24) as u8;
    }

    pub fn advance_after_travel_resolution(&mut self)
        requires
            clock_can_advance(old(self).game_day, old(self).game_hour, 2),
        ensures
            (final(self).game_day, final(self).game_hour) == clock_after(
                old(self).game_day,
                old(self).game_hour,
                2,
            ),
            final(self).play_started_unix == old(self).play_started_unix,
    {
        self.advance_hours(2);
    }
}

impl Default for GameClock {
    fn default() -> (c: GameClock)
        ensures
            c.game_day == 1,
            c.game_hour == 0,
            c.play_started_unix is None,
    {
        GameClock::start()
    }
}

/// Advancing the clock by `a` hours and then by `b` hours lands where advancing by
/// `a + b` hours does, as long as the hour starts on the dial.
pub proof fn lemma_clock_advance_composes(day: u32, hour: u8, a: nat, b: nat)
    requires
        hour < 24,
        clock_can_advance(day, hour, a + b),
    ensures
        clock_can_advance(day, hour, a),
        clock_can_advance(clock_after(day, hour, a).0, clock_after(day, hour, a).1, b),
        clock_after(clock_after(day, hour, a).0, clock_after(day, hour, a).1, b) == clock_after(
            day,
            hour,
            a + b,
        ),
        clock_after(day, hour, a).1 < 24,
{
    let x = hour + a;
    assert((hour + a) / 24 <= (hour + a + b) / 24) by (nonlinear_arith)
        requires
            hour >= 0,
            b >= 0,
    ;
    let h1 = (x % 24) as int;
    assert(x == 24 * (x / 24) + h1) by (nonlinear_arith)
        requires
            x >= 0,
            h1 == x % 24,
    ;
    assert((h1 + b) / 24 + x / 24 == (x + b) / 24 && (h1 + b) % 24 == (x + b) % 24)
        by (nonlinear_arith)
        requires
            x >= 0,
            b >= 0,
            h1 == x % 24,
            x == 24 * (x / 24) + h1,
    ;
}

} // verus!
