use vstd::prelude::*;
use vstd::arithmetic::power2::{pow2, lemma2_to64};
use crate::trail::{Trail, trail_push_spec};

verus! {

/// The time scale is `2^exponent`; these bound the exponent, so the scale
/// stays between 1/8 and 64.
pub const MIN_SCALE_EXP: i8 = -3;
pub const MAX_SCALE_EXP: i8 = 6;

/// Numerator of the time scale `2^e` written as a fraction.
pub open spec fn scale_num(e: int) -> nat {
    if e >= 0 { pow2(e as nat) } else { 1 }
}

/// Denominator of the time scale `2^e` written as a fraction.
pub open spec fn scale_den(e: int) -> nat {
    if e >= 0 { 1 } else { pow2((-e) as nat) }
}

/// Exponent after doubling the time scale, capped at 64.
pub open spec fn speed_up_spec(e: int) -> int {
    if e + 1 > MAX_SCALE_EXP { MAX_SCALE_EXP as int } else { e + 1 }
}

/// Exponent after halving the time scale, floored at 1/8.
pub open spec fn slow_down_spec(e: int) -> int {
    if e - 1 < MIN_SCALE_EXP { MIN_SCALE_EXP as int } else { e - 1 }
}

/// Integration substeps per tick for the time scale `2^e`: 16 above a scale
/// of 16, 8 above a scale of 4, else 4.
pub open spec fn substeps_spec(e: int) -> nat {
    if scale_num(e) > 16 * scale_den(e) {
        16
    } else if scale_num(e) > 4 * scale_den(e) {
        8
    } else {
        4
    }
}

/// A request from the user to the clock.
#[derive(Clone, Copy, Debug, PartialEq, Eq)]
pub enum Command {
    TogglePause,
    SpeedUp,
    SlowDown,
}

/// The state `(paused, exponent)` after `cmd`.
pub open spec fn apply_spec(paused: bool, e: int, cmd: Command) -> (bool, int) {
    match cmd {
        Command::TogglePause => (!paused, e),
        Command::SpeedUp => (paused, speed_up_spec(e)),
        Command::SlowDown => (paused, slow_down_spec(e)),
    }
}

/// Whether the simulation is paused and how fast it runs.
pub struct TimeControl {
    paused: bool,
    scale_exp: i8,
}

impl TimeControl {
    #[verifier::type_invariant]
    spec fn exp_in_range(self) -> bool {
        MIN_SCALE_EXP <= self.scale_exp <= MAX_SCALE_EXP
    }

    /// Whether ticks are currently skipped.
    pub closed spec fn is_paused(self) -> bool {
        self.paused
    }

    /// The time scale is `2^exponent()`.
    pub closed spec fn exponent(self) -> int {
        self.scale_exp as int
    }

    /// Running, at a time scale of 1.
    pub fn new() -> (c: Self)
        ensures
            !c.is_paused(),
            c.exponent() == 0,
    {
        TimeControl { paused: false, scale_exp: 0 }
    }

    pub fn paused(&self) -> (b: bool)
        ensures
            b == self.is_paused(),
    {
        self.paused
    }

    pub fn scale_exp(&self) -> (e: i8)
        ensures
            e == self.exponent(),
            MIN_SCALE_EXP <= e <= MAX_SCALE_EXP,
    {
        proof {
            use_type_invariant(self);
        }
        self.scale_exp
    }

    /// Pauses a running simulation, resumes a paused one.
    pub fn toggle_pause(&mut self)
        ensures
            final(self).is_paused() == !old(self).is_paused(),
            final(self).exponent() == old(self).exponent(),
    {
        proof {
            use_type_invariant(&*self);
        }
        self.paused = !self.paused;
    }

    /// Doubles the time scale, up to 64.
    pub fn speed_up(&mut self)
        ensures
            final(self).is_paused() == old(self).is_paused(),
            final(self).exponent() == speed_up_spec(old(self).exponent()),
            MIN_SCALE_EXP <= final(self).exponent() <= MAX_SCALE_EXP,
    {
        proof {
            use_type_invariant(&*self);
        }
        if self.scale_exp < MAX_SCALE_EXP {
            self.scale_exp = self.scale_exp + 1;
        }
    }

    /// Halves the time scale, down to 1/8.
    pub fn slow_down(&mut self)
        ensures
            final(self).is_paused() == old(self).is_paused(),
            final(self).exponent() == slow_down_spec(old(self).exponent()),
            MIN_SCALE_EXP <= final(self).exponent() <= MAX_SCALE_EXP,
    {
        proof {
            use_type_invariant(&*self);
        }
        if self.scale_exp > MIN_SCALE_EXP {
            self.scale_exp = self.scale_exp - 1;
        }
    }

    /// Carries out one user command.
    pub fn apply(&mut self, cmd: Command)
        ensures
            (final(self).is_paused(), final(self).exponent()) == apply_spec(
                old(self).is_paused(),
                old(self).exponent(),
                cmd,
            ),
            MIN_SCALE_EXP <= final(self).exponent() <= MAX_SCALE_EXP,
    {
        proof {
            use_type_invariant(&*self);
        }
        match cmd {
            Command::TogglePause => self.toggle_pause(),
            Command::SpeedUp => self.speed_up(),
            Command::SlowDown => self.slow_down(),
        }
    }

    /// The time scale as an exact fraction `(numerator, denominator)`.
    pub fn scale_ratio(&self) -> (r: (u32, u32))
        ensures
            r.0 == scale_num(self.exponent()),
            r.1 == scale_den(self.exponent()),
    {
        proof {
            use_type_invariant(self);
            lemma2_to64();
        }
        match self.scale_exp {
            -3 => (1, 8),
            -2 => (1, 4),
            -1 => (1, 2),
            0 => (1, 1),
            1 => (2, 1),
            2 => (4, 1),
            3 => (8, 1),
            4 => (16, 1),
            5 => (32, 1),
            _ => (64, 1),
        }
    }

    /// Integration substeps per tick at the current time scale.
    pub fn substeps(&self) -> (n: u32)
        ensures
            n == substeps_spec(self.exponent()),
    {
        proof {
            use_type_invariant(self);
            lemma2_to64();
        }
        if self.scale_exp > 4 {
            16
        } else if self.scale_exp > 2 {
            8
        } else {
            4
        }
    }

    /// How one tick advances the simulation: `None` while paused (the tick
    /// changes nothing), else the number of integration substeps.
    pub fn tick_substeps(&self) -> (r: Option<u32>)
        ensures
            r == (if self.is_paused() {
                None
            } else {
                Some(substeps_spec(self.exponent()) as u32)
            }),
    {
        if self.paused {
            None
        } else {
            Some(self.substeps())
        }
    }
}

/// Doubling and then halving the time scale gives back the scale one started
/// with, unless the doubling was capped at 64.
pub proof fn lemma_slow_down_undoes_speed_up(e: int)
    requires
        MIN_SCALE_EXP <= e < MAX_SCALE_EXP,
    ensures
        slow_down_spec(speed_up_spec(e)) == e,
{
}

/// Halving and then doubling the time scale gives back the scale one started
/// with, unless the halving was floored at 1/8.
pub proof fn lemma_speed_up_undoes_slow_down(e: int)
    requires
        MIN_SCALE_EXP < e <= MAX_SCALE_EXP,
    ensures
        speed_up_spec(slow_down_spec(e)) == e,
{
}

/// Below the cap, speeding up doubles the time scale exactly (the numerator
/// doubles or the denominator halves); above the floor, slowing down halves it
/// exactly; at the cap and at the floor the scale stays as it is.
pub proof fn lemma_scale_steps_by_two(e: int)
    requires
        MIN_SCALE_EXP <= e <= MAX_SCALE_EXP,
    ensures
        0 <= e < MAX_SCALE_EXP ==> scale_num(speed_up_spec(e)) == 2 * scale_num(e) && scale_den(
            speed_up_spec(e),
        ) == scale_den(e),
        e < 0 ==> scale_num(speed_up_spec(e)) == scale_num(e) && 2 * scale_den(speed_up_spec(e))
            == scale_den(e),
        e == MAX_SCALE_EXP ==> speed_up_spec(e) == e,
        0 < e ==> 2 * scale_num(slow_down_spec(e)) == scale_num(e) && scale_den(slow_down_spec(e))
            == scale_den(e),
        MIN_SCALE_EXP < e <= 0 ==> scale_num(slow_down_spec(e)) == scale_num(e) && scale_den(
            slow_down_spec(e),
        ) == 2 * scale_den(e),
        e == MIN_SCALE_EXP ==> slow_down_spec(e) == e,
{
    lemma2_to64();
}

/// Every reachable time scale lies between 1/8 and 64.
pub proof fn lemma_scale_bounds(e: int)
    requires
        MIN_SCALE_EXP <= e <= MAX_SCALE_EXP,
    ensures
        scale_den(e) >= 1,
        8 * scale_num(e) >= scale_den(e),
        scale_num(e) <= 64 * scale_den(e),
{
    lemma2_to64();
}

/// The number of substeps is 4, 8 or 16 and never decreases as the time
/// scale grows.
pub proof fn lemma_substeps_monotone(e1: int, e2: int)
    requires
        MIN_SCALE_EXP <= e1 <= e2 <= MAX_SCALE_EXP,
    ensures
        substeps_spec(e1) <= substeps_spec(e2),
        substeps_spec(e1) == 4 || substeps_spec(e1) == 8 || substeps_spec(e1) == 16,
{
    lemma2_to64();
}

/// Pausing twice leaves the clock as it was; pausing never changes the time scale.
pub proof fn lemma_toggle_pause_twice(paused: bool, e: int)
    ensures
        apply_spec(paused, e, Command::TogglePause).1 == e,
        apply_spec(
            apply_spec(paused, e, Command::TogglePause).0,
            apply_spec(paused, e, Command::TogglePause).1,
            Command::TogglePause,
        ) == (paused, e),
{
}

/// Whatever commands arrive, the exponent stays within its bounds.
pub proof fn lemma_commands_keep_scale_in_range(paused: bool, e: int, cmd: Command)
    requires
        MIN_SCALE_EXP <= e <= MAX_SCALE_EXP,
    ensures
        MIN_SCALE_EXP <= apply_spec(paused, e, cmd).1 <= MAX_SCALE_EXP,
{
}

/// The pause command flips the paused flag at every time scale and never
/// changes the time scale.
pub proof fn lemma_toggle_pause_command(p: bool, e: int)
    requires
        MIN_SCALE_EXP <= e <= MAX_SCALE_EXP,
    ensures
        apply_spec(p, e, Command::TogglePause).0 == !p,
        apply_spec(p, e, Command::TogglePause).1 == e,
{
}

/// The speed-up command keeps the paused flag and raises the exponent by one
/// from every exponent below 6 (doubling the time scale, in slow motion as
/// well as above scale 1), and leaves it at 6.
pub proof fn lemma_speed_up_command(p: bool, e: int)
    requires
        MIN_SCALE_EXP <= e <= MAX_SCALE_EXP,
    ensures
        apply_spec(p, e, Command::SpeedUp).0 == p,
        e < 6 ==> apply_spec(p, e, Command::SpeedUp).1 == e + 1,
        e == 6 ==> apply_spec(p, e, Command::SpeedUp).1 == 6,
        0 <= e < 6 ==> scale_num(apply_spec(p, e, Command::SpeedUp).1) == 2 * scale_num(e)
            && scale_den(apply_spec(p, e, Command::SpeedUp).1) == 1 == scale_den(e),
        e < 0 ==> scale_num(apply_spec(p, e, Command::SpeedUp).1) == 1 == scale_num(e) && 2
            * scale_den(apply_spec(p, e, Command::SpeedUp).1) == scale_den(e),
{
    lemma2_to64();
}

/// The slow-down command keeps the paused flag and lowers the exponent by one
/// from every exponent above -3 (halving the time scale, above scale 1 as
/// well as below it), and leaves it at -3.
pub proof fn lemma_slow_down_command(p: bool, e: int)
    requires
        MIN_SCALE_EXP <= e <= MAX_SCALE_EXP,
    ensures
        apply_spec(p, e, Command::SlowDown).0 == p,
        e > -3 ==> apply_spec(p, e, Command::SlowDown).1 == e - 1,
        e == -3 ==> apply_spec(p, e, Command::SlowDown).1 == -3,
        0 < e ==> 2 * scale_num(apply_spec(p, e, Command::SlowDown).1) == scale_num(e)
            && scale_den(apply_spec(p, e, Command::SlowDown).1) == 1 == scale_den(e),
        -3 < e <= 0 ==> scale_num(apply_spec(p, e, Command::SlowDown).1) == 1 == scale_num(e)
            && scale_den(apply_spec(p, e, Command::SlowDown).1) == 2 * scale_den(e),
{
    lemma2_to64();
}

/// The time scale `2^e` as a fraction: the numerator is 1 at exponent 0 and
/// doubles with each step up from there, the denominator is 1 from exponent 0
/// upwards and doubles with each step down.
pub proof fn lemma_scale_fraction(e: int)
    requires
        MIN_SCALE_EXP <= e <= MAX_SCALE_EXP,
    ensures
        scale_num(0) == 1 && scale_den(0) == 1,
        e >= 0 ==> scale_den(e) == 1,
        e <= 0 ==> scale_num(e) == 1,
        0 <= e < 6 ==> scale_num(e + 1) == 2 * scale_num(e),
        -3 < e <= 0 ==> scale_den(e - 1) == 2 * scale_den(e),
{
    lemma2_to64();
}

/// Substeps by exponent: 16 at scales 32 and 64, 8 at scales 8 and 16, 4 at
/// every scale up to 4.
pub proof fn lemma_substeps_by_exponent(e: int)
    requires
        MIN_SCALE_EXP <= e <= MAX_SCALE_EXP,
    ensures
        e >= 5 ==> substeps_spec(e) == 16,
        3 <= e <= 4 ==> substeps_spec(e) == 8,
        e <= 2 ==> substeps_spec(e) == 4,
{
    lemma2_to64();
}

/// Doubling the scale raises the exponent by one, except at 6 where it
/// stays; halving lowers it by one, except at -3 where it stays.
pub proof fn lemma_speed_and_slow_steps(e: int)
    requires
        MIN_SCALE_EXP <= e <= MAX_SCALE_EXP,
    ensures
        speed_up_spec(e) == (if e < 6 { e + 1 } else { 6 }),
        slow_down_spec(e) == (if e > -3 { e - 1 } else { -3 }),
{
}

/// Records the positions of one tick: body `i` (for every `i >= 1`) adds
/// `positions[i]` to `trails[i]`; body 0, the central black hole, leaves no
/// trail, and trails without a body are left alone.
pub fn record_trails<T: Copy>(trails: &mut Vec<Trail<T>>, positions: &Vec<T>)
    requires
        positions.len() <= old(trails).len(),
    ensures
        final(trails).len() == old(trails).len(),
        forall|i: int|
            0 <= i < final(trails).len() ==> #[trigger] final(trails)[i]@ == if 1 <= i
                < positions.len() {
                trail_push_spec(old(trails)[i]@, positions[i])
            } else {
                old(trails)[i]@
            },
{
    let n = positions.len();
    let mut i: usize = 1;
    while i < n
        invariant
            n == positions.len(),
            n <= old(trails).len(),
            1 <= i,
            trails.len() == old(trails).len(),
            forall|j: int|
                0 <= j < trails.len() ==> #[trigger] trails[j]@ == if 1 <= j < i && j < n {
                    trail_push_spec(old(trails)[j]@, positions[j])
                } else {
                    old(trails)[j]@
                },
        decreases n - i,
    {
        trails[i].push(positions[i]);
        i = i + 1;
    }
}

} // verus!
