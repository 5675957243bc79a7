use vstd::prelude::*;

verus! {

/// The unit type, used where an event carries or returns nothing.
pub type Nothing = ();

/// A `bool` that reads as a successful outcome.
pub const SUCCESS: bool = true;

/// A `bool` that reads as a failed outcome.
pub const FAILURE: bool = false;

/// The outcome of something that may fail, carrying a value when it succeeds.
#[derive(Debug, Clone, Copy, PartialEq, Eq)]
pub enum Outcome<T> {
    Success(T),
    Failure,
}

impl<T> Outcome<T> {
    pub fn is_success(&self) -> (b: bool)
        ensures
            b == (*self is Success),
    {
        match self {
            Outcome::Success(_) => true,
            Outcome::Failure => false,
        }
    }

    pub fn is_failure(&self) -> (b: bool)
        ensures
            b == (*self is Failure),
    {
        match self {
            Outcome::Success(_) => false,
            Outcome::Failure => true,
        }
    }

    pub fn succeeded(&self) -> (b: bool)
        ensures
            b == (*self is Success),
    {
        self.is_success()
    }

    pub fn failed(&self) -> (b: bool)
        ensures
            b == (*self is Failure),
    {
        self.is_failure()
    }
}

impl Outcome<Nothing> {
    /// `Success` for `true`, `Failure` for `false`.
    pub fn from_bool(value: bool) -> (o: Outcome<Nothing>)
        ensures
            value ==> o == Outcome::<Nothing>::Success(()),
            !value ==> o is Failure,
    {
        if value {
            Outcome::Success(())
        } else {
            Outcome::Failure
        }
    }

    /// `true` for `Success`, `false` for `Failure`.
    pub fn to_bool(self) -> (b: bool)
        ensures
            b == (self is Success),
    {
        match self {
            Outcome::Success(_) => true,
            Outcome::Failure => false,
        }
    }

    /// The other outcome: `Failure` for `Success` and `Success` for `Failure`.
    pub fn opposite(self) -> (o: Outcome<Nothing>)
        ensures
            (self is Success) ==> (o is Failure),
            (self is Failure) ==> o == Outcome::<Nothing>::Success(()),
    {
        match self {
            Outcome::Success(_) => Outcome::Failure,
            Outcome::Failure => Outcome::Success(()),
        }
    }
}

/// A percentage. `Percent::new` admits 0 to 100; multipliers above 100% are written as
/// `Percent(n)` directly.
#[derive(Debug, Clone, Copy, PartialEq, Eq, PartialOrd, Ord, Hash)]
pub struct Percent(pub u16);

/// `x` scaled by `p` percent, rounded down and capped at `u16::MAX`.
pub open spec fn percent_of(p: u16, x: u16) -> int {
    let scaled = (x as int * p as int) / 100;
    if scaled > u16::MAX {
        u16::MAX as int
    } else {
        scaled
    }
}

impl Percent {
    /// A percentage between 0 and 100.
    pub fn new(value: u16) -> (p: Self)
        requires
            value <= 100,
        ensures
            p.0 == value,
    {
        Percent(value)
    }

    /// The sum of two percentages, capped at 100%.
    pub fn add(self, rhs: Percent) -> (p: Percent)
        ensures
            p.0 == if self.0 as int + rhs.0 as int > 100 { 100 } else { self.0 as int + rhs.0 as int },
    {
        let sum: u32 = self.0 as u32 + rhs.0 as u32;
        if sum > 100 {
            Percent(100)
        } else {
            Percent(sum as u16)
        }
    }

    /// The difference of two percentages, stopping at 0%.
    pub fn sub(self, rhs: Percent) -> (p: Percent)
        ensures
            p.0 == if self.0 >= rhs.0 { self.0 - rhs.0 } else { 0 },
    {
        Percent(self.0.saturating_sub(rhs.0))
    }

    /// `x` scaled by this percentage, rounded down and capped at `u16::MAX`.
    pub fn of(self, x: u16) -> (r: u16)
        ensures
            r == percent_of(self.0, x),
    {
        proof {
            assert(0 <= x as int * self.0 as int <= 65535 * 65535) by (nonlinear_arith)
                requires
                    x <= 65535,
                    self.0 <= 65535,
            ;
        }
        let scaled: u32 = (x as u32) * (self.0 as u32) / 100;
        if scaled > 65535 {
            65535
        } else {
            scaled as u16
        }
    }
}

/// A percentage clamped to 0 to 100.
#[derive(Debug, Clone, Copy, PartialEq, Eq)]
pub struct ClampedPercent(pub u16);

impl ClampedPercent {
    /// The percentage `value`, clamped to at most 100%.
    pub fn from_u16(value: u16) -> (p: Self)
        ensures
            p.0 == if value > 100 { 100 } else { value },
    {
        if value > 100 {
            ClampedPercent(100)
        } else {
            ClampedPercent(value)
        }
    }

    /// `x` scaled by this percentage, rounded down.
    pub fn of(self, x: u16) -> (r: u16)
        requires
            self.0 <= 100,
        ensures
            r == percent_of(self.0, x),
    {
        Percent(self.0).of(x)
    }
}

/// A number of turns or hits: either fixed, or drawn from an inclusive range.
#[derive(Debug, Clone, Copy, PartialEq, Eq)]
pub enum Count {
    Fixed(u8),
    RandomInRange { min: u8, max: u8 },
}


/// Scaling by a percentage rounds down: the result is the largest number whose hundredfold is at
/// most `x` times `p`, unless that exceeds `u16::MAX`, where it stops; 100% keeps `x`, and 0%
/// gives 0.
pub proof fn law_percent_of_rounds_down(p: u16, x: u16)
    ensures
        percent_of(p, x) <= u16::MAX,
        percent_of(p, x) < u16::MAX ==> percent_of(p, x) * 100 <= (x as int) * (p as int) < (percent_of(p, x) + 1) * 100,
        percent_of(100, x) == x,
        percent_of(0, x) == 0,
{
    let product = x as int * p as int;
    assert(0 <= product) by (nonlinear_arith)
        requires
            product == x as int * p as int,
            x >= 0,
            p >= 0,
    ;
    assert((x as int * 100) / 100 == x);
    assert((product / 100) * 100 <= product < (product / 100 + 1) * 100);
}

} // verus!
