//! Colour components: one channel of a colour, held either as a discrete
//! byte or as a fraction of the full range.
//!
//! A fraction is kept in fixed point, as a count of 1/65535 parts, so that
//! every byte `v` has the exact fraction `v * 257` and the two
//! representations convert into each other without loss on the byte side.

use vstd::prelude::*;

verus! {

/// Number of fraction parts that make one step of a discrete component.
pub const PARTS_PER_STEP: u16 = 257;

/// The largest fraction: all parts of the range.
pub const FULL_PARTS: u16 = 65535;

/// A channel as a fraction of the full range, in 1/65535 parts.
#[derive(Clone, Copy, Debug, PartialEq, Eq, Structural, Default)]
pub struct FloatingComponent(pub u16);

/// A channel as a discrete byte.
#[derive(Clone, Copy, Debug, PartialEq, Eq, Structural, Default)]
pub struct IntegerComponent(pub u8);

/// Midpoint of `low..high` on a line; `low` where the interval is empty.
pub open spec fn median_of(low: int, high: int) -> int {
    if high >= low {
        low + (high - low) / 2
    } else {
        low
    }
}

/// Midpoint of the interval that starts at `low` and runs upwards to
/// `high`, passing over the top of the range of `top` levels where `high`
/// is below `low`.
pub open spec fn median_circular_of(low: int, high: int, top: int) -> int {
    if high >= low {
        median_of(low, high)
    } else {
        let lifted = low + (high + top - low) / 2;
        if lifted > top {
            lifted - top
        } else {
            lifted
        }
    }
}

/// The level of `low..=high` nearest to `level`. Where the bounds are
/// reversed, `low` for a level below it and `high` for any other.
pub open spec fn clamp_of(level: int, low: int, high: int) -> int {
    if level < low {
        low
    } else if level > high {
        high
    } else {
        level
    }
}

/// Whether `level` lies in the interval from `low` upwards to `high`, which
/// passes over the top of the range where `high` is below `low`. An
/// interval of equal bounds is the one level that both bounds are.
pub open spec fn within_circular(level: int, low: int, high: int) -> bool {
    if high >= low {
        low <= level <= high
    } else {
        level >= low || level <= high
    }
}

/// The level of the circular interval nearest to `level`; between two
/// bounds equally far, the upper bound `high`.
pub open spec fn clamp_circular_of(level: int, low: int, high: int) -> int {
    if high >= low {
        clamp_of(level, low, high)
    } else if level >= low || level <= high {
        level
    } else if level - high <= low - level {
        high
    } else {
        low
    }
}

/// The interval `range` widened, at the nearer end, to hold `level`.
pub open spec fn extend_of(level: int, range: (int, int)) -> (int, int) {
    if level < range.0 {
        (level, range.1)
    } else if level > range.1 {
        (range.0, level)
    } else {
        range
    }
}

/// Steps upwards from `from` to `to` on a circle of `top` levels.
pub open spec fn steps_up(from: int, to: int, top: int) -> int {
    if to >= from {
        to - from
    } else {
        to + top - from
    }
}

/// The circular interval `range` widened to hold `level` by moving the end
/// that has the shorter way to go; the upper end where both are equally far.
pub open spec fn extend_circular_of(level: int, range: (int, int), top: int) -> (int, int) {
    if within_circular(level, range.0, range.1) {
        range
    } else if steps_up(range.1, level, top) <= steps_up(level, range.0, top) {
        (range.0, level)
    } else {
        (level, range.1)
    }
}

/// The discrete byte nearest to a fraction of `parts`.
pub open spec fn discrete_of_parts(parts: int) -> int {
    (parts + 128) / 257
}

/// A colour channel in one of its two representations.
///
/// `level` is the stored number, between 0 and `top`; `parts` is the same
/// value as a fraction, in 1/65535 parts.
pub trait Component: Sized + Copy {
    /// The stored number.
    spec fn level(self) -> int;

    /// The highest level of this representation.
    spec fn top() -> int;

    /// The value as a fraction of the full range, in 1/65535 parts.
    spec fn parts(self) -> int;

    /// The component of this representation nearest to a fraction.
    spec fn of_parts(parts: int) -> Self;

    /// The component with the given level.
    spec fn of_level(level: int) -> Self;

    /// Levels stay in the range and the spec constructors invert the views.
    proof fn lemma_range(self)
        ensures
            0 <= self.level() <= Self::top(),
            0 <= self.parts() <= 65535,
            Self::top() == 255 || Self::top() == 65535,
            Self::of_level(self.level()) == self,
    ;

    fn from_u8(value: u8) -> (component: Self)
        ensures
            component == Self::of_parts(value as int * 257),
    ;

    fn from_floating_component(floating: FloatingComponent) -> (component: Self)
        ensures
            component == Self::of_parts(floating.0 as int),
    ;

    fn from_integer_component(integer: IntegerComponent) -> (component: Self)
        ensures
            component == Self::of_parts(integer.0 as int * 257),
    ;

    fn to_floating_component(self) -> (floating: FloatingComponent)
        ensures
            floating.0 as int == self.parts(),
    ;

    fn to_integer_component(self) -> (integer: IntegerComponent)
        ensures
            integer.0 as int == discrete_of_parts(self.parts()),
    ;

    fn median(min: Self, max: Self) -> (median: Self)
        ensures
            median == Self::of_level(median_of(min.level(), max.level())),
    ;

    fn median_circular(min: Self, max: Self) -> (median: Self)
        ensures
            median == Self::of_level(median_circular_of(min.level(), max.level(), Self::top())),
    ;

    fn clamp(self, min: Self, max: Self) -> (clamped: Self)
        ensures
            clamped == Self::of_level(clamp_of(self.level(), min.level(), max.level())),
    ;

    fn clamp_circular(self, min: Self, max: Self) -> (clamped: Self)
        ensures
            clamped == Self::of_level(clamp_circular_of(self.level(), min.level(), max.level())),
    ;

    fn extend(self, range: (Self, Self)) -> (extended: (Self, Self))
        ensures
            (extended.0.level(), extended.1.level()) == extend_of(
                self.level(),
                (range.0.level(), range.1.level()),
            ),
            extended.0 == self || extended.0 == range.0,
            extended.1 == self || extended.1 == range.1,
    ;

    fn extend_circular(self, range: (Self, Self)) -> (extended: (Self, Self))
        ensures
            (extended.0.level(), extended.1.level()) == extend_circular_of(
                self.level(),
                (range.0.level(), range.1.level()),
                Self::top(),
            ),
            extended.0 == self || extended.0 == range.0,
            extended.1 == self || extended.1 == range.1,
    ;

    fn min_component() -> (min: Self)
        ensures
            min == Self::of_level(0),
    ;

    fn max_component() -> (max: Self)
        ensures
            max == Self::of_level(Self::top()),
    ;

    /// The sum, held at the top of the range.
    fn saturating_add(self, other: Self) -> (sum: Self)
        ensures
            sum == Self::of_level(
                if self.level() + other.level() > Self::top() {
                    Self::top()
                } else {
                    self.level() + other.level()
                },
            ),
    ;

    /// The difference, held at the bottom of the range.
    fn saturating_sub(self, other: Self) -> (difference: Self)
        ensures
            difference == Self::of_level(
                if self.level() < other.level() {
                    0
                } else {
                    self.level() - other.level()
                },
            ),
    ;
}


impl Component for FloatingComponent {
    open spec fn level(self) -> int {
        self.0 as int
    }

    open spec fn top() -> int {
        65535
    }

    open spec fn parts(self) -> int {
        self.0 as int
    }

    open spec fn of_parts(parts: int) -> Self {
        FloatingComponent((parts) as u16)
    }

    open spec fn of_level(level: int) -> Self {
        FloatingComponent(level as u16)
    }

    proof fn lemma_range(self) {
    }

    fn from_u8(value: u8) -> (component: Self) {
        FloatingComponent(value as u16 * PARTS_PER_STEP)
    }

    fn from_floating_component(floating: FloatingComponent) -> (component: Self) {
        floating
    }

    fn from_integer_component(integer: IntegerComponent) -> (component: Self) {
        FloatingComponent(integer.0 as u16 * PARTS_PER_STEP)
    }

    fn to_floating_component(self) -> (floating: FloatingComponent) {
        self
    }

    fn to_integer_component(self) -> (integer: IntegerComponent) {
        IntegerComponent(((self.0 as u32 + 128) / 257) as u8)
    }

    fn median(min: Self, max: Self) -> (median: Self) {
        if max.0 >= min.0 {
            FloatingComponent(min.0 + (max.0 - min.0) / 2)
        } else {
            min
        }
    }

    fn median_circular(min: Self, max: Self) -> (median: Self) {
        if max.0 >= min.0 {
            Self::median(min, max)
        } else {
            let low: u32 = min.0 as u32;
            let high: u32 = max.0 as u32 + 65535;
            let lifted: u32 = low + (high - low) / 2;
            if lifted > 65535 {
                FloatingComponent((lifted - 65535) as u16)
            } else {
                FloatingComponent(lifted as u16)
            }
        }
    }

    fn clamp(self, min: Self, max: Self) -> (clamped: Self) {
        if self.0 < min.0 {
            min
        } else if self.0 > max.0 {
            max
        } else {
            self
        }
    }

    fn clamp_circular(self, min: Self, max: Self) -> (clamped: Self) {
        if max.0 >= min.0 {
            self.clamp(min, max)
        } else if self.0 >= min.0 || self.0 <= max.0 {
            self
        } else if self.0 - max.0 <= min.0 - self.0 {
            max
        } else {
            min
        }
    }

    fn extend(self, range: (Self, Self)) -> (extended: (Self, Self)) {
        if self.0 < range.0.0 {
            (self, range.1)
        } else if self.0 > range.1.0 {
            (range.0, self)
        } else {
            range
        }
    }

    fn extend_circular(self, range: (Self, Self)) -> (extended: (Self, Self)) {
        let low: u32 = range.0.0 as u32;
        let high: u32 = range.1.0 as u32;
        let level: u32 = self.0 as u32;
        let within: bool = if high >= low {
            low <= level && level <= high
        } else {
            level >= low || level <= high
        };
        if within {
            range
        } else {
            let upwards: u32 = if level >= high {
                level - high
            } else {
                level + 65535 - high
            };
            let downwards: u32 = if low >= level {
                low - level
            } else {
                low + 65535 - level
            };
            if upwards <= downwards {
                (range.0, self)
            } else {
                (self, range.1)
            }
        }
    }

    fn min_component() -> (min: Self) {
        FloatingComponent(0)
    }

    fn max_component() -> (max: Self) {
        FloatingComponent(65535)
    }

    fn saturating_add(self, other: Self) -> (sum: Self) {
        if self.0 > 65535 - other.0 {
            FloatingComponent(65535)
        } else {
            FloatingComponent(self.0 + other.0)
        }
    }

    fn saturating_sub(self, other: Self) -> (difference: Self) {
        if self.0 < other.0 {
            FloatingComponent(0)
        } else {
            FloatingComponent(self.0 - other.0)
        }
    }
}

impl Component for IntegerComponent {
    open spec fn level(self) -> int {
        self.0 as int
    }

    open spec fn top() -> int {
        255
    }

    open spec fn parts(self) -> int {
        self.0 as int * 257
    }

    open spec fn of_parts(parts: int) -> Self {
        IntegerComponent((discrete_of_parts(parts)) as u8)
    }

    open spec fn of_level(level: int) -> Self {
        IntegerComponent(level as u8)
    }

    proof fn lemma_range(self) {
    }

    fn from_u8(value: u8) -> (component: Self) {
        IntegerComponent(value)
    }

    fn from_floating_component(floating: FloatingComponent) -> (component: Self) {
        IntegerComponent(((floating.0 as u32 + 128) / 257) as u8)
    }

    fn from_integer_component(integer: IntegerComponent) -> (component: Self) {
        integer
    }

    fn to_floating_component(self) -> (floating: FloatingComponent) {
        FloatingComponent(self.0 as u16 * PARTS_PER_STEP)
    }

    fn to_integer_component(self) -> (integer: IntegerComponent) {
        self
    }

    fn median(min: Self, max: Self) -> (median: Self) {
        if max.0 >= min.0 {
            IntegerComponent(min.0 + (max.0 - min.0) / 2)
        } else {
            min
        }
    }

    fn median_circular(min: Self, max: Self) -> (median: Self) {
        if max.0 >= min.0 {
            Self::median(min, max)
        } else {
            let low: u16 = min.0 as u16;
            let high: u16 = max.0 as u16 + 255;
            let lifted: u16 = low + (high - low) / 2;
            if lifted > 255 {
                IntegerComponent((lifted - 255) as u8)
            } else {
                IntegerComponent(lifted as u8)
            }
        }
    }

    fn clamp(self, min: Self, max: Self) -> (clamped: Self) {
        if self.0 < min.0 {
            min
        } else if self.0 > max.0 {
            max
        } else {
            self
        }
    }

    fn clamp_circular(self, min: Self, max: Self) -> (clamped: Self) {
        if max.0 >= min.0 {
            self.clamp(min, max)
        } else if self.0 >= min.0 || self.0 <= max.0 {
            self
        } else if self.0 - max.0 <= min.0 - self.0 {
            max
        } else {
            min
        }
    }

    fn extend(self, range: (Self, Self)) -> (extended: (Self, Self)) {
        if self.0 < range.0.0 {
            (self, range.1)
        } else if self.0 > range.1.0 {
            (range.0, self)
        } else {
            range
        }
    }

    fn extend_circular(self, range: (Self, Self)) -> (extended: (Self, Self)) {
        let low: u16 = range.0.0 as u16;
        let high: u16 = range.1.0 as u16;
        let level: u16 = self.0 as u16;
        let within: bool = if high >= low {
            low <= level && level <= high
        } else {
            level >= low || level <= high
        };
        if within {
            range
        } else {
            let upwards: u16 = if level >= high {
                level - high
            } else {
                level + 255 - high
            };
            let downwards: u16 = if low >= level {
                low - level
            } else {
                low + 255 - level
            };
            if upwards <= downwards {
                (range.0, self)
            } else {
                (self, range.1)
            }
        }
    }

    fn min_component() -> (min: Self) {
        IntegerComponent(0)
    }

    fn max_component() -> (max: Self) {
        IntegerComponent(255)
    }

    fn saturating_add(self, other: Self) -> (sum: Self) {
        if self.0 > 255 - other.0 {
            IntegerComponent(255)
        } else {
            IntegerComponent(self.0 + other.0)
        }
    }

    fn saturating_sub(self, other: Self) -> (difference: Self) {
        if self.0 < other.0 {
            IntegerComponent(0)
        } else {
            IntegerComponent(self.0 - other.0)
        }
    }
}

impl IntegerComponent {
    /// The byte, widened.
    pub fn to_u16(self) -> (wide: u16)
        ensures
            wide == self.0,
    {
        self.0 as u16
    }

    /// The byte nearest to `value`: values above 255 give 255.
    pub fn from_u16(value: u16) -> (component: Self)
        ensures
            component.0 as int == if value > 255 {
                255
            } else {
                value as int
            },
    {
        if value > 255 {
            IntegerComponent(255)
        } else {
            IntegerComponent(value as u8)
        }
    }
}

impl FloatingComponent {
    /// The fraction nearest to a count of 1/65535 parts that may lie outside
    /// the range: counts below 0 give 0, counts above 65535 give 65535.
    pub fn from_fraction(parts: i64) -> (component: Self)
        ensures
            component.0 as int == clamp_of(parts as int, 0, 65535),
    {
        if parts < 0 {
            FloatingComponent(0)
        } else if parts > 65535 {
            FloatingComponent(FULL_PARTS)
        } else {
            FloatingComponent(parts as u16)
        }
    }
}

/// A discrete component survives the way to a fraction and back unchanged.
pub proof fn lemma_discrete_round_trip(value: IntegerComponent)
    ensures
        IntegerComponent::of_parts(value.parts()) == value,
        IntegerComponent::of_parts(FloatingComponent::of_parts(value.parts()).parts()) == value,
{
}

/// A fraction comes back from its nearest discrete component less than one
/// discrete step away.
pub proof fn lemma_fraction_round_trip(value: FloatingComponent)
    ensures
        -257 < IntegerComponent::of_parts(value.parts()).parts() - value.parts() < 257,
{
}

/// The circular median lies inside the interval that it is the median of.
pub proof fn lemma_median_circular_inside(low: int, high: int, top: int)
    requires
        0 <= low <= top,
        0 <= high <= top,
    ensures
        within_circular(median_circular_of(low, high, top), low, high),
        0 <= median_circular_of(low, high, top) <= top,
{
}

/// A circular clamp leaves a level inside the interval as it is, and takes
/// any other level to one of the two bounds.
pub proof fn lemma_clamp_circular_inside(level: int, low: int, high: int)
    ensures
        within_circular(clamp_circular_of(level, low, high), low, high),
        within_circular(level, low, high) ==> clamp_circular_of(level, low, high) == level,
        !within_circular(level, low, high) ==> clamp_circular_of(level, low, high) == low
            || clamp_circular_of(level, low, high) == high,
{
}

/// A widened interval holds the level it was widened for, and everything
/// that the interval held before.
pub proof fn lemma_extend_holds(level: int, range: (int, int), other: int)
    requires
        range.0 <= range.1,
    ensures
        extend_of(level, range).0 <= level <= extend_of(level, range).1,
        range.0 <= other <= range.1 ==> extend_of(level, range).0 <= other <= extend_of(
            level,
            range,
        ).1,
{
}

/// A widened circular interval holds the level it was widened for, both
/// of its former bounds and everything else that it held before. It is the
/// former interval exactly where that held the level already; otherwise one
/// of its bounds is the level and the other is as it was.
pub proof fn lemma_extend_circular_holds(level: int, range: (int, int), top: int, other: int)
    requires
        0 <= level <= top,
        0 <= range.0 <= top,
        0 <= range.1 <= top,
        0 <= other <= top,
    ensures
        ({
            let extended = extend_circular_of(level, range, top);
            &&& within_circular(level, extended.0, extended.1)
            &&& within_circular(range.0, extended.0, extended.1)
            &&& within_circular(range.1, extended.0, extended.1)
            &&& within_circular(other, range.0, range.1) ==> within_circular(
                other,
                extended.0,
                extended.1,
            )
            &&& extended == range <==> within_circular(level, range.0, range.1)
            &&& !within_circular(level, range.0, range.1) ==> (extended == (level, range.1)
                || extended == (range.0, level)) && level != range.0 && level != range.1
        }),
{
}

/// An interval of equal bounds is one level: its median and every clamp
/// into it are that level, and it is widened for any other level.
pub proof fn lemma_single_level(level: int, bound: int, top: int)
    requires
        0 <= level <= top,
        0 <= bound <= top,
    ensures
        within_circular(level, bound, bound) <==> level == bound,
        median_circular_of(bound, bound, top) == bound,
        clamp_circular_of(level, bound, bound) == bound,
        level != bound ==> extend_circular_of(level, (bound, bound), top) != (bound, bound),
{
}

} // verus!
