use vstd::prelude::*;
use vstd::string::{StrSliceExecFns, StringExecFns};

verus! {

/// The difference between two dates in days, months and years.
/// The `positive` flag tells whether the second date lay on or after the
/// first; the three magnitudes are never negative.
#[derive(Debug, PartialEq)]
pub struct Interval {
    pub days: u32,
    pub months: u32,
    pub years: u32,
    pub positive: bool,
}

/// The decimal digit `d` as a character.
pub open spec fn digit_char(d: int) -> char {
    if d == 1 {
        '1'
    } else if d == 2 {
        '2'
    } else if d == 3 {
        '3'
    } else if d == 4 {
        '4'
    } else if d == 5 {
        '5'
    } else if d == 6 {
        '6'
    } else if d == 7 {
        '7'
    } else if d == 8 {
        '8'
    } else if d == 9 {
        '9'
    } else {
        '0'
    }
}

/// The decimal rendering of `n`, most significant digit first, with no
/// leading zeros except for `n == 0` itself.
pub open spec fn spec_decimal(n: int) -> Seq<char>
    recommends
        n >= 0,
    decreases n,
{
    if n < 10 {
        seq![digit_char(n)]
    } else {
        spec_decimal(n / 10).push(digit_char(n % 10))
    }
}

/// The single-character string for a decimal digit.
fn digit_str(d: u32) -> (s: &'static str)
    requires
        d < 10,
    ensures
        s@ == seq![digit_char(d as int)],
{
    proof {
        reveal_strlit("0");
        reveal_strlit("1");
        reveal_strlit("2");
        reveal_strlit("3");
        reveal_strlit("4");
        reveal_strlit("5");
        reveal_strlit("6");
        reveal_strlit("7");
        reveal_strlit("8");
        reveal_strlit("9");
    }
    let s: &'static str = match d {
        0 => "0",
        1 => "1",
        2 => "2",
        3 => "3",
        4 => "4",
        5 => "5",
        6 => "6",
        7 => "7",
        8 => "8",
        _ => "9",
    };
    proof {
        assert(s@ =~= seq![digit_char(d as int)]);
    }
    s
}

/// Writes `n` in decimal.
fn u32_decimal(n: u32) -> (s: String)
    ensures
        s@ == spec_decimal(n as int),
    decreases n,
{
    if n < 10 {
        String::from_str(digit_str(n))
    } else {
        let mut s = u32_decimal(n / 10);
        s.append(digit_str(n % 10));
        proof {
            assert(s@ =~= spec_decimal(n as int));
        }
        s
    }
}

/// The part of the rendering that shows the three magnitudes.
pub open spec fn rendered_magnitudes(i: Interval) -> Seq<char> {
    "("@ + spec_decimal(i.years as int) + " years "@ + spec_decimal(i.months as int)
        + " months "@ + spec_decimal(i.days as int) + " days "@
}

/// The full rendering: the magnitudes followed by the direction word.
pub open spec fn spec_render(i: Interval) -> Seq<char> {
    rendered_magnitudes(i) + (if i.positive {
        "Ahead)"@
    } else {
        "Behind)"@
    })
}

impl Interval {
    /// The day component of the difference.
    pub fn days(&self) -> (r: u32)
        ensures
            r == self.days,
    {
        self.days
    }

    /// The month component of the difference.
    pub fn months(&self) -> (r: u32)
        ensures
            r == self.months,
    {
        self.months
    }

    /// The year component of the difference.
    pub fn years(&self) -> (r: u32)
        ensures
            r == self.years,
    {
        self.years
    }

    /// Whether the difference points forward in time.
    pub fn positive(&self) -> (r: bool)
        ensures
            r == self.positive,
    {
        self.positive
    }

    /// A human-readable form, such as `(2 years 5 months 11 days Ahead)`.
    pub fn render(&self) -> (s: String)
        ensures
            s@ == spec_render(*self),
    {
        let mut s = String::from_str("(");
        s.append(u32_decimal(self.years).as_str());
        s.append(" years ");
        s.append(u32_decimal(self.months).as_str());
        s.append(" months ");
        s.append(u32_decimal(self.days).as_str());
        s.append(" days ");
        if self.positive {
            s.append("Ahead)");
        } else {
            s.append("Behind)");
        }
        proof {
            assert(s@ =~= spec_render(*self));
        }
        s
    }
}

/// A positive interval renders with the closing word `Ahead`, a negative one
/// with `Behind`.
pub proof fn lemma_render_direction(i: Interval)
    ensures
        i.positive ==> spec_render(i) == rendered_magnitudes(i) + "Ahead)"@,
        !i.positive ==> spec_render(i) == rendered_magnitudes(i) + "Behind)"@,
{
}

} // verus!
