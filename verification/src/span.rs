//! How long a written duration can be at most: a reading of the text that
//! adds up, unit by unit, the seconds that its numbers stand for.
//!
//! A duration is written as numbers, each followed by the word of its unit:
//! `1h 30min`, `2.5s`, `750ms`. Blanks may stand between the digits of a
//! number and before its unit; a unit's word ends at the first character
//! that is no letter.
use vstd::prelude::*;
use crate::text::same_text;

verus! {

/// Nanoseconds in one second.
pub const NANOS_IN_SEC: u128 = 1_000_000_000;

/// The most decimal places of a fraction whose denominator fits `u64`.
pub const MOST_PLACES: usize = 19;

/// A unit of time.
#[derive(Clone, Copy, Debug, PartialEq, Eq, Structural)]
pub enum Unit {
    Nanosecond,
    Microsecond,
    Millisecond,
    Second,
    Minute,
    Hour,
    Day,
    Week,
    /// 30.44 days.
    Month,
    /// 365.25 days.
    Year,
}

impl Unit {
    /// The whole seconds of one unit; none for the units below a second.
    pub open spec fn secs(self) -> nat {
        match self {
            Unit::Nanosecond => 0,
            Unit::Microsecond => 0,
            Unit::Millisecond => 0,
            Unit::Second => 1,
            Unit::Minute => 60,
            Unit::Hour => 3_600,
            Unit::Day => 86_400,
            Unit::Week => 604_800,
            Unit::Month => 2_630_016,
            Unit::Year => 31_557_600,
        }
    }

    /// The nanoseconds of one unit below a second; none for the others.
    pub open spec fn nanos(self) -> nat {
        match self {
            Unit::Nanosecond => 1,
            Unit::Microsecond => 1_000,
            Unit::Millisecond => 1_000_000,
            _ => 0,
        }
    }

    /// The whole seconds that a fraction of the unit is taken of: those of
    /// the unit from the hour up, none below.
    pub open spec fn part_secs(self) -> nat {
        match self {
            Unit::Hour => 3_600,
            Unit::Day => 86_400,
            Unit::Week => 604_800,
            Unit::Month => 2_630_016,
            Unit::Year => 31_557_600,
            _ => 0,
        }
    }

    /// The nanoseconds that a fraction of the unit is taken of: those of the
    /// unit from the microsecond to the minute, none for the others. A
    /// nanosecond has no fraction.
    pub open spec fn part_nanos(self) -> nat {
        match self {
            Unit::Microsecond => 1_000,
            Unit::Millisecond => 1_000_000,
            Unit::Second => 1_000_000_000,
            Unit::Minute => 60_000_000_000,
            _ => 0,
        }
    }

    /// The unit that a word names, if it names one.
    pub open spec fn named(w: Seq<char>) -> Option<Unit> {
        if w == "nanos"@ || w == "nsec"@ || w == "ns"@ {
            Some(Unit::Nanosecond)
        } else if w == "usec"@ || w == "us"@ || w == "\u{b5}s"@ {
            Some(Unit::Microsecond)
        } else if w == "millis"@ || w == "msec"@ || w == "ms"@ {
            Some(Unit::Millisecond)
        } else if w == "seconds"@ || w == "second"@ || w == "secs"@ || w == "sec"@ || w == "s"@ {
            Some(Unit::Second)
        } else if w == "minutes"@ || w == "minute"@ || w == "min"@ || w == "mins"@ || w == "m"@ {
            Some(Unit::Minute)
        } else if w == "hours"@ || w == "hour"@ || w == "hr"@ || w == "hrs"@ || w == "h"@ {
            Some(Unit::Hour)
        } else if w == "days"@ || w == "day"@ || w == "d"@ {
            Some(Unit::Day)
        } else if w == "weeks"@ || w == "week"@ || w == "wk"@ || w == "wks"@ || w == "w"@ {
            Some(Unit::Week)
        } else if w == "months"@ || w == "month"@ || w == "M"@ {
            Some(Unit::Month)
        } else if w == "years"@ || w == "year"@ || w == "yr"@ || w == "yrs"@ || w == "y"@ {
            Some(Unit::Year)
        } else {
            None
        }
    }

    /// The unit that a word names, if it names one.
    pub fn by_name(w: &str) -> (r: Option<Unit>)
        ensures
            r == Unit::named(w@),
    {
        if same_text(w, "nanos") || same_text(w, "nsec") || same_text(w, "ns") {
            Some(Unit::Nanosecond)
        } else if same_text(w, "usec") || same_text(w, "us") || same_text(w, "\u{b5}s") {
            Some(Unit::Microsecond)
        } else if same_text(w, "millis") || same_text(w, "msec") || same_text(w, "ms") {
            Some(Unit::Millisecond)
        } else if same_text(w, "seconds") || same_text(w, "second") || same_text(w, "secs")
            || same_text(w, "sec") || same_text(w, "s") {
            Some(Unit::Second)
        } else if same_text(w, "minutes") || same_text(w, "minute") || same_text(w, "min")
            || same_text(w, "mins") || same_text(w, "m") {
            Some(Unit::Minute)
        } else if same_text(w, "hours") || same_text(w, "hour") || same_text(w, "hr") || same_text(
            w,
            "hrs",
        ) || same_text(w, "h") {
            Some(Unit::Hour)
        } else if same_text(w, "days") || same_text(w, "day") || same_text(w, "d") {
            Some(Unit::Day)
        } else if same_text(w, "weeks") || same_text(w, "week") || same_text(w, "wk") || same_text(
            w,
            "wks",
        ) || same_text(w, "w") {
            Some(Unit::Week)
        } else if same_text(w, "months") || same_text(w, "month") || same_text(w, "M") {
            Some(Unit::Month)
        } else if same_text(w, "years") || same_text(w, "year") || same_text(w, "yr") || same_text(
            w,
            "yrs",
        ) || same_text(w, "y") {
            Some(Unit::Year)
        } else {
            None
        }
    }

    fn secs_of(self) -> (r: u128)
        ensures
            r == self.secs(),
    {
        match self {
            Unit::Nanosecond => 0,
            Unit::Microsecond => 0,
            Unit::Millisecond => 0,
            Unit::Second => 1,
            Unit::Minute => 60,
            Unit::Hour => 3_600,
            Unit::Day => 86_400,
            Unit::Week => 604_800,
            Unit::Month => 2_630_016,
            Unit::Year => 31_557_600,
        }
    }

    fn nanos_of(self) -> (r: u128)
        ensures
            r == self.nanos(),
    {
        match self {
            Unit::Nanosecond => 1,
            Unit::Microsecond => 1_000,
            Unit::Millisecond => 1_000_000,
            _ => 0,
        }
    }

    fn part_secs_of(self) -> (r: u128)
        ensures
            r == self.part_secs(),
    {
        match self {
            Unit::Hour => 3_600,
            Unit::Day => 86_400,
            Unit::Week => 604_800,
            Unit::Month => 2_630_016,
            Unit::Year => 31_557_600,
            _ => 0,
        }
    }

    fn part_nanos_of(self) -> (r: u128)
        ensures
            r == self.part_nanos(),
    {
        match self {
            Unit::Microsecond => 1_000,
            Unit::Millisecond => 1_000_000,
            Unit::Second => 1_000_000_000,
            Unit::Minute => 60_000_000_000,
            _ => 0,
        }
    }
}

/// Whether a character is one of the ten digits.
pub open spec fn is_digit(c: char) -> bool {
    '0' <= c && c <= '9'
}

/// The number that a digit stands for.
pub open spec fn digit_value(c: char) -> nat {
    (c as u8 - 48) as nat
}

/// Whether a character can stand in the word of a unit.
pub open spec fn is_letter(c: char) -> bool {
    ('a' <= c && c <= 'z') || ('A' <= c && c <= 'Z') || c == '\u{b5}'
}

/// Ten to the power of `n`.
pub open spec fn ten_to(n: nat) -> nat
    decreases n,
{
    if n == 0 {
        1
    } else {
        10 * ten_to((n - 1) as nat)
    }
}

/// What the reading of a text is at.
#[derive(Clone, Copy, Debug, PartialEq, Eq, Structural)]
pub enum Stage {
    /// Before a number.
    Idle,
    /// In the whole part of a number.
    Whole,
    /// Behind the point of a number.
    Fraction,
    /// In the word of a unit.
    Word,
}

/// The reading of a text, as far as it has gone.
pub struct Reading {
    /// Whole seconds of the numbers whose unit has been read.
    pub secs: nat,
    /// Nanoseconds of the numbers whose unit has been read.
    pub nanos: nat,
    /// The whole part of the number that is being read.
    pub whole: nat,
    /// The digits behind the point of that number, as one number.
    pub numer: nat,
    /// How many digits stand behind the point.
    pub places: nat,
    pub stage: Stage,
    /// Where the word of the unit begins.
    pub start: nat,
}

/// What a fraction adds: so many parts of `basis` as the digits behind the
/// point say. No digit adds nothing; more digits than a denominator in
/// `u64` has, or a numerator beyond `u64`, count as the whole basis.
pub open spec fn fraction_of(numer: nat, places: nat, basis: nat) -> nat {
    if places == 0 {
        0
    } else if places > MOST_PLACES || numer > u64::MAX {
        basis
    } else {
        numer * basis / ten_to(places)
    }
}

impl Reading {
    /// The reading before the first character.
    pub open spec fn begin() -> Reading {
        Reading { secs: 0, nanos: 0, whole: 0, numer: 0, places: 0, stage: Stage::Idle, start: 0 }
    }

    /// The reading after the word of the unit has ended: the number counts
    /// in the unit that the word names, and not at all if it names none.
    pub open spec fn settled(self, word: Seq<char>) -> Reading {
        match Unit::named(word) {
            None => Reading { stage: Stage::Idle, ..self },
            Some(u) => Reading {
                secs: self.secs + self.whole * u.secs() + fraction_of(
                    self.numer,
                    self.places,
                    u.part_secs(),
                ),
                nanos: self.nanos + self.whole * u.nanos() + fraction_of(
                    self.numer,
                    self.places,
                    u.part_nanos(),
                ),
                stage: Stage::Idle,
                ..self
            },
        }
    }

    /// The reading at the first digit of a number.
    pub open spec fn opened(self, c: char) -> Reading {
        Reading { whole: digit_value(c), numer: 0, places: 0, stage: Stage::Whole, ..self }
    }

    /// The word of the unit that is being read, in the text read so far.
    pub open spec fn word(self, before: Seq<char>) -> Seq<char> {
        before.subrange(self.start as int, before.len() as int)
    }

    /// The reading after one more character, `c`, which follows `before`.
    ///
    /// A digit goes on with the number, or begins one; after a word it ends
    /// the word first. The point leads from the whole part to the fraction.
    /// A letter begins the word behind a number, or goes on with it. Any
    /// other character ends a word, and is passed over elsewhere.
    pub open spec fn step(self, before: Seq<char>, c: char) -> Reading {
        if is_digit(c) {
            match self.stage {
                Stage::Idle => self.opened(c),
                Stage::Whole => Reading { whole: self.whole * 10 + digit_value(c), ..self },
                Stage::Fraction => Reading {
                    numer: self.numer * 10 + digit_value(c),
                    places: self.places + 1,
                    ..self
                },
                Stage::Word => self.settled(self.word(before)).opened(c),
            }
        } else if c == '.' {
            if self.stage is Whole {
                Reading { stage: Stage::Fraction, ..self }
            } else {
                self
            }
        } else if is_letter(c) {
            if self.stage is Whole || self.stage is Fraction {
                Reading { stage: Stage::Word, start: before.len(), ..self }
            } else {
                self
            }
        } else {
            if self.stage is Word {
                self.settled(self.word(before))
            } else {
                self
            }
        }
    }

    /// The reading at the end of the text: a word that the text ends in has
    /// ended; a number without a unit does not count.
    pub open spec fn ended(self, text: Seq<char>) -> Reading {
        if self.stage is Word {
            self.settled(self.word(text))
        } else {
            self
        }
    }
}

/// The reading of a text.
pub open spec fn reading(s: Seq<char>) -> Reading
    decreases s.len(),
{
    if s.len() == 0 {
        Reading::begin()
    } else {
        reading(s.drop_last()).step(s.drop_last(), s.last())
    }
}

/// The most whole seconds that a written duration amounts to: those of its
/// numbers in their units, and those that their nanoseconds make up.
pub open spec fn most_seconds(s: Seq<char>) -> nat {
    let end = reading(s).ended(s);
    end.secs + end.nanos / (NANOS_IN_SEC as nat)
}

/// A number held to the range of `u128`.
pub open spec fn clamped_wide(n: nat) -> u128 {
    if n > u128::MAX {
        u128::MAX
    } else {
        n as u128
    }
}

/// The product of two numbers, held to the range of `u128`.
fn times(a: u128, k: u128, Ghost(x): Ghost<nat>) -> (r: u128)
    requires
        a == clamped_wide(x),
    ensures
        r == clamped_wide((x * k) as nat),
{
    if k == 0 {
        assert(x * k == 0) by (nonlinear_arith)
            requires
                k == 0,
        ;
        0
    } else {
        assert(x * k >= x) by (nonlinear_arith)
            requires
                k >= 1,
                x >= 0,
        ;
        match a.checked_mul(k) {
            Some(p) => p,
            None => {
                assert(x * k >= a * k) by (nonlinear_arith)
                    requires
                        x >= a,
                        k >= 1,
                ;
                u128::MAX
            },
        }
    }
}

/// The sum of two numbers, held to the range of `u128`.
fn sum(a: u128, b: u128, Ghost(x): Ghost<nat>, Ghost(y): Ghost<nat>) -> (r: u128)
    requires
        a == clamped_wide(x),
        b == clamped_wide(y),
    ensures
        r == clamped_wide(x + y),
{
    if a > u128::MAX - b {
        u128::MAX
    } else {
        a + b
    }
}

/// Ten to the power of `n`.
fn ten_power(n: usize) -> (r: u128)
    requires
        n <= MOST_PLACES,
    ensures
        r == ten_to(n as nat),
        1 <= r <= 10_000_000_000_000_000_000,
{
    let mut r: u128 = 1;
    let mut i: usize = 0;
    while i < n
        invariant
            0 <= i <= n <= MOST_PLACES,
            r == ten_to(i as nat),
            1 <= r,
            i == 0 ==> r == 1,
            i == 1 ==> r == 10,
            i == 2 ==> r == 100,
            i == 3 ==> r == 1_000,
            i == 4 ==> r == 10_000,
            i == 5 ==> r == 100_000,
            i == 6 ==> r == 1_000_000,
            i == 7 ==> r == 10_000_000,
            i == 8 ==> r == 100_000_000,
            i == 9 ==> r == 1_000_000_000,
            i == 10 ==> r == 10_000_000_000,
            i == 11 ==> r == 100_000_000_000,
            i == 12 ==> r == 1_000_000_000_000,
            i == 13 ==> r == 10_000_000_000_000,
            i == 14 ==> r == 100_000_000_000_000,
            i == 15 ==> r == 1_000_000_000_000_000,
            i == 16 ==> r == 10_000_000_000_000_000,
            i == 17 ==> r == 100_000_000_000_000_000,
            i == 18 ==> r == 1_000_000_000_000_000_000,
            i == 19 ==> r == 10_000_000_000_000_000_000,
        decreases n - i,
    {
        r = r * 10;
        i += 1;
    }
    r
}

/// What a fraction adds.
fn fraction(numer: u128, places: usize, basis: u128, Ghost(x): Ghost<nat>) -> (r: u128)
    requires
        numer == clamped_wide(x),
        basis <= 60_000_000_000,
    ensures
        r == fraction_of(x, places as nat, basis as nat),
{
    if places == 0 {
        0
    } else if places > MOST_PLACES || numer > u64::MAX as u128 {
        basis
    } else {
        let power: u128 = ten_power(places);
        assert(numer * basis <= 0xffff_ffff_ffff_ffff * 60_000_000_000) by (nonlinear_arith)
            requires
                numer <= 0xffff_ffff_ffff_ffff,
                basis <= 60_000_000_000,
        ;
        numer * basis / power
    }
}

/// The reading of a text in numbers of the machine: what is beyond `u128`
/// stands at `u128::MAX`.
#[derive(Clone, Copy, Debug)]
struct Count {
    secs: u128,
    nanos: u128,
    whole: u128,
    numer: u128,
    places: usize,
    stage: Stage,
    start: usize,
}

impl Count {
    /// The count stands for the reading.
    spec fn shows(self, r: Reading) -> bool {
        &&& self.secs == clamped_wide(r.secs)
        &&& self.nanos == clamped_wide(r.nanos)
        &&& self.whole == clamped_wide(r.whole)
        &&& self.numer == clamped_wide(r.numer)
        &&& self.places == r.places
        &&& self.stage == r.stage
        &&& self.start == r.start
    }

    /// The count after the word of the unit has ended.
    fn settled(self, word: &str, Ghost(r): Ghost<Reading>) -> (next: Count)
        requires
            self.shows(r),
        ensures
            next.shows(r.settled(word@)),
            next.places == self.places,
            next.start == self.start,
    {
        match Unit::by_name(word) {
            None => Count { stage: Stage::Idle, ..self },
            Some(u) => {
                let whole_secs: u128 = times(self.whole, u.secs_of(), Ghost(r.whole));
                let part_secs: u128 = fraction(
                    self.numer,
                    self.places,
                    u.part_secs_of(),
                    Ghost(r.numer),
                );
                let more_secs: u128 = sum(
                    whole_secs,
                    part_secs,
                    Ghost(r.whole * u.secs()),
                    Ghost(fraction_of(r.numer, r.places, u.part_secs())),
                );
                let whole_nanos: u128 = times(self.whole, u.nanos_of(), Ghost(r.whole));
                let part_nanos: u128 = fraction(
                    self.numer,
                    self.places,
                    u.part_nanos_of(),
                    Ghost(r.numer),
                );
                let more_nanos: u128 = sum(
                    whole_nanos,
                    part_nanos,
                    Ghost(r.whole * u.nanos()),
                    Ghost(fraction_of(r.numer, r.places, u.part_nanos())),
                );
                let secs: u128 = sum(
                    self.secs,
                    more_secs,
                    Ghost(r.secs),
                    Ghost(r.whole * u.secs() + fraction_of(r.numer, r.places, u.part_secs())),
                );
                let nanos: u128 = sum(
                    self.nanos,
                    more_nanos,
                    Ghost(r.nanos),
                    Ghost(r.whole * u.nanos() + fraction_of(r.numer, r.places, u.part_nanos())),
                );
                Count { secs, nanos, stage: Stage::Idle, ..self }
            },
        }
    }

    /// The count with one more digit behind a number.
    fn grown(n: u128, d: u128, Ghost(x): Ghost<nat>) -> (r: u128)
        requires
            n == clamped_wide(x),
            d <= 9,
        ensures
            r == clamped_wide((x * 10 + d) as nat),
    {
        if n > (u128::MAX - d) / 10 {
            u128::MAX
        } else {
            n * 10 + d
        }
    }

    /// The count after one more character, the one at `i`.
    fn step(self, s: &str, i: usize, c: char, Ghost(r): Ghost<Reading>) -> (next: Count)
        requires
            self.shows(r),
            i < s@.len() <= usize::MAX,
            c == s@[i as int],
            self.places <= i,
            self.start <= i,
        ensures
            next.shows(r.step(s@.take(i as int), c)),
            next.places <= i + 1,
            next.start <= i + 1,
    {
        if '0' <= c && c <= '9' {
            let d: u128 = (c as u8 - 48) as u128;
            match self.stage {
                Stage::Idle => Count { whole: d, numer: 0, places: 0, stage: Stage::Whole, ..self },
                Stage::Whole => Count { whole: Self::grown(self.whole, d, Ghost(r.whole)), ..self },
                Stage::Fraction => Count {
                    numer: Self::grown(self.numer, d, Ghost(r.numer)),
                    places: self.places + 1,
                    ..self
                },
                Stage::Word => {
                    let word: &str = s.substring_char(self.start, i);
                    assert(word@ == r.word(s@.take(i as int)));
                    let done: Count = self.settled(word, Ghost(r));
                    Count { whole: d, numer: 0, places: 0, stage: Stage::Whole, ..done }
                },
            }
        } else if c == '.' {
            match self.stage {
                Stage::Whole => Count { stage: Stage::Fraction, ..self },
                _ => self,
            }
        } else if ('a' <= c && c <= 'z') || ('A' <= c && c <= 'Z') || c == '\u{b5}' {
            match self.stage {
                Stage::Whole => Count { stage: Stage::Word, start: i, ..self },
                Stage::Fraction => Count { stage: Stage::Word, start: i, ..self },
                _ => self,
            }
        } else {
            match self.stage {
                Stage::Word => {
                    let word: &str = s.substring_char(self.start, i);
                    assert(word@ == r.word(s@.take(i as int)));
                    self.settled(word, Ghost(r))
                },
                _ => self,
            }
        }
    }
}

/// The most whole seconds that a written duration amounts to, where they fit
/// `u64`.
pub fn seconds_bound(s: &str) -> (r: Option<u64>)
    ensures
        r == (if most_seconds(s@) <= u64::MAX {
            Some(most_seconds(s@) as u64)
        } else {
            None
        }),
{
    let n: usize = s.unicode_len();
    let mut count: Count = Count {
        secs: 0,
        nanos: 0,
        whole: 0,
        numer: 0,
        places: 0,
        stage: Stage::Idle,
        start: 0,
    };
    let mut i: usize = 0;
    while i < n
        invariant
            n == s@.len(),
            0 <= i <= n,
            count.shows(reading(s@.take(i as int))),
            count.places <= i,
            count.start <= i,
        decreases n - i,
    {
        let c: char = s.get_char(i);
        proof {
            assert(s@.take(i + 1).drop_last() =~= s@.take(i as int));
            assert(s@.take(i + 1).last() == c);
        }
        count = count.step(s, i, c, Ghost(reading(s@.take(i as int))));
        i += 1;
    }
    proof {
        assert(s@.take(n as int) =~= s@);
    }
    let end: Count = match count.stage {
        Stage::Word => {
            let word: &str = s.substring_char(count.start, n);
            assert(word@ == reading(s@).word(s@));
            count.settled(word, Ghost(reading(s@)))
        },
        _ => count,
    };
    let carried: u128 = end.nanos / NANOS_IN_SEC;
    if end.secs > u64::MAX as u128 || carried > u64::MAX as u128 || end.secs + carried
        > u64::MAX as u128 {
        None
    } else {
        Some((end.secs + carried) as u64)
    }
}

} // verus!
