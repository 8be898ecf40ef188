use vstd::prelude::*;

use crate::breakdown::ElapsedTime;

verus! {

/// The units of a breakdown, each with a German singular and plural word.
#[derive(Debug, Clone, Copy, PartialEq, Eq, Structural)]
pub enum TimeUnit {
    Years,
    Months,
    Days,
    Hours,
    Minutes,
    Seconds,
}

/// The text of one decimal digit.
pub open spec fn digit_text(d: nat) -> Seq<char> {
    if d == 0 {
        "0"@
    } else if d == 1 {
        "1"@
    } else if d == 2 {
        "2"@
    } else if d == 3 {
        "3"@
    } else if d == 4 {
        "4"@
    } else if d == 5 {
        "5"@
    } else if d == 6 {
        "6"@
    } else if d == 7 {
        "7"@
    } else if d == 8 {
        "8"@
    } else {
        "9"@
    }
}

/// `n` written in decimal, without leading zeros.
pub open spec fn decimal(n: nat) -> Seq<char>
    decreases n,
{
    if n < 10 {
        digit_text(n)
    } else {
        decimal(n / 10) + digit_text(n % 10)
    }
}

/// The word for a unit, singular when the value is exactly one.
pub open spec fn unit_word(u: TimeUnit, singular: bool) -> Seq<char> {
    match u {
        TimeUnit::Years => if singular { "Jahr"@ } else { "Jahre"@ },
        TimeUnit::Months => if singular { "Monat"@ } else { "Monate"@ },
        TimeUnit::Days => if singular { "Tag"@ } else { "Tage"@ },
        TimeUnit::Hours => if singular { "Stunde"@ } else { "Stunden"@ },
        TimeUnit::Minutes => if singular { "Minute"@ } else { "Minuten"@ },
        TimeUnit::Seconds => if singular { "Sekunde"@ } else { "Sekunden"@ },
    }
}

/// One unit as shown on the page: the number, a non-breaking space and the word.
pub open spec fn unit_text(u: TimeUnit, value: nat) -> Seq<char> {
    decimal(value) + "&nbsp;"@ + unit_word(u, value == 1)
}

/// The whole sentence: all six units, comma-separated, "und" before the last,
/// and a closing period.
pub open spec fn sentence(e: ElapsedTime) -> Seq<char> {
    unit_text(TimeUnit::Years, e.years as nat) + ", "@ + unit_text(TimeUnit::Months, e.months as nat)
        + ", "@ + unit_text(TimeUnit::Days, e.days as nat) + ", "@ + unit_text(
        TimeUnit::Hours,
        e.hours as nat,
    ) + ", "@ + unit_text(TimeUnit::Minutes, e.minutes as nat) + " und "@ + unit_text(
        TimeUnit::Seconds,
        e.seconds as nat,
    ) + "."@
}

fn digit_str(d: u64) -> (r: &'static str)
    requires
        d < 10,
    ensures
        r@ == digit_text(d as nat),
{
    if d == 0 {
        "0"
    } else if d == 1 {
        "1"
    } else if d == 2 {
        "2"
    } else if d == 3 {
        "3"
    } else if d == 4 {
        "4"
    } else if d == 5 {
        "5"
    } else if d == 6 {
        "6"
    } else if d == 7 {
        "7"
    } else if d == 8 {
        "8"
    } else {
        "9"
    }
}

/// Appends `n` in decimal to `out`.
pub fn push_decimal(out: &mut String, n: u64)
    ensures
        final(out)@ == old(out)@ + decimal(n as nat),
    decreases n,
{
    if n >= 10 {
        push_decimal(out, n / 10);
    }
    out.append(digit_str(n % 10));
    proof {
        if n >= 10 {
            assert(final(out)@ == old(out)@ + decimal(n as nat / 10) + digit_text(n as nat % 10));
        }
    }
}

impl TimeUnit {
    fn word(&self, singular: bool) -> (r: &'static str)
        ensures
            r@ == unit_word(*self, singular),
    {
        match self {
            TimeUnit::Years => if singular { "Jahr" } else { "Jahre" },
            TimeUnit::Months => if singular { "Monat" } else { "Monate" },
            TimeUnit::Days => if singular { "Tag" } else { "Tage" },
            TimeUnit::Hours => if singular { "Stunde" } else { "Stunden" },
            TimeUnit::Minutes => if singular { "Minute" } else { "Minuten" },
            TimeUnit::Seconds => if singular { "Sekunde" } else { "Sekunden" },
        }
    }

    /// Appends this unit's text for `value` to `out`.
    pub fn push_timeunit(&self, out: &mut String, value: u64)
        ensures
            final(out)@ == old(out)@ + unit_text(*self, value as nat),
    {
        push_decimal(out, value);
        out.append("&nbsp;");
        out.append(self.word(value == 1));
        proof {
            assert(final(out)@ == old(out)@ + (decimal(value as nat) + "&nbsp;"@ + unit_word(*self, value == 1)));
        }
    }

    pub fn format_timeunit(&self, value: u64) -> (r: String)
        ensures
            r@ == unit_text(*self, value as nat),
    {
        let mut out = String::new();
        self.push_timeunit(&mut out, value);
        out
    }
}

impl ElapsedTime {
    /// The breakdown as one German sentence, e.g. "0&nbsp;Jahre, ... und 30&nbsp;Sekunden.".
    pub fn fmt_output(&self) -> (r: String)
        ensures
            r@ == sentence(*self),
    {
        let mut out = String::new();
        TimeUnit::Years.push_timeunit(&mut out, self.years);
        out.append(", ");
        TimeUnit::Months.push_timeunit(&mut out, self.months);
        out.append(", ");
        TimeUnit::Days.push_timeunit(&mut out, self.days);
        out.append(", ");
        TimeUnit::Hours.push_timeunit(&mut out, self.hours);
        out.append(", ");
        TimeUnit::Minutes.push_timeunit(&mut out, self.minutes);
        out.append(" und ");
        TimeUnit::Seconds.push_timeunit(&mut out, self.seconds);
        out.append(".");
        out
    }
}

/// A value of one takes the singular word and every other value the plural,
/// and the two words differ for every unit.
pub proof fn lemma_singular_plural(u: TimeUnit, value: nat)
    ensures
        value == 1 ==> unit_text(u, value) == "1"@ + "&nbsp;"@ + unit_word(u, true),
        value != 1 ==> unit_text(u, value) == decimal(value) + "&nbsp;"@ + unit_word(u, false),
        unit_word(u, true) != unit_word(u, false),
{
    reveal_strlit("Jahr");
    reveal_strlit("Jahre");
    reveal_strlit("Monat");
    reveal_strlit("Monate");
    reveal_strlit("Tag");
    reveal_strlit("Tage");
    reveal_strlit("Stunde");
    reveal_strlit("Stunden");
    reveal_strlit("Minute");
    reveal_strlit("Minuten");
    reveal_strlit("Sekunde");
    reveal_strlit("Sekunden");
    assert(unit_word(u, true).len() < unit_word(u, false).len());
}

} // verus!
