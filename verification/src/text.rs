use vstd::prelude::*;

use crate::duration::{second, Duration};

verus! {

/// The character of a decimal digit.
pub open spec fn digit(d: nat) -> char {
    if d == 0 {
        '0'
    } else if d == 1 {
        '1'
    } else if d == 2 {
        '2'
    } else if d == 3 {
        '3'
    } else if d == 4 {
        '4'
    } else if d == 5 {
        '5'
    } else if d == 6 {
        '6'
    } else if d == 7 {
        '7'
    } else if d == 8 {
        '8'
    } else {
        '9'
    }
}

/// `n` in decimal, without leading zeros.
pub open spec fn decimal(n: nat) -> Seq<char>
    decreases n,
{
    if n < 10 {
        seq![digit(n)]
    } else {
        decimal(n / 10).push(digit(n % 10))
    }
}

/// `n` in decimal, in two places or more.
pub open spec fn decimal2(n: nat) -> Seq<char> {
    if n < 10 {
        seq!['0', digit(n)]
    } else {
        decimal(n)
    }
}

/// A decimal digit as a string.
fn digit_text(d: u64) -> (s: &'static str)
    requires
        d < 10,
    ensures
        s@ == seq![digit(d as nat)],
{
    proof {
        reveal_strlit("0");
        reveal_strlit("1");
        reveal_strlit("2");
        reveal_strlit("3");
        reveal_strlit("4");
        reveal_strlit("5");
        reveal_strlit("6");
        reveal_strlit("7");
        reveal_strlit("8");
        reveal_strlit("9");
    }
    if d == 0 {
        "0"
    } else if d == 1 {
        "1"
    } else if d == 2 {
        "2"
    } else if d == 3 {
        "3"
    } else if d == 4 {
        "4"
    } else if d == 5 {
        "5"
    } else if d == 6 {
        "6"
    } else if d == 7 {
        "7"
    } else if d == 8 {
        "8"
    } else {
        "9"
    }
}

/// Appends `n` in decimal.
pub fn append_decimal(s: &mut String, n: u64)
    ensures
        final(s)@ == old(s)@ + decimal(n as nat),
    decreases n,
{
    if n < 10 {
        s.append(digit_text(n));
    } else {
        append_decimal(s, n / 10);
        s.append(digit_text(n % 10));
        assert(decimal(n as nat) =~= decimal(n as nat / 10) + seq![digit(n as nat % 10)]);
    }
}

/// Appends `n` in decimal, in two places or more.
pub fn append_decimal2(s: &mut String, n: u64)
    ensures
        final(s)@ == old(s)@ + decimal2(n as nat),
{
    if n < 10 {
        s.append(digit_text(0));
        s.append(digit_text(n));
        assert(decimal2(n as nat) =~= seq![digit(0)] + seq![digit(n as nat)]);
    } else {
        append_decimal(s, n);
    }
}

/// Joins two texts.
pub fn join(first: &str, second: &str) -> (text: String)
    ensures
        text@ == first@ + second@,
{
    let mut text = first.to_owned();
    text.append(second);
    text
}

/// `unit` written `n` times.
pub open spec fn repeated(unit: Seq<char>, n: nat) -> Seq<char>
    decreases n,
{
    if n == 0 {
        Seq::empty()
    } else {
        repeated(unit, (n - 1) as nat) + unit
    }
}

/// Appends `unit` `n` times.
pub fn append_repeated(s: &mut String, unit: &str, n: usize)
    ensures
        final(s)@ == old(s)@ + repeated(unit@, n as nat),
{
    let ghost before = s@;
    let mut i: usize = 0;
    assert(before =~= before + repeated(unit@, 0));
    while i < n
        invariant
            i <= n,
            s@ == before + repeated(unit@, i as nat),
        decreases n - i,
    {
        s.append(unit);
        i = i + 1;
        assert(before + repeated(unit@, i as nat) =~= before + repeated(unit@, (i - 1) as nat)
            + unit@);
    }
}

/// `text` cut to `max_chars` characters; a cut text ends in an ellipsis.
pub open spec fn truncated(text: Seq<char>, max_chars: nat) -> Seq<char> {
    if text.len() <= max_chars {
        text
    } else if max_chars == 0 {
        Seq::empty()
    } else {
        text.take(max_chars - 1) + "…"@
    }
}

/// Cuts `text` to `max_chars` characters; a cut text ends in an ellipsis.
pub fn truncate(text: &str, max_chars: usize) -> (cut: String)
    ensures
        cut@ == truncated(text@, max_chars as nat),
{
    if text.unicode_len() <= max_chars {
        text.to_owned()
    } else if max_chars == 0 {
        String::new()
    } else {
        let mut cut = text.substring_char(0, max_chars - 1).to_owned();
        cut.append("…");
        cut
    }
}

/// A number of seconds as a clock shows it: `mm:ss`, or `h:mm:ss` from one
/// hour on.
pub open spec fn clock(secs: nat) -> Seq<char> {
    let hours = secs / 3600;
    let minutes = (secs % 3600) / 60;
    let seconds = secs % 60;
    if hours > 0 {
        decimal(hours) + ":"@ + decimal2(minutes) + ":"@ + decimal2(seconds)
    } else {
        decimal2(minutes) + ":"@ + decimal2(seconds)
    }
}

/// Formats a duration as a clock shows it, dropping fractions of a second.
pub fn format_duration(d: Duration) -> (text: String)
    ensures
        text@ == clock(d@ / second()),
        5 <= text@.len() <= 26,
{
    let total_secs: u64 = d.as_secs();
    let hours: u64 = total_secs / 3600;
    let minutes: u64 = (total_secs % 3600) / 60;
    let seconds: u64 = total_secs % 60;
    let mut text = String::new();
    if hours > 0 {
        append_decimal(&mut text, hours);
        text.append(":");
    }
    append_decimal2(&mut text, minutes);
    text.append(":");
    append_decimal2(&mut text, seconds);
    assert(text@ =~= clock(total_secs as nat));
    proof {
        lemma_clock_len(total_secs as nat);
    }
    text
}

/// The clock text of a length that may be unknown.
pub open spec fn clock_or_dashes(length: Option<nat>) -> Seq<char> {
    match length {
        Some(d) => clock(d / second()),
        None => "--:--"@,
    }
}

/// Formats a length that may be unknown.
pub fn format_length(length: Option<Duration>) -> (text: String)
    ensures
        text@ == clock_or_dashes(
            match length {
                Some(d) => Some(d@),
                None => None,
            },
        ),
        5 <= text@.len() <= 26,
{
    proof {
        reveal_strlit("--:--");
    }
    match length {
        Some(d) => format_duration(d),
        None => "--:--".to_owned(),
    }
}

/// A 64-bit number has at most 20 decimal places.
pub proof fn lemma_decimal_len(n: nat)
    requires
        n <= u64::MAX,
    ensures
        1 <= decimal(n).len() <= 20,
        2 <= decimal2(n).len() <= 20,
        n < 100 ==> decimal2(n).len() == 2,
{
    reveal_with_fuel(power_of_ten, 21);
    lemma_decimal_len_within(n, 20, 100_000_000_000_000_000_000);
    if 10 <= n {
        assert(decimal(n).len() == decimal(n / 10).len() + 1);
    }
    if n < 100 && 10 <= n {
        assert(decimal(n / 10).len() == 1);
    }
}

proof fn lemma_decimal_len_within(n: nat, places: nat, limit: nat)
    requires
        places >= 1,
        n < limit,
        limit == power_of_ten(places),
    ensures
        1 <= decimal(n).len() <= places,
    decreases places,
{
    if n >= 10 {
        if places == 1 {
            assert(power_of_ten(1) == 10 * power_of_ten(0));
        } else {
            lemma_decimal_len_within(n / 10, (places - 1) as nat, limit / 10);
        }
    }
}

spec fn power_of_ten(n: nat) -> nat
    decreases n,
{
    if n == 0 {
        1
    } else {
        10 * power_of_ten((n - 1) as nat)
    }
}

/// A clock text has at least five and at most 26 characters.
pub proof fn lemma_clock_len(secs: nat)
    requires
        secs <= u64::MAX,
    ensures
        5 <= clock(secs).len() <= 26,
{
    reveal_strlit(":");
    lemma_decimal_len(secs / 3600);
    lemma_decimal_len((secs % 3600) / 60);
    lemma_decimal_len(secs % 60);
}

/// Repeating multiplies the length.
pub proof fn lemma_repeated_len(unit: Seq<char>, n: nat)
    ensures
        repeated(unit, n).len() == unit.len() * n,
    decreases n,
{
    if n > 0 {
        lemma_repeated_len(unit, (n - 1) as nat);
        assert(unit.len() * n == unit.len() * (n - 1) as nat + unit.len()) by (nonlinear_arith)
            requires
                n > 0,
        ;
    } else {
        assert(unit.len() * 0 == 0) by (nonlinear_arith);
    }
}

} // verus!
