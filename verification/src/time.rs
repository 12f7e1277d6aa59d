//! Wall-clock timestamps: capture as plain calendar fields, and verified
//! rendering as `YYYY-MM-DD HH:MM:SS`.

use vstd::prelude::*;
use chrono::Datelike;
use chrono::Timelike;

verus! {

/// A local wall-clock time, split into plain calendar fields with second
/// precision.
pub struct Timestamp {
    pub year: i32,
    pub month: u32,
    pub day: u32,
    pub hour: u32,
    pub minute: u32,
    pub second: u32,
}

impl Timestamp {
    /// The field ranges of a calendar time. The year is unconstrained.
    pub open spec fn wf(self) -> bool {
        &&& 1 <= self.month <= 12
        &&& 1 <= self.day <= 31
        &&& self.hour < 24
        &&& self.minute < 60
        &&& self.second < 60
    }
}

/// Relies on chrono's `Local::now` and its `Datelike`/`Timelike` accessors:
/// the current local wall-clock time as plain calendar fields. chrono
/// documents the month as ranging over 1 to 12, the day over 1 to 31, the
/// hour over 0 to 23, and the minute and the second over 0 to 59; it promises
/// nothing of the year.
#[verifier::external_body]
pub fn now() -> (r: Timestamp)
    ensures
        r.wf(),
{
    let t = chrono::Local::now();
    Timestamp {
        year: t.year(),
        month: t.month(),
        day: t.day(),
        hour: t.hour(),
        minute: t.minute(),
        second: t.second(),
    }
}

/// Whether `c` is a decimal digit.
pub open spec fn is_digit(c: char) -> bool {
    '0' <= c && c <= '9'
}

/// The character for a single decimal digit.
pub open spec fn digit_char(d: int) -> char {
    if d == 0 { '0' }
    else if d == 1 { '1' }
    else if d == 2 { '2' }
    else if d == 3 { '3' }
    else if d == 4 { '4' }
    else if d == 5 { '5' }
    else if d == 6 { '6' }
    else if d == 7 { '7' }
    else if d == 8 { '8' }
    else { '9' }
}

/// The decimal digits of `n`, most significant first, with no leading zeros.
pub open spec fn dec_rep(n: nat) -> Seq<char>
    decreases n,
{
    if n < 10 {
        seq![digit_char(n as int)]
    } else {
        dec_rep(n / 10) + seq![digit_char((n % 10) as int)]
    }
}

/// `s` left-padded with `'0'` to at least `width` characters.
pub open spec fn zero_pad(s: Seq<char>, width: int) -> Seq<char> {
    if s.len() >= width {
        s
    } else {
        Seq::new((width - s.len()) as nat, |i: int| '0') + s
    }
}

/// A nonnegative number rendered as exactly two digits (for values below
/// one hundred).
pub open spec fn pad2(n: int) -> Seq<char> {
    zero_pad(dec_rep(n as nat), 2)
}

/// A year rendered as chrono's `%Y` renders it: zero-padded to at least four
/// digits, with a leading minus sign when negative.
pub open spec fn spec_year(y: int) -> Seq<char> {
    if y >= 0 {
        zero_pad(dec_rep(y as nat), 4)
    } else {
        seq!['-'] + zero_pad(dec_rep((-y) as nat), 4)
    }
}

/// The rendering `YYYY-MM-DD HH:MM:SS` of a calendar time.
pub open spec fn spec_timestamp(ts: Timestamp) -> Seq<char> {
    spec_year(ts.year as int) + seq!['-'] + pad2(ts.month as int) + seq!['-'] + pad2(
        ts.day as int,
    ) + seq![' '] + pad2(ts.hour as int) + seq![':'] + pad2(ts.minute as int) + seq![':'] + pad2(
        ts.second as int,
    )
}

/// How many digits `dec_rep` yields for small numbers.
pub proof fn lemma_dec_rep_len(n: nat)
    ensures
        n < 10 ==> dec_rep(n).len() == 1,
        10 <= n < 100 ==> dec_rep(n).len() == 2,
        100 <= n < 1000 ==> dec_rep(n).len() == 3,
        1000 <= n < 10000 ==> dec_rep(n).len() == 4,
        dec_rep(n).len() >= 1,
        n >= 10 ==> dec_rep(n).len() >= 2,
        n >= 100 ==> dec_rep(n).len() >= 3,
        n >= 1000 ==> dec_rep(n).len() >= 4,
    decreases n,
{
    if n >= 10 {
        lemma_dec_rep_len(n / 10);
    }
}

/// Every character of `dec_rep(n)` is a decimal digit.
pub proof fn lemma_dec_rep_digits(n: nat)
    ensures
        forall|i: int| 0 <= i < dec_rep(n).len() ==> is_digit(#[trigger] dec_rep(n)[i]),
    decreases n,
{
    assert(forall|d: int| is_digit(#[trigger] digit_char(d)));
    if n < 10 {
        assert(dec_rep(n)[0] == digit_char(n as int));
    } else {
        lemma_dec_rep_digits(n / 10);
        assert(dec_rep(n) == dec_rep(n / 10) + seq![digit_char((n % 10) as int)]);
        assert forall|i: int| 0 <= i < dec_rep(n).len() implies is_digit(
            #[trigger] dec_rep(n)[i],
        ) by {
            if i < dec_rep(n / 10).len() {
                assert(dec_rep(n)[i] == dec_rep(n / 10)[i]);
            } else {
                assert(dec_rep(n)[i] == digit_char((n % 10) as int));
            }
        }
    }
}

/// Zero-padding a digit string yields a digit string of the padded length.
pub proof fn lemma_zero_pad_digits(s: Seq<char>, width: int)
    requires
        forall|i: int| 0 <= i < s.len() ==> is_digit(#[trigger] s[i]),
    ensures
        zero_pad(s, width).len() == if s.len() >= width { s.len() as int } else { width },
        forall|i: int| 0 <= i < zero_pad(s, width).len() ==> is_digit(
            #[trigger] zero_pad(s, width)[i],
        ),
{
}

fn append_digit(s: &mut String, d: u32)
    requires
        d < 10,
    ensures
        final(s)@ == old(s)@ + seq![digit_char(d as int)],
{
    match d {
        0 => {
            s.append("0");
            proof { reveal_strlit("0"); assert("0"@ =~= seq![digit_char(0)]); }
        },
        1 => {
            s.append("1");
            proof { reveal_strlit("1"); assert("1"@ =~= seq![digit_char(1)]); }
        },
        2 => {
            s.append("2");
            proof { reveal_strlit("2"); assert("2"@ =~= seq![digit_char(2)]); }
        },
        3 => {
            s.append("3");
            proof { reveal_strlit("3"); assert("3"@ =~= seq![digit_char(3)]); }
        },
        4 => {
            s.append("4");
            proof { reveal_strlit("4"); assert("4"@ =~= seq![digit_char(4)]); }
        },
        5 => {
            s.append("5");
            proof { reveal_strlit("5"); assert("5"@ =~= seq![digit_char(5)]); }
        },
        6 => {
            s.append("6");
            proof { reveal_strlit("6"); assert("6"@ =~= seq![digit_char(6)]); }
        },
        7 => {
            s.append("7");
            proof { reveal_strlit("7"); assert("7"@ =~= seq![digit_char(7)]); }
        },
        8 => {
            s.append("8");
            proof { reveal_strlit("8"); assert("8"@ =~= seq![digit_char(8)]); }
        },
        _ => {
            s.append("9");
            proof { reveal_strlit("9"); assert("9"@ =~= seq![digit_char(9)]); }
        },
    }
}

fn append_dec(s: &mut String, n: u32)
    ensures
        final(s)@ == old(s)@ + dec_rep(n as nat),
    decreases n,
{
    if n < 10 {
        append_digit(s, n);
    } else {
        append_dec(s, n / 10);
        append_digit(s, n % 10);
        proof {
            assert(final(s)@ =~= old(s)@ + dec_rep(n as nat));
        }
    }
}

fn append_pad2(s: &mut String, n: u32)
    requires
        n < 100,
    ensures
        final(s)@ == old(s)@ + pad2(n as int),
{
    if n < 10 {
        s.append("0");
        append_digit(s, n);
        proof {
            reveal_strlit("0");
            lemma_dec_rep_len(n as nat);
            assert(pad2(n as int) =~= "0"@ + seq![digit_char(n as int)]);
            assert(final(s)@ =~= old(s)@ + pad2(n as int));
        }
    } else {
        append_dec(s, n);
        proof {
            lemma_dec_rep_len(n as nat);
        }
    }
}

fn append_pad4(s: &mut String, n: u32)
    ensures
        final(s)@ == old(s)@ + zero_pad(dec_rep(n as nat), 4),
{
    proof {
        lemma_dec_rep_len(n as nat);
    }
    if n < 10 {
        s.append("000");
        append_digit(s, n);
        proof {
            reveal_strlit("000");
            assert(zero_pad(dec_rep(n as nat), 4) =~= "000"@ + seq![digit_char(n as int)]);
            assert(final(s)@ =~= old(s)@ + zero_pad(dec_rep(n as nat), 4));
        }
    } else if n < 100 {
        s.append("00");
        append_dec(s, n);
        proof {
            reveal_strlit("00");
            assert(zero_pad(dec_rep(n as nat), 4) =~= "00"@ + dec_rep(n as nat));
            assert(final(s)@ =~= old(s)@ + zero_pad(dec_rep(n as nat), 4));
        }
    } else if n < 1000 {
        s.append("0");
        append_dec(s, n);
        proof {
            reveal_strlit("0");
            assert(zero_pad(dec_rep(n as nat), 4) =~= "0"@ + dec_rep(n as nat));
            assert(final(s)@ =~= old(s)@ + zero_pad(dec_rep(n as nat), 4));
        }
    } else {
        append_dec(s, n);
    }
}

fn append_year(s: &mut String, y: i32)
    ensures
        final(s)@ == old(s)@ + spec_year(y as int),
{
    if y >= 0 {
        let m: u32 = y as u32;
        assert(m == y as int);
        append_pad4(s, m);
    } else {
        s.append("-");
        let neg: i64 = -(y as i64);
        assert(0 < neg <= 0x8000_0000i64);
        let m: u32 = neg as u32;
        assert(m == -(y as int));
        append_pad4(s, m);
        proof {
            reveal_strlit("-");
            assert(spec_year(y as int) =~= "-"@ + zero_pad(dec_rep(m as nat), 4));
            assert(final(s)@ =~= old(s)@ + spec_year(y as int));
        }
    }
}

/// The shape of a rendered timestamp: nineteen characters, digits and
/// separators exactly as in `YYYY-MM-DD HH:MM:SS`.
pub open spec fn is_timestamp_chars(s: Seq<char>) -> bool {
    &&& s.len() == 19
    &&& is_digit(s[0]) && is_digit(s[1]) && is_digit(s[2]) && is_digit(s[3])
    &&& s[4] == '-'
    &&& is_digit(s[5]) && is_digit(s[6])
    &&& s[7] == '-'
    &&& is_digit(s[8]) && is_digit(s[9])
    &&& s[10] == ' '
    &&& is_digit(s[11]) && is_digit(s[12])
    &&& s[13] == ':'
    &&& is_digit(s[14]) && is_digit(s[15])
    &&& s[16] == ':'
    &&& is_digit(s[17]) && is_digit(s[18])
}

/// For years with at most four digits, the rendering of a calendar time has
/// exactly the `YYYY-MM-DD HH:MM:SS` shape. A five-digit year (10000 and
/// beyond) or a negative year widens the year field instead.
pub proof fn lemma_timestamp_chars(ts: Timestamp)
    requires
        ts.wf(),
        0 <= ts.year <= 9999,
    ensures
        is_timestamp_chars(spec_timestamp(ts)),
{
    lemma_dec_rep_len(ts.year as nat);
    lemma_dec_rep_digits(ts.year as nat);
    lemma_zero_pad_digits(dec_rep(ts.year as nat), 4);
    lemma_dec_rep_len(ts.month as nat);
    lemma_dec_rep_digits(ts.month as nat);
    lemma_zero_pad_digits(dec_rep(ts.month as nat), 2);
    lemma_dec_rep_len(ts.day as nat);
    lemma_dec_rep_digits(ts.day as nat);
    lemma_zero_pad_digits(dec_rep(ts.day as nat), 2);
    lemma_dec_rep_len(ts.hour as nat);
    lemma_dec_rep_digits(ts.hour as nat);
    lemma_zero_pad_digits(dec_rep(ts.hour as nat), 2);
    lemma_dec_rep_len(ts.minute as nat);
    lemma_dec_rep_digits(ts.minute as nat);
    lemma_zero_pad_digits(dec_rep(ts.minute as nat), 2);
    lemma_dec_rep_len(ts.second as nat);
    lemma_dec_rep_digits(ts.second as nat);
    lemma_zero_pad_digits(dec_rep(ts.second as nat), 2);
    assert(spec_timestamp(ts).len() == 19);
    assert(is_timestamp_chars(spec_timestamp(ts)));
}

/// Renders a calendar time as `YYYY-MM-DD HH:MM:SS`.
pub fn format_timestamp(ts: &Timestamp) -> (r: String)
    requires
        ts.wf(),
    ensures
        r@ == spec_timestamp(*ts),
{
    let mut s = String::new();
    append_year(&mut s, ts.year);
    s.append("-");
    append_pad2(&mut s, ts.month);
    s.append("-");
    append_pad2(&mut s, ts.day);
    s.append(" ");
    append_pad2(&mut s, ts.hour);
    s.append(":");
    append_pad2(&mut s, ts.minute);
    s.append(":");
    append_pad2(&mut s, ts.second);
    proof {
        reveal_strlit("-");
        reveal_strlit(" ");
        reveal_strlit(":");
        assert(s@ =~= spec_timestamp(*ts));
    }
    s
}

} // verus!
