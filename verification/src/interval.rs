use vstd::prelude::*;
use vstd::string::StrSliceExecFns;

verus! {

/// Unicode `White_Space` (the property behind `char::is_whitespace`).
pub open spec fn is_white_space(c: char) -> bool {
    let u = c as u32;
    ||| 0x9 <= u && u <= 0xD
    ||| u == 0x20 || u == 0x85 || u == 0xA0 || u == 0x1680
    ||| 0x2000 <= u && u <= 0x200A
    ||| u == 0x2028 || u == 0x2029 || u == 0x202F || u == 0x205F || u == 0x3000
}

/// `s` without its leading white space.
pub open spec fn trim_start_spec(s: Seq<char>) -> Seq<char>
    decreases s.len(),
{
    if s.len() > 0 && is_white_space(s[0]) {
        trim_start_spec(s.drop_first())
    } else {
        s
    }
}

/// `s` without its trailing white space.
pub open spec fn trim_end_spec(s: Seq<char>) -> Seq<char>
    decreases s.len(),
{
    if s.len() > 0 && is_white_space(s.last()) {
        trim_end_spec(s.drop_last())
    } else {
        s
    }
}

/// `s` without leading and trailing white space.
pub open spec fn trim_spec(s: Seq<char>) -> Seq<char> {
    trim_end_spec(trim_start_spec(s))
}

/// Calls `str::trim`, which removes the leading and trailing characters that
/// have the Unicode `White_Space` property and gives back the rest.
#[verifier::external_body]
fn trim(s: &str) -> (t: &str)
    ensures
        t@ == trim_spec(s@),
{
    s.trim()
}

pub open spec fn is_ascii_digit(c: char) -> bool {
    48 <= (c as u32) && (c as u32) <= 57
}

pub open spec fn digit_value(c: char) -> nat {
    ((c as u32) - 48) as nat
}

/// The number that a string of decimal digits writes.
pub open spec fn digits_value(s: Seq<char>) -> nat
    decreases s.len(),
{
    if s.len() == 0 {
        0
    } else {
        digits_value(s.drop_last()) * 10 + digit_value(s.last())
    }
}

pub open spec fn all_digits(s: Seq<char>) -> bool {
    forall|i: int| 0 <= i < s.len() ==> is_ascii_digit(#[trigger] s[i])
}

/// The digits of an unsigned number: an optional single leading `+` is dropped.
pub open spec fn unsigned_digits(s: Seq<char>) -> Seq<char> {
    if s.len() > 0 && s[0] == '+' {
        s.drop_first()
    } else {
        s
    }
}

/// What `str::parse::<u64>` gives: the value of a non-empty run of ASCII
/// digits, after an optional `+`, when it fits in a `u64`.
pub open spec fn parse_u64_spec(s: Seq<char>) -> Option<u64> {
    let d = unsigned_digits(s);
    if d.len() > 0 && all_digits(d) && digits_value(d) <= u64::MAX {
        Some(digits_value(d) as u64)
    } else {
        None
    }
}

/// The parsed number, or `default` when the text is not a `u64`.
pub open spec fn parse_or(s: Seq<char>, default: nat) -> nat {
    match parse_u64_spec(s) {
        Some(v) => v as nat,
        None => default,
    }
}

/// Seconds in a (trimmed) candle interval such as `5m`, `1h` or `1d`: a count
/// followed by a unit letter; a count that does not parse counts as 5 for
/// minutes and 1 for hours and days; anything else is 5 minutes.
pub open spec fn interval_secs_spec(t: Seq<char>) -> nat {
    if t.len() > 0 && t.last() == 'm' {
        parse_or(t.drop_last(), 5) * 60
    } else if t.len() > 0 && t.last() == 'h' {
        parse_or(t.drop_last(), 1) * 3600
    } else if t.len() > 0 && t.last() == 'd' {
        parse_or(t.drop_last(), 1) * 86400
    } else {
        300
    }
}

/// Decimal digits read left to right: one digit is its own value, and each
/// further digit multiplies what came before by ten and adds itself.
pub proof fn lemma_digits_value_steps(d: Seq<char>, c: char)
    requires
        is_ascii_digit(c),
    ensures
        digits_value(seq![c]) == (c as u32) - 48,
        digits_value(d.push(c)) == digits_value(d) * 10 + ((c as u32) - 48),
        digits_value(Seq::<char>::empty()) == 0,
{
    assert(digits_value(Seq::<char>::empty()) == 0);
    assert(seq![c].drop_last() =~= Seq::<char>::empty());
    assert(seq![c].last() == c);
    assert(digits_value(seq![c]) == digits_value(seq![c].drop_last()) * 10 + digit_value(c));
    assert(d.push(c).drop_last() =~= d);
}

/// `u64` parsing: a non-empty run of ASCII digits, after at most one `+`,
/// parses to its value when that fits; a run holding a non-digit, an empty
/// run, or a value past `u64::MAX` does not parse.
pub proof fn lemma_parse_u64(d: Seq<char>)
    ensures
        d.len() > 0 && all_digits(d) && digits_value(d) <= u64::MAX
            ==> parse_u64_spec(d) == Some(digits_value(d) as u64)
                && parse_u64_spec(seq!['+'] + d) == Some(digits_value(d) as u64),
        d.len() == 0 ==> parse_u64_spec(d) is None && parse_u64_spec(seq!['+'] + d) is None,
        (exists|i: int| 0 <= i < d.len() && !is_ascii_digit(#[trigger] d[i]))
            ==> parse_u64_spec(seq!['+'] + d) is None,
        all_digits(d) && digits_value(d) > u64::MAX ==> parse_u64_spec(d) is None,
{
    assert((seq!['+'] + d).drop_first() =~= d);
    if d.len() > 0 {
        assert((seq!['+'] + d)[0] == '+');
    }
    if d.len() > 0 && all_digits(d) {
        assert(is_ascii_digit(d[0]));
        assert(unsigned_digits(d) == d);
    }
    if exists|i: int| 0 <= i < d.len() && !is_ascii_digit(#[trigger] d[i]) {
        let i = choose|i: int| 0 <= i < d.len() && !is_ascii_digit(#[trigger] d[i]);
        assert(unsigned_digits(seq!['+'] + d)[i] == d[i]);
    }
}

/// The whole count before the unit letter is the count: for any non-empty
/// run of ASCII digits whose value fits in a `u64`, the interval made of those
/// digits and `m`, `h` or `d` is that many minutes, hours or days.
pub proof fn lemma_count_then_unit(d: Seq<char>)
    requires
        d.len() > 0,
        all_digits(d),
        digits_value(d) <= u64::MAX,
    ensures
        interval_secs_spec(d.push('m')) == digits_value(d) * 60,
        interval_secs_spec(d.push('h')) == digits_value(d) * 3600,
        interval_secs_spec(d.push('d')) == digits_value(d) * 86400,
{
    assert(is_ascii_digit(d[0]));
    assert(unsigned_digits(d) == d);
    assert(parse_u64_spec(d) == Some(digits_value(d) as u64));
    assert(d.push('m').drop_last() =~= d);
    assert(d.push('h').drop_last() =~= d);
    assert(d.push('d').drop_last() =~= d);
}

proof fn lemma_digits_prefix_le(s: Seq<char>, k: int)
    requires
        all_digits(s),
        0 <= k <= s.len(),
    ensures
        digits_value(s.take(k)) <= digits_value(s),
    decreases s.len(),
{
    if k < s.len() {
        assert(s.drop_last().take(k) =~= s.take(k));
        lemma_digits_prefix_le(s.drop_last(), k);
    } else {
        assert(s.take(k) =~= s);
    }
}

/// Parse the first `end` characters of `s` as a `u64`, as `str::parse` does.
fn parse_u64_prefix(s: &str, end: usize) -> (r: Option<u64>)
    requires
        end <= s@.len(),
    ensures
        r == parse_u64_spec(s@.subrange(0, end as int)),
{
    let ghost full = s@.subrange(0, end as int);
    let mut start: usize = 0;
    if end > 0 && s.get_char(0) == '+' {
        start = 1;
    }
    let ghost d = s@.subrange(start as int, end as int);
    assert(unsigned_digits(full) =~= d);
    if start == end {
        return None;
    }
    let mut acc: u64 = 0;
    let mut i: usize = start;
    assert(s@.subrange(start as int, start as int) =~= Seq::<char>::empty());
    while i < end
        invariant
            start <= i <= end,
            end <= s@.len(),
            d == s@.subrange(start as int, end as int),
            full == s@.subrange(0, end as int),
            unsigned_digits(full) == d,
            acc == digits_value(s@.subrange(start as int, i as int)),
            all_digits(s@.subrange(start as int, i as int)),
        decreases end - i,
    {
        let c = s.get_char(i);
        let code = c as u32;
        if code < 48 || code > 57 {
            assert(d[i - start] == c);
            assert(!is_ascii_digit(c));
            assert(!all_digits(d));
            return None;
        }
        let digit: u64 = (code - 48) as u64;
        let ghost next = s@.subrange(start as int, i + 1);
        assert(next.drop_last() =~= s@.subrange(start as int, i as int));
        assert(next.last() == c);
        assert(all_digits(next));
        if acc > (u64::MAX - digit) / 10 {
            proof {
                if all_digits(d) {
                    assert(d.take(i + 1 - start) =~= next);
                    lemma_digits_prefix_le(d, i + 1 - start);
                }
            }
            return None;
        }
        acc = acc * 10 + digit;
        i = i + 1;
    }
    Some(acc)
}

/// Seconds in an interval string like "1m", "5m", "15m", "1h" or "1d", or
/// `None` when that number of seconds does not fit in a `u64`.
///
/// Surrounding white space is ignored. A count that does not parse falls back
/// to 5 for minutes and 1 for hours and days; any other text means 5 minutes.
pub fn checked_interval_secs(interval: &str) -> (r: Option<u64>)
    ensures
        match r {
            Some(secs) => secs == interval_secs_spec(trim_spec(interval@)),
            None => interval_secs_spec(trim_spec(interval@)) > u64::MAX,
        },
        // a count of digits followed by a unit is that many units
        forall|d: Seq<char>| #![trigger d.push('m')]
            trim_spec(interval@) == d.push('m') && d.len() > 0 && all_digits(d)
                && digits_value(d) * 60 <= u64::MAX ==> r == Some((digits_value(d) * 60) as u64),
        forall|d: Seq<char>| #![trigger d.push('h')]
            trim_spec(interval@) == d.push('h') && d.len() > 0 && all_digits(d)
                && digits_value(d) * 3600 <= u64::MAX ==> r == Some((digits_value(d) * 3600) as u64),
        forall|d: Seq<char>| #![trigger d.push('d')]
            trim_spec(interval@) == d.push('d') && d.len() > 0 && all_digits(d)
                && digits_value(d) * 86400 <= u64::MAX ==> r == Some((digits_value(d) * 86400) as u64),
        // text without a unit letter at its end is five minutes
        (trim_spec(interval@).len() == 0 || (trim_spec(interval@).last() != 'm'
            && trim_spec(interval@).last() != 'h' && trim_spec(interval@).last() != 'd'))
            ==> r == Some(300u64),
        // a count that does not parse falls back to 5 minutes, 1 hour or 1 day
        forall|c: Seq<char>| #![trigger c.push('m')]
            trim_spec(interval@) == c.push('m') && parse_u64_spec(c) is None ==> r == Some(300u64),
        forall|c: Seq<char>| #![trigger c.push('h')]
            trim_spec(interval@) == c.push('h') && parse_u64_spec(c) is None ==> r == Some(3600u64),
        forall|c: Seq<char>| #![trigger c.push('d')]
            trim_spec(interval@) == c.push('d') && parse_u64_spec(c) is None ==> r == Some(86400u64),
        // ... and does not fit when the count fits but the seconds do not
        forall|d: Seq<char>| #![trigger d.push('h')]
            trim_spec(interval@) == d.push('h') && d.len() > 0 && all_digits(d)
                && digits_value(d) <= u64::MAX && digits_value(d) * 3600 > u64::MAX ==> r is None,
{
    proof {
        assert forall|c: Seq<char>| #![trigger c.push('m')]
            trim_spec(interval@) == c.push('m') implies c.push('m').drop_last() == c by {
            assert(c.push('m').drop_last() =~= c);
        }
        assert forall|c: Seq<char>| #![trigger c.push('h')]
            trim_spec(interval@) == c.push('h') implies c.push('h').drop_last() == c by {
            assert(c.push('h').drop_last() =~= c);
        }
        assert forall|c: Seq<char>| #![trigger c.push('d')]
            trim_spec(interval@) == c.push('d') implies c.push('d').drop_last() == c by {
            assert(c.push('d').drop_last() =~= c);
        }
    }
    proof {
        assert forall|d: Seq<char>| #![trigger d.push('m')]
            d.len() > 0 && all_digits(d) && digits_value(d) <= u64::MAX
            implies interval_secs_spec(d.push('m')) == digits_value(d) * 60 by {
            lemma_count_then_unit(d);
        }
        assert forall|d: Seq<char>| #![trigger d.push('h')]
            d.len() > 0 && all_digits(d) && digits_value(d) <= u64::MAX
            implies interval_secs_spec(d.push('h')) == digits_value(d) * 3600 by {
            lemma_count_then_unit(d);
        }
        assert forall|d: Seq<char>| #![trigger d.push('d')]
            d.len() > 0 && all_digits(d) && digits_value(d) <= u64::MAX
            implies interval_secs_spec(d.push('d')) == digits_value(d) * 86400 by {
            lemma_count_then_unit(d);
        }
    }
    let s = trim(interval);
    let n = s.unicode_len();
    if n > 0 {
        let last = s.get_char(n - 1);
        let ghost rest = s@.subrange(0, n - 1);
        assert(rest =~= s@.drop_last());
        if last == 'm' {
            let count: u64 = match parse_u64_prefix(s, n - 1) {
                Some(v) => v,
                None => 5,
            };
            return count.checked_mul(60);
        } else if last == 'h' {
            let count: u64 = match parse_u64_prefix(s, n - 1) {
                Some(v) => v,
                None => 1,
            };
            return count.checked_mul(3600);
        } else if last == 'd' {
            let count: u64 = match parse_u64_prefix(s, n - 1) {
                Some(v) => v,
                None => 1,
            };
            return count.checked_mul(86400);
        }
    }
    Some(300)
}

/// Parse an interval string like "1m", "5m", "15m", "1h" or "1d" into seconds.
///
/// Surrounding white space is ignored. A count that does not parse falls back
/// to 5 for minutes and 1 for hours and days; any other text means 5 minutes.
/// The number of seconds must fit in a `u64`.
pub fn parse_interval_secs(interval: &str) -> (secs: u64)
    requires
        interval_secs_spec(trim_spec(interval@)) <= u64::MAX,
    ensures
        secs == interval_secs_spec(trim_spec(interval@)),
        // a count of digits followed by a unit is that many units
        forall|d: Seq<char>| #![trigger d.push('m')]
            trim_spec(interval@) == d.push('m') && d.len() > 0 && all_digits(d)
                && digits_value(d) <= u64::MAX ==> secs == digits_value(d) * 60,
        forall|d: Seq<char>| #![trigger d.push('h')]
            trim_spec(interval@) == d.push('h') && d.len() > 0 && all_digits(d)
                && digits_value(d) <= u64::MAX ==> secs == digits_value(d) * 3600,
        forall|d: Seq<char>| #![trigger d.push('d')]
            trim_spec(interval@) == d.push('d') && d.len() > 0 && all_digits(d)
                && digits_value(d) <= u64::MAX ==> secs == digits_value(d) * 86400,
{
    proof {
        assert forall|d: Seq<char>| #![trigger d.push('m')]
            d.len() > 0 && all_digits(d) && digits_value(d) <= u64::MAX
            implies interval_secs_spec(d.push('m')) == digits_value(d) * 60 by {
            lemma_count_then_unit(d);
        }
        assert forall|d: Seq<char>| #![trigger d.push('h')]
            d.len() > 0 && all_digits(d) && digits_value(d) <= u64::MAX
            implies interval_secs_spec(d.push('h')) == digits_value(d) * 3600 by {
            lemma_count_then_unit(d);
        }
        assert forall|d: Seq<char>| #![trigger d.push('d')]
            d.len() > 0 && all_digits(d) && digits_value(d) <= u64::MAX
            implies interval_secs_spec(d.push('d')) == digits_value(d) * 86400 by {
            lemma_count_then_unit(d);
        }
    }
    match checked_interval_secs(interval) {
        Some(secs) => secs,
        None => {
            proof {
                assert(false);
            }
            0
        },
    }
}

} // verus!
