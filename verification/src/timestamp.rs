use vstd::prelude::*;

verus! {

broadcast use vstd::string::axiom_spec_iter;

/// The characters with the Unicode `White_Space` property.
pub open spec fn is_unicode_white_space(c: char) -> bool {
    let u = c as int;
    ||| 0x09 <= u <= 0x0D
    ||| u == 0x20
    ||| u == 0x85
    ||| u == 0xA0
    ||| u == 0x1680
    ||| 0x2000 <= u <= 0x200A
    ||| u == 0x2028
    ||| u == 0x2029
    ||| u == 0x202F
    ||| u == 0x205F
    ||| u == 0x3000
}

pub open spec fn trim_start_spec(s: Seq<char>) -> Seq<char>
    decreases s.len(),
{
    if s.len() > 0 && is_unicode_white_space(s[0]) {
        trim_start_spec(s.drop_first())
    } else {
        s
    }
}

pub open spec fn trim_end_spec(s: Seq<char>) -> Seq<char>
    decreases s.len(),
{
    if s.len() > 0 && is_unicode_white_space(s.last()) {
        trim_end_spec(s.drop_last())
    } else {
        s
    }
}

/// `s` without its leading and trailing white space.
pub open spec fn trim_spec(s: Seq<char>) -> Seq<char> {
    trim_end_spec(trim_start_spec(s))
}

/// `str::trim`: the text without leading and trailing characters of the
/// Unicode `White_Space` property, as std documents it.
#[verifier::external_body]
fn trim_text(s: &str) -> (t: &str)
    ensures
        t@ == trim_spec(s@),
{
    s.trim()
}

/// The instant an RFC 3339 date-time text denotes, in milliseconds since the
/// Unix epoch, or `None` where the text is no RFC 3339 date-time.
pub uninterp spec fn rfc3339_millis(s: Seq<char>) -> Option<i64>;

/// `chrono::DateTime::parse_from_rfc3339` followed by `timestamp_millis`.
/// The contract only names the result as a function of the text: which
/// texts parse and the instant they denote are chrono's and are not
/// restated here.
#[verifier::external_body]
fn rfc3339_timestamp_millis(s: &str) -> (millis: Option<i64>)
    ensures
        millis == rfc3339_millis(s@),
{
    match chrono::DateTime::parse_from_rfc3339(s) {
        Ok(dt) => Some(dt.timestamp_millis()),
        Err(_) => None,
    }
}

pub open spec fn is_ascii_digit(c: char) -> bool {
    '0' <= c <= '9'
}

pub open spec fn all_digits(s: Seq<char>) -> bool {
    forall|k: int| 0 <= k < s.len() ==> is_ascii_digit(#[trigger] s[k])
}

/// The value of a string of decimal digits, most significant first.
pub open spec fn digits_value(s: Seq<char>) -> int
    decreases s.len(),
{
    if s.len() == 0 {
        0
    } else {
        digits_value(s.drop_last()) * 10 + (s.last() as int - '0' as int)
    }
}

pub open spec fn has_sign(s: Seq<char>) -> bool {
    s.len() > 0 && (s[0] == '-' || s[0] == '+')
}

pub open spec fn unsigned_digits(s: Seq<char>) -> Seq<char> {
    if has_sign(s) {
        s.skip(1)
    } else {
        s
    }
}

/// The signed decimal integer a text denotes, as `i64::from_str` reads it:
/// an optional `+` or `-` followed by one or more ASCII digits, with a value
/// in the range of `i64`; `None` for any other text.
pub open spec fn decimal_i64(s: Seq<char>) -> Option<i64> {
    let body = unsigned_digits(s);
    let magnitude = digits_value(body);
    let value = if s.len() > 0 && s[0] == '-' {
        -magnitude
    } else {
        magnitude
    };
    if body.len() == 0 || !all_digits(body) {
        None
    } else if i64::MIN <= value <= i64::MAX {
        Some(value as i64)
    } else {
        None
    }
}

/// The open time a text denotes: the text is trimmed, read as a decimal
/// integer in its own unit, or else as an RFC 3339 date-time in milliseconds.
pub open spec fn open_time_from_text(s: Seq<char>) -> Option<i64> {
    let t = trim_spec(s);
    match decimal_i64(t) {
        Some(v) => Some(v),
        None => rfc3339_millis(t),
    }
}

proof fn lemma_digits_value_nonneg(s: Seq<char>)
    requires
        all_digits(s),
    ensures
        digits_value(s) >= 0,
    decreases s.len(),
{
    if s.len() > 0 {
        assert(all_digits(s.drop_last())) by {
            assert forall|k: int| 0 <= k < s.drop_last().len() implies is_ascii_digit(
                #[trigger] s.drop_last()[k],
            ) by {
                assert(s.drop_last()[k] == s[k]);
            }
        }
        lemma_digits_value_nonneg(s.drop_last());
        assert(is_ascii_digit(s[s.len() - 1]));
    }
}

fn text_chars(s: &str) -> (chars: Vec<char>)
    ensures
        chars@ == s@,
{
    let mut chars: Vec<char> = Vec::new();
    for c in it: s.chars()
        invariant
            it.seq() == s@,
            chars@ == it.seq().take(it.index() as int),
    {
        chars.push(c);
        proof {
            assert(chars@ =~= it.seq().take(it.index() as int + 1));
        }
    }
    proof {
        assert(chars@ =~= s@);
    }
    chars
}

/// Reads a signed decimal integer from `s` exactly as `decimal_i64` states.
pub fn parse_decimal_i64(s: &[char]) -> (value: Option<i64>)
    ensures
        value == decimal_i64(s@),
{
    let n = s.len();
    let neg = n > 0 && s[0] == '-';
    let start: usize = if n > 0 && (s[0] == '-' || s[0] == '+') {
        1
    } else {
        0
    };
    let ghost body = unsigned_digits(s@);
    proof {
        assert(body =~= s@.subrange(start as int, n as int));
    }
    if start == n {
        return None;
    }
    // magnitudes at or above `cap` leave the range of `i64` for either sign
    let cap: i128 = 9223372036854775809;
    let mut acc: i128 = 0;
    let mut i: usize = start;
    proof {
        assert(s@.subrange(start as int, start as int) =~= Seq::<char>::empty());
    }
    while i < n
        invariant
            start <= i <= n,
            n == s@.len(),
            body == s@.subrange(start as int, n as int),
            body == unsigned_digits(s@),
            all_digits(s@.subrange(start as int, i as int)),
            0 <= acc <= cap,
            cap == 9223372036854775809,
            acc == (if digits_value(s@.subrange(start as int, i as int)) >= cap {
                cap as int
            } else {
                digits_value(s@.subrange(start as int, i as int))
            }),
        decreases n - i,
    {
        let c = s[i];
        let ghost prefix = s@.subrange(start as int, i as int);
        let ghost next = s@.subrange(start as int, i + 1);
        proof {
            assert(next.drop_last() =~= prefix);
            assert(next.last() == c);
        }
        if !('0' <= c && c <= '9') {
            proof {
                assert(body[i - start] == c);
                assert(!all_digits(body));
            }
            return None;
        }
        proof {
            assert(all_digits(next)) by {
                assert forall|k: int| 0 <= k < next.len() implies is_ascii_digit(#[trigger] next[k]) by {
                    if k < next.len() - 1 {
                        assert(next[k] == prefix[k]);
                    }
                }
            }
            lemma_digits_value_nonneg(prefix);
        }
        let d: i128 = (c as u32 - '0' as u32) as i128;
        if acc >= cap {
            acc = cap;
        } else {
            let grown = acc * 10 + d;
            acc = if grown >= cap {
                cap
            } else {
                grown
            };
        }
        i = i + 1;
    }
    proof {
        assert(s@.subrange(start as int, i as int) == body);
    }
    let signed: i128 = if neg {
        -acc
    } else {
        acc
    };
    if signed < -9223372036854775808i128 || signed > 9223372036854775807i128 {
        None
    } else {
        Some(signed as i64)
    }
}

/// The open time a textual field denotes: the trimmed text read as a
/// decimal integer in its own unit, else as an RFC 3339 date-time in
/// milliseconds; `None` when it is neither.
pub fn parse_open_time(value: &str) -> (open_time: Option<i64>)
    ensures
        open_time == open_time_from_text(value@),
{
    let trimmed = trim_text(value);
    let chars = text_chars(trimmed);
    match parse_decimal_i64(chars.as_slice()) {
        Some(v) => Some(v),
        None => rfc3339_timestamp_millis(trimmed),
    }
}

/// An unsigned open time, kept as it is where it fits in `i64`.
pub fn open_time_from_u64(value: u64) -> (open_time: Option<i64>)
    ensures
        open_time == (if value <= i64::MAX {
            Some(value as i64)
        } else {
            None::<i64>
        }),
{
    if value <= 9223372036854775807u64 {
        Some(value as i64)
    } else {
        None
    }
}

/// The ASCII digit of `d`, for `d` in `0..=9`.
pub open spec fn digit_char(d: int) -> char {
    if d <= 0 {
        '0'
    } else if d == 1 {
        '1'
    } else if d == 2 {
        '2'
    } else if d == 3 {
        '3'
    } else if d == 4 {
        '4'
    } else if d == 5 {
        '5'
    } else if d == 6 {
        '6'
    } else if d == 7 {
        '7'
    } else if d == 8 {
        '8'
    } else {
        '9'
    }
}

/// The decimal digits of `n`, most significant first, without leading zeros.
pub open spec fn nat_text(n: nat) -> Seq<char>
    decreases n,
{
    if n < 10 {
        seq![digit_char(n as int)]
    } else {
        nat_text(n / 10).push(digit_char((n % 10) as int))
    }
}

/// The decimal text of an integer, as it is written for it: a minus sign for
/// negative values, then the digits of its magnitude.
pub open spec fn int_text(v: int) -> Seq<char> {
    if v < 0 {
        seq!['-'] + nat_text((-v) as nat)
    } else {
        nat_text(v as nat)
    }
}

proof fn lemma_digit_char(d: int)
    requires
        0 <= d <= 9,
    ensures
        is_ascii_digit(digit_char(d)),
        digit_char(d) as int - '0' as int == d,
{
}

proof fn lemma_nat_text(n: nat)
    ensures
        nat_text(n).len() > 0,
        all_digits(nat_text(n)),
        digits_value(nat_text(n)) == n,
    decreases n,
{
    if n < 10 {
        lemma_digit_char(n as int);
        assert(nat_text(n).drop_last() =~= Seq::<char>::empty());
        assert(digits_value(Seq::<char>::empty()) == 0);
        assert(digits_value(nat_text(n)) == digits_value(nat_text(n).drop_last()) * 10 + (digit_char(n as int) as int - '0' as int));
    } else {
        lemma_nat_text(n / 10);
        lemma_digit_char((n % 10) as int);
        let t = nat_text(n);
        assert(t.drop_last() =~= nat_text(n / 10));
        assert forall|k: int| 0 <= k < t.len() implies is_ascii_digit(#[trigger] t[k]) by {
            if k < t.len() - 1 {
                assert(t[k] == nat_text(n / 10)[k]);
            }
        }
        assert(t.last() == digit_char((n % 10) as int));
        assert(digits_value(t) == digits_value(nat_text(n / 10)) * 10 + (n % 10));
        assert(n == (n / 10) * 10 + n % 10);
    }
}

/// A numeric open time keeps its value, and so its unit: the decimal text of
/// any `i64` reads back as that value.
pub proof fn lemma_numeric_text_keeps_value(v: i64)
    ensures
        decimal_i64(int_text(v as int)) == Some(v),
        open_time_from_text(int_text(v as int)) == Some(v),
{
    let t = int_text(v as int);
    if v < 0 {
        lemma_nat_text((-(v as int)) as nat);
        assert(t[0] == '-');
        assert(t.last() == nat_text((-(v as int)) as nat).last());
    } else {
        lemma_nat_text(v as nat);
    }
    assert(is_ascii_digit(t.last()));
    assert(trim_start_spec(t) == t);
    assert(trim_end_spec(t) == t);
    if v < 0 {
        let m = (-(v as int)) as nat;
        lemma_nat_text(m);
        assert(t.skip(1) =~= nat_text(m));
        assert(has_sign(t));
    } else {
        lemma_nat_text(v as nat);
        assert(is_ascii_digit(t[0]));
        assert(!has_sign(t));
    }
}

/// How a decimal text reads: one or more ASCII digits read as their value,
/// the same after a `+`, and negated after a `-`, as long as the value fits in
/// `i64`; a value outside `i64`, an empty digit string, or any character that
/// is not a digit after the optional sign gives `None`.
pub proof fn lemma_decimal_rules(t: Seq<char>, s: Seq<char>)
    ensures
        t.len() > 0 && all_digits(t) && digits_value(t) <= i64::MAX ==> {
            &&& decimal_i64(t) == Some(digits_value(t) as i64)
            &&& decimal_i64(seq!['+'] + t) == Some(digits_value(t) as i64)
            &&& decimal_i64(seq!['-'] + t) == Some((-digits_value(t)) as i64)
        },
        t.len() > 0 && all_digits(t) && digits_value(t) > i64::MAX + 1 ==> decimal_i64(t) is None
            && decimal_i64(seq!['-'] + t) is None,
        decimal_i64(Seq::<char>::empty()) is None,
        decimal_i64(seq!['+']) is None,
        decimal_i64(seq!['-']) is None,
        (exists|k: int| 1 <= k < s.len() && !is_ascii_digit(#[trigger] s[k])) ==> decimal_i64(s) is None,
        s.len() > 0 && s[0] != '+' && s[0] != '-' && !is_ascii_digit(s[0]) ==> decimal_i64(s) is None,
{
    if t.len() > 0 && all_digits(t) {
        lemma_digits_value_nonneg(t);
        assert((seq!['+'] + t).skip(1) =~= t);
        assert((seq!['-'] + t).skip(1) =~= t);
    }
    if exists|k: int| 1 <= k < s.len() && !is_ascii_digit(#[trigger] s[k]) {
        let k = choose|k: int| 1 <= k < s.len() && !is_ascii_digit(#[trigger] s[k]);
        if has_sign(s) {
            assert(unsigned_digits(s)[k - 1] == s[k]);
        } else {
            assert(unsigned_digits(s)[k] == s[k]);
        }
    }
    if s.len() > 0 && s[0] != '+' && s[0] != '-' && !is_ascii_digit(s[0]) {
        assert(unsigned_digits(s)[0] == s[0]);
    }
    assert(seq!['+'].skip(1) =~= Seq::<char>::empty());
    assert(seq!['-'].skip(1) =~= Seq::<char>::empty());
}

} // verus!
