//! Decimal rendering and parsing of unsigned counts.
//!
//! Counts appear in error messages ("completed with 2 output payloads") and
//! in configuration values read from the environment
//! (`TEMPORAL_MAX_CONCURRENT_ACTIVITIES`). Both directions are specified over
//! character sequences so that callers can state exactly which text is
//! produced or accepted.
use vstd::prelude::*;

verus! {

/// The character of a decimal digit `d < 10`.
pub open spec fn digit_char(d: nat) -> char
    recommends
        d < 10,
{
    if d == 0 {
        '0'
    } else if d == 1 {
        '1'
    } else if d == 2 {
        '2'
    } else if d == 3 {
        '3'
    } else if d == 4 {
        '4'
    } else if d == 5 {
        '5'
    } else if d == 6 {
        '6'
    } else if d == 7 {
        '7'
    } else if d == 8 {
        '8'
    } else {
        '9'
    }
}

/// Whether `c` is an ASCII decimal digit.
pub open spec fn is_digit(c: char) -> bool {
    '0' <= c && c <= '9'
}

/// The value of an ASCII decimal digit.
pub open spec fn digit_value(c: char) -> nat
    recommends
        is_digit(c),
{
    (c as int - '0' as int) as nat
}

/// Whether every character of `s` is an ASCII decimal digit.
pub open spec fn all_digits(s: Seq<char>) -> bool {
    forall|i: int| 0 <= i < s.len() ==> is_digit(#[trigger] s[i])
}

/// The value of a sequence of decimal digits, most significant first.
pub open spec fn digits_value(s: Seq<char>) -> nat
    decreases s.len(),
{
    if s.len() == 0 {
        0
    } else {
        digits_value(s.drop_last()) * 10 + digit_value(s.last())
    }
}

/// The shortest decimal rendering of `n` (no sign, no leading zeros), as
/// Rust's `Display` writes an unsigned integer.
pub open spec fn decimal(n: nat) -> Seq<char>
    decreases n,
{
    if n < 10 {
        seq![digit_char(n)]
    } else {
        decimal(n / 10).push(digit_char(n % 10))
    }
}

/// Why a text is not a `usize`; the kinds of std's `IntErrorKind` that
/// parsing an unsigned integer can give.
#[derive(Debug, Clone, Copy, PartialEq, Eq, Structural)]
pub enum ParseUsizeError {
    /// The text is empty.
    Empty,
    /// The text holds a character that is not a digit (or is a lone sign).
    InvalidDigit,
    /// The value does not fit in a `usize`.
    PosOverflow,
}

impl ParseUsizeError {
    /// The text std's `ParseIntError` displays for this kind.
    pub open spec fn description(self) -> Seq<char> {
        match self {
            ParseUsizeError::Empty => "cannot parse integer from empty string"@,
            ParseUsizeError::InvalidDigit => "invalid digit found in string"@,
            ParseUsizeError::PosOverflow => "number too large to fit in target type"@,
        }
    }

    /// The descriptions are std's: "cannot parse integer from empty string",
    /// "invalid digit found in string", "number too large to fit in target type".
    pub proof fn lemma_description_texts()
        ensures
            ParseUsizeError::Empty.description() == "cannot parse integer from empty string"@,
            ParseUsizeError::InvalidDigit.description() == "invalid digit found in string"@,
            ParseUsizeError::PosOverflow.description() == "number too large to fit in target type"@,
    {
    }

    /// Renders the description of this kind.
    pub fn describe(self) -> (r: String)
        ensures
            r@ == self.description(),
    {
        match self {
            ParseUsizeError::Empty => "cannot parse integer from empty string".to_owned(),
            ParseUsizeError::InvalidDigit => "invalid digit found in string".to_owned(),
            ParseUsizeError::PosOverflow => "number too large to fit in target type".to_owned(),
        }
    }
}

/// The digits that remain once an optional leading `+` is taken off.
pub open spec fn unsigned_digits(s: Seq<char>) -> Seq<char> {
    if s.len() > 0 && s[0] == '+' {
        s.drop_first()
    } else {
        s
    }
}

/// Reads the digits `d[i..]` onto the value `acc` read so far, left to
/// right: the first character that is not a digit is an `InvalidDigit`, the
/// first digit that takes the value past `usize::MAX` a `PosOverflow`.
pub open spec fn scan_digits(d: Seq<char>, i: int, acc: nat) -> Result<nat, ParseUsizeError>
    decreases d.len() - i,
{
    if i < 0 || i >= d.len() {
        Ok(acc)
    } else if !is_digit(d[i]) {
        Err(ParseUsizeError::InvalidDigit)
    } else if acc * 10 + digit_value(d[i]) > usize::MAX {
        Err(ParseUsizeError::PosOverflow)
    } else {
        scan_digits(d, i + 1, acc * 10 + digit_value(d[i]))
    }
}

/// What `str::parse::<usize>` gives for `s`: an empty text is `Empty`, a
/// lone `+` or `-` is `InvalidDigit`, otherwise the digits after an optional
/// `+` are read left to right as [`scan_digits`] does.
pub open spec fn parse_usize_result(s: Seq<char>) -> Result<nat, ParseUsizeError> {
    if s.len() == 0 {
        Err(ParseUsizeError::Empty)
    } else if s.len() == 1 && (s[0] == '+' || s[0] == '-') {
        Err(ParseUsizeError::InvalidDigit)
    } else {
        scan_digits(unsigned_digits(s), 0, 0)
    }
}

/// The value of `s` as a `usize`, or `None` when `s` is refused.
pub open spec fn parse_usize_spec(s: Seq<char>) -> Option<nat> {
    match parse_usize_result(s) {
        Ok(v) => Some(v),
        Err(_) => None,
    }
}

/// The one-character string of the digit `d`.
fn digit_str(d: usize) -> (r: &'static str)
    requires
        d < 10,
    ensures
        r@ == seq![digit_char(d as nat)],
{
    match d {
        0 => {
            proof { reveal_strlit("0"); }
            "0"
        },
        1 => {
            proof { reveal_strlit("1"); }
            "1"
        },
        2 => {
            proof { reveal_strlit("2"); }
            "2"
        },
        3 => {
            proof { reveal_strlit("3"); }
            "3"
        },
        4 => {
            proof { reveal_strlit("4"); }
            "4"
        },
        5 => {
            proof { reveal_strlit("5"); }
            "5"
        },
        6 => {
            proof { reveal_strlit("6"); }
            "6"
        },
        7 => {
            proof { reveal_strlit("7"); }
            "7"
        },
        8 => {
            proof { reveal_strlit("8"); }
            "8"
        },
        _ => {
            proof { reveal_strlit("9"); }
            "9"
        },
    }
}


/// The digits of `decimal(n)` are decimal digits and read back as `n`.
pub proof fn lemma_decimal_digits(n: nat)
    ensures
        all_digits(decimal(n)),
        decimal(n).len() > 0,
        digits_value(decimal(n)) == n,
    decreases n,
{
    if n < 10 {
        let s = decimal(n);
        assert(s.drop_last() =~= Seq::<char>::empty());
        assert(digits_value(Seq::<char>::empty()) == 0);
        assert(digit_value(digit_char(n)) == n);
        assert(digits_value(s) == digits_value(s.drop_last()) * 10 + digit_value(s.last()));
    } else {
        lemma_decimal_digits(n / 10);
        let s = decimal(n);
        assert(s.drop_last() =~= decimal(n / 10));
        assert(s.last() == digit_char(n % 10));
        assert(n == (n / 10) * 10 + n % 10);
        assert(is_digit(digit_char(n % 10)));
        assert(digit_value(digit_char(n % 10)) == n % 10);
        assert forall|i: int| 0 <= i < s.len() implies is_digit(#[trigger] s[i]) by {
            if i < s.len() - 1 {
                assert(s[i] == decimal(n / 10)[i]);
            }
        }
    }
}

/// Renders `n` in decimal, as `format!("{}", n)` does.
pub fn usize_to_decimal(n: usize) -> (s: String)
    ensures
        s@ == decimal(n as nat),
    decreases n,
{
    if n < 10 {
        digit_str(n).to_owned()
    } else {
        let mut s = usize_to_decimal(n / 10);
        s.append(digit_str(n % 10));
        s
    }
}

/// Parses a `usize` exactly as `str::parse::<usize>` does, error kind included.
pub fn parse_usize(s: &str) -> (r: Result<usize, ParseUsizeError>)
    ensures
        match r {
            Ok(v) => parse_usize_result(s@) == Ok::<nat, ParseUsizeError>(v as nat),
            Err(e) => parse_usize_result(s@) == Err::<nat, ParseUsizeError>(e),
        },
{
    let len = s.unicode_len();
    if len == 0 {
        return Err(ParseUsizeError::Empty);
    }
    let first = s.get_char(0);
    if len == 1 && (first == '+' || first == '-') {
        return Err(ParseUsizeError::InvalidDigit);
    }
    let start: usize = if first == '+' { 1 } else { 0 };
    let ghost d = unsigned_digits(s@);
    assert(d =~= s@.subrange(start as int, len as int));
    let mut acc: usize = 0;
    let mut i = start;
    while i < len
        invariant
            start <= i <= len,
            len == s@.len(),
            d == s@.subrange(start as int, len as int),
            parse_usize_result(s@) == scan_digits(d, i - start, acc as nat),
        decreases len - i,
    {
        let c = s.get_char(i);
        assert(d[i - start] == c);
        if !('0' <= c && c <= '9') {
            return Err(ParseUsizeError::InvalidDigit);
        }
        let digit: u32 = (c as u32) - ('0' as u32);
        assert(digit as nat == digit_value(c));
        let wide: u128 = (acc as u128) * 10 + (digit as u128);
        if wide > (usize::MAX as u128) {
            return Err(ParseUsizeError::PosOverflow);
        }
        acc = wide as usize;
        i = i + 1;
    }
    Ok(acc)
}

/// The value of a prefix of a digit sequence never exceeds the value of the
/// whole sequence.
pub proof fn lemma_prefix_value_le(s: Seq<char>, k: int)
    requires
        0 <= k <= s.len(),
        all_digits(s),
    ensures
        digits_value(s.take(k)) <= digits_value(s),
    decreases s.len(),
{
    if k < s.len() {
        let t = s.drop_last();
        assert(all_digits(t)) by {
            assert forall|i: int| 0 <= i < t.len() implies is_digit(#[trigger] t[i]) by {
                assert(t[i] == s[i]);
            }
        }
        lemma_prefix_value_le(t, k);
        assert(t.take(k) =~= s.take(k));
        assert(digits_value(s) == digits_value(t) * 10 + digit_value(s.last()));
    } else {
        assert(s.take(k) =~= s);
    }
}

/// Reading an all-digit sequence whose value fits from position `i`, with
/// the value of the first `i` digits in hand, gives the whole value.
pub proof fn lemma_scan_all_digits(d: Seq<char>, i: int)
    requires
        0 <= i <= d.len(),
        all_digits(d),
        digits_value(d) <= usize::MAX,
    ensures
        scan_digits(d, i, digits_value(d.take(i))) == Ok::<nat, ParseUsizeError>(digits_value(d)),
    decreases d.len() - i,
{
    if i == d.len() {
        assert(d.take(i) =~= d);
    } else {
        let next = d.take(i + 1);
        assert(next.drop_last() =~= d.take(i));
        assert(next.last() == d[i]);
        lemma_prefix_value_le(d, i + 1);
        assert(is_digit(d[i]));
        lemma_scan_all_digits(d, i + 1);
    }
}

/// A successful read of the digits from position `i`, with the value of the
/// first `i` digits in hand, means that every character is a digit, that the
/// whole value fits, and that the read gives it.
proof fn lemma_scan_ok(d: Seq<char>, i: int, acc: nat)
    requires
        0 <= i <= d.len(),
        acc == digits_value(d.take(i)),
        acc <= usize::MAX,
        all_digits(d.take(i)),
        scan_digits(d, i, acc) is Ok,
    ensures
        all_digits(d),
        digits_value(d) <= usize::MAX,
        scan_digits(d, i, acc) == Ok::<nat, ParseUsizeError>(digits_value(d)),
    decreases d.len() - i,
{
    if i == d.len() {
        assert(d.take(i) =~= d);
    } else {
        let next = d.take(i + 1);
        assert(next.drop_last() =~= d.take(i));
        assert(next.last() == d[i]);
        assert(is_digit(d[i]));
        assert(all_digits(next)) by {
            assert forall|j: int| 0 <= j < next.len() implies is_digit(#[trigger] next[j]) by {
                if j < i {
                    assert(next[j] == d.take(i)[j]);
                }
            }
        }
        lemma_scan_ok(d, i + 1, acc * 10 + digit_value(d[i]));
    }
}

/// `str::parse::<usize>` accepts exactly the texts made of an optional `+`
/// and one or more decimal digits whose value fits in a `usize`, and gives
/// that value; an empty text is the `Empty` error.
pub proof fn lemma_parse_usize_accepts_exactly(s: Seq<char>)
    ensures
        s.len() > 0 && s[0] == '+' ==> unsigned_digits(s) == s.drop_first(),
        !(s.len() > 0 && s[0] == '+') ==> unsigned_digits(s) == s,
        s.len() == 0 ==> parse_usize_result(s) == Err::<nat, ParseUsizeError>(
            ParseUsizeError::Empty,
        ),
        parse_usize_result(s) is Ok <==> (unsigned_digits(s).len() > 0 && all_digits(
            unsigned_digits(s),
        ) && digits_value(unsigned_digits(s)) <= usize::MAX),
        parse_usize_result(s) matches Ok(v) ==> v == digits_value(unsigned_digits(s)),
{
    let d = unsigned_digits(s);
    assert(d.take(0) =~= Seq::<char>::empty());
    assert(digits_value(Seq::<char>::empty()) == 0);
    if s.len() == 1 && (s[0] == '+' || s[0] == '-') {
        if s[0] == '-' {
            assert(!is_digit(d[0]));
        }
    } else if s.len() > 0 {
        if d.len() > 0 && all_digits(d) && digits_value(d) <= usize::MAX {
            lemma_scan_all_digits(d, 0);
        }
        if scan_digits(d, 0, 0) is Ok {
            lemma_scan_ok(d, 0, 0);
            if d.len() == 0 {
                assert(s.len() == 1 && s[0] == '+');
            }
        }
    }
}

/// The decimal rendering has no sign and no leading zero: its first digit is
/// `0` only for zero itself.
pub proof fn lemma_decimal_no_leading_zero(n: nat)
    ensures
        decimal(n).len() > 0,
        decimal(n)[0] == '0' ==> n == 0,
    decreases n,
{
    if n >= 10 {
        lemma_decimal_no_leading_zero(n / 10);
        assert(decimal(n)[0] == decimal(n / 10)[0]);
    }
}

/// Parsing the decimal rendering of any `usize` gives that `usize` back.
pub proof fn lemma_parse_decimal_roundtrip(n: usize)
    ensures
        parse_usize_result(decimal(n as nat)) == Ok::<nat, ParseUsizeError>(n as nat),
        parse_usize_spec(decimal(n as nat)) == Some(n as nat),
{
    lemma_decimal_digits(n as nat);
    let s = decimal(n as nat);
    assert(is_digit(s[0]));
    assert(unsigned_digits(s) == s);
    assert(s.take(0) =~= Seq::<char>::empty());
    assert(digits_value(Seq::<char>::empty()) == 0);
    lemma_scan_all_digits(s, 0);
}

} // verus!
