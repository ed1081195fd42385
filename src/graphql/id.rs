use vstd::prelude::*;

verus! {

/// Why a text is no key: the kinds of std's `IntErrorKind` that reading an
/// `i32` can give.
#[derive(Clone, Copy, Debug, PartialEq, Eq, Structural)]
pub enum IdError {
    Empty,
    InvalidDigit,
    PosOverflow,
    NegOverflow,
}

pub open spec fn is_digit(c: char) -> bool {
    '0' <= c && c <= '9'
}

pub open spec fn digit_value(c: char) -> int {
    (c as int) - ('0' as int)
}

/// Reads the digits of `s` from position `i` on, left to right, with `acc`
/// read so far: the first character that is no digit, or the first digit
/// that takes the magnitude past `limit` (error `over`), ends the reading.
pub open spec fn scan_digits(s: Seq<char>, i: int, acc: int, limit: int, over: IdError) -> Result<
    int,
    IdError,
>
    decreases s.len() - i,
{
    if i >= s.len() {
        Ok(acc)
    } else if !is_digit(s[i]) {
        Err(IdError::InvalidDigit)
    } else if acc * 10 + digit_value(s[i]) > limit {
        Err(over)
    } else {
        scan_digits(s, i + 1, acc * 10 + digit_value(s[i]), limit, over)
    }
}

/// A key written in decimal: an optional sign, then at least one digit, with
/// a value in the range of `i32`.
pub open spec fn id_parse(s: Seq<char>) -> Result<i32, IdError> {
    if s.len() == 0 {
        Err(IdError::Empty)
    } else {
        let start: int = if s[0] == '+' || s[0] == '-' { 1 } else { 0 };
        if s.len() == start {
            Err(IdError::InvalidDigit)
        } else if s[0] == '-' {
            match scan_digits(s, start, 0, 0x8000_0000, IdError::NegOverflow) {
                Ok(m) => Ok((-m) as i32),
                Err(e) => Err(e),
            }
        } else {
            match scan_digits(s, start, 0, 0x7fff_ffff, IdError::PosOverflow) {
                Ok(m) => Ok(m as i32),
                Err(e) => Err(e),
            }
        }
    }
}

impl IdError {
    pub open spec fn message_spec(self) -> Seq<char> {
        match self {
            IdError::Empty => "cannot parse integer from empty string"@,
            IdError::InvalidDigit => "invalid digit found in string"@,
            IdError::PosOverflow => "number too large to fit in target type"@,
            IdError::NegOverflow => "number too small to fit in target type"@,
        }
    }

    /// The sentence that tells a client why its key was refused.
    pub fn message(&self) -> (r: String)
        ensures
            r@ == self.message_spec(),
    {
        match self {
            IdError::Empty => String::from_str("cannot parse integer from empty string"),
            IdError::InvalidDigit => String::from_str("invalid digit found in string"),
            IdError::PosOverflow => String::from_str("number too large to fit in target type"),
            IdError::NegOverflow => String::from_str("number too small to fit in target type"),
        }
    }
}

/// Reads a key from its decimal text.
pub fn parse_id(s: &str) -> (r: Result<i32, IdError>)
    ensures
        r == id_parse(s@),
{
    let n = s.unicode_len();
    if n == 0 {
        return Err(IdError::Empty);
    }
    let c0 = s.get_char(0);
    let neg = c0 == '-';
    let start: usize = if c0 == '+' || c0 == '-' { 1 } else { 0 };
    if start == n {
        return Err(IdError::InvalidDigit);
    }
    let limit: i64 = if neg { 0x8000_0000 } else { 0x7fff_ffff };
    let over = if neg { IdError::NegOverflow } else { IdError::PosOverflow };
    let mut acc: i64 = 0;
    let mut i: usize = start;
    while i < n
        invariant
            n == s@.len(),
            start <= i <= n,
            0 <= acc <= limit,
            limit == (if neg { 0x8000_0000i64 } else { 0x7fff_ffffi64 }),
            id_parse(s@) == match scan_digits(s@, start as int, 0, limit as int, over) {
                Ok(m) => if neg {
                    Ok((-m) as i32)
                } else {
                    Ok(m as i32)
                },
                Err(e) => Err(e),
            },
            scan_digits(s@, i as int, acc as int, limit as int, over) == scan_digits(
                s@,
                start as int,
                0,
                limit as int,
                over,
            ),
        decreases n - i,
    {
        let c = s.get_char(i);
        if !('0' <= c && c <= '9') {
            assert(scan_digits(s@, i as int, acc as int, limit as int, over) == Err::<int, IdError>(
                IdError::InvalidDigit,
            ));
            return Err(IdError::InvalidDigit);
        }
        let d = (c as u32 - '0' as u32) as i64;
        assert(d == digit_value(s@[i as int]));
        let next = acc * 10 + d;
        if next > limit {
            assert(scan_digits(s@, i as int, acc as int, limit as int, over) == Err::<int, IdError>(
                over,
            ));
            return Err(over);
        }
        acc = next;
        i = i + 1;
    }
    if neg {
        Ok((-acc) as i32)
    } else {
        Ok(acc as i32)
    }
}

/// The character of a decimal digit.
pub open spec fn digit_char(d: int) -> char {
    (d + ('0' as int)) as char
}

/// The decimal digits of a natural number, without leading zeros.
pub open spec fn natural_text(k: nat) -> Seq<char>
    decreases k,
{
    if k < 10 {
        seq![digit_char(k as int)]
    } else {
        natural_text(k / 10).push(digit_char((k % 10) as int))
    }
}

/// The decimal text of an integer: a minus sign before a negative one.
pub open spec fn decimal_text(n: int) -> Seq<char> {
    if n < 0 {
        seq!['-'] + natural_text((-n) as nat)
    } else {
        natural_text(n as nat)
    }
}

/// Relies on the `Display` impl of `i32` (through `ToString`): the number in
/// decimal, with a minus sign when negative and no leading zeros.
#[verifier::external_body]
pub(crate) fn id_text(n: i32) -> (r: String)
    ensures
        r@ == decimal_text(n as int),
{
    n.to_string()
}

/// The value of the digits of `s` from `i` up to `j`, read left to right.
pub open spec fn digits_value(s: Seq<char>, i: int, j: int) -> int
    decreases j - i,
{
    if j <= i {
        0
    } else {
        digits_value(s, i, j - 1) * 10 + digit_value(s[j - 1])
    }
}

/// Reading a run of digits whose every prefix stays within the limit gives
/// the run's value.
proof fn lemma_scan_digit_run(s: Seq<char>, i0: int, i: int, limit: int, over: IdError)
    requires
        0 <= i0 <= i <= s.len(),
        forall|k: int| i0 <= k < s.len() ==> is_digit(#[trigger] s[k]),
        forall|j: int| i < j <= s.len() ==> #[trigger] digits_value(s, i0, j) <= limit,
    ensures
        scan_digits(s, i, digits_value(s, i0, i), limit, over) == Ok::<int, IdError>(
            digits_value(s, i0, s.len() as int),
        ),
    decreases s.len() - i,
{
    if i < s.len() {
        assert(digits_value(s, i0, i + 1) <= limit);
        lemma_scan_digit_run(s, i0, i + 1, limit, over);
    }
}

/// Over digits, a longer prefix has no smaller value, and no value is
/// negative.
proof fn lemma_digits_value_monotone(s: Seq<char>, i0: int, j: int, k: int)
    requires
        i0 <= j <= k <= s.len(),
        forall|m: int| i0 <= m < k ==> is_digit(#[trigger] s[m]),
    ensures
        0 <= digits_value(s, i0, j) <= digits_value(s, i0, k),
    decreases k - i0,
{
    if k > i0 {
        if j < k {
            lemma_digits_value_monotone(s, i0, j, k - 1);
        } else {
            lemma_digits_value_monotone(s, i0, k - 1, k - 1);
        }
        assert(is_digit(s[k - 1]));
    }
}

/// The value of digits depends on those digits alone.
proof fn lemma_digits_value_local(s: Seq<char>, t: Seq<char>, i0: int, j: int)
    requires
        0 <= i0,
        j <= s.len(),
        j <= t.len(),
        forall|k: int| i0 <= k < j ==> s[k] == t[k],
    ensures
        digits_value(s, i0, j) == digits_value(t, i0, j),
    decreases j - i0,
{
    if j > i0 {
        lemma_digits_value_local(s, t, i0, j - 1);
    }
}

/// Where `s` ends in the decimal digits of `k` from `off` on, those are
/// digits, at least one, with value `k`.
proof fn lemma_natural_text_value(s: Seq<char>, off: int, k: nat)
    requires
        0 <= off <= s.len(),
        s.subrange(off, s.len() as int) == natural_text(k),
    ensures
        s.len() > off,
        forall|i: int| off <= i < s.len() ==> is_digit(#[trigger] s[i]),
        digits_value(s, off, s.len() as int) == k,
    decreases k,
{
    let len = s.len() as int;
    if k < 10 {
        assert(s.subrange(off, len).len() == 1);
        assert(s[off] == s.subrange(off, len)[0]);
        assert(digits_value(s, off, off) == 0);
    } else {
        let t = s.subrange(0, len - 1);
        let tail = s.subrange(off, len);
        assert(tail == natural_text(k / 10).push(digit_char((k % 10) as int)));
        assert(t.subrange(off, len - 1) =~= natural_text(k / 10)) by {
            assert(t.subrange(off, len - 1) =~= tail.subrange(0, tail.len() - 1));
        }
        lemma_natural_text_value(t, off, k / 10);
        lemma_digits_value_local(s, t, off, len - 1);
        assert(s[len - 1] == tail[tail.len() - 1]);
        assert forall|i: int| off <= i < len implies is_digit(#[trigger] s[i]) by {
            if i < len - 1 {
                assert(s[i] == t[i]);
            }
        }
    }
}

/// The decimal text of a key reads back as that key.
pub proof fn lemma_id_round_trip(n: i32)
    ensures
        id_parse(decimal_text(n as int)) == Ok::<i32, IdError>(n),
{
    let s = decimal_text(n as int);
    let len = s.len() as int;
    if n < 0 {
        let m = (-(n as int)) as nat;
        assert(s.subrange(1, len) =~= natural_text(m));
        lemma_natural_text_value(s, 1, m);
        assert forall|j: int| 1 < j <= len implies #[trigger] digits_value(s, 1, j)
            <= 0x8000_0000 by {
            lemma_digits_value_monotone(s, 1, j, len);
        }
        lemma_scan_digit_run(s, 1, 1, 0x8000_0000, IdError::NegOverflow);
        assert(s[0] == '-');
    } else {
        assert(s.subrange(0, len) =~= s);
        lemma_natural_text_value(s, 0, n as nat);
        assert forall|j: int| 0 < j <= len implies #[trigger] digits_value(s, 0, j)
            <= 0x7fff_ffff by {
            lemma_digits_value_monotone(s, 0, j, len);
        }
        lemma_scan_digit_run(s, 0, 0, 0x7fff_ffff, IdError::PosOverflow);
        assert(is_digit(s[0]));
    }
}

} // verus!
