//! Numbers written as text.
//!
//! The services report numbers as decimal text. An integer is an optional
//! `+` and one or more digits. A decimal is an optional `+`, digits, and
//! optionally a point and more digits, with at least one digit before or
//! after the point; an exponent may follow, which is an `e` or `E`, an
//! optional sign and one or more digits. A decimal is read as a fixed-point
//! number of thousandths; what is less than a thousandth is cut off. A
//! negative number, and anything else that is not of this form, is no
//! number.

use vstd::prelude::*;
use vstd::string::*;

verus! {

/// Whether `c` is one of the digits `0` to `9`.
pub open spec fn is_digit(c: char) -> bool {
    '0' <= c && c <= '9'
}

/// The number that the digit `c` stands for.
pub open spec fn digit_value(c: char) -> nat {
    (c as u32 - '0' as u32) as nat
}

/// Whether `s` holds digits only.
pub open spec fn all_digits(s: Seq<char>) -> bool {
    forall|i: int| 0 <= i < s.len() ==> is_digit(#[trigger] s[i])
}

/// The number that the digits `s` stand for, read in base ten; zero for the
/// empty text.
pub open spec fn digits_value(s: Seq<char>) -> nat
    decreases s.len(),
{
    if s.len() == 0 {
        0
    } else {
        digits_value(s.drop_last()) * 10 + digit_value(s.last())
    }
}

/// The text without its leading `+`, if it has one.
pub open spec fn unsigned_body(s: Seq<char>) -> Seq<char> {
    if s.len() > 0 && s[0] == '+' {
        s.subrange(1, s.len() as int)
    } else {
        s
    }
}

/// The number an integer text stands for; `None` if the text is no integer.
pub open spec fn integer_value(s: Seq<char>) -> Option<nat> {
    let body = unsigned_body(s);
    if body.len() > 0 && all_digits(body) {
        Some(digits_value(body))
    } else {
        None
    }
}

/// The length of what comes before the first `a` or `b` in `s`: the whole
/// of `s` if it holds neither.
pub open spec fn len_before(s: Seq<char>, a: char, b: char) -> nat
    decreases s.len(),
{
    if s.len() == 0 || s[0] == a || s[0] == b {
        0
    } else {
        1 + len_before(s.drop_first(), a, b)
    }
}

/// The number an exponent stands for, which is an optional sign and one or
/// more digits; `None` if the text is no exponent.
pub open spec fn exponent_value(s: Seq<char>) -> Option<int> {
    let signed = s.len() > 0 && (s[0] == '+' || s[0] == '-');
    let digits = if signed {
        s.subrange(1, s.len() as int)
    } else {
        s
    };
    if digits.len() > 0 && all_digits(digits) {
        if s[0] == '-' {
            Some(-(digits_value(digits) as int))
        } else {
            Some(digits_value(digits) as int)
        }
    } else {
        None
    }
}

/// The first `len` digits of `digits`, where `digits` is continued by
/// zeros as far as needed; no digits if `len` is negative.
pub open spec fn padded(digits: Seq<char>, len: int) -> Seq<char> {
    Seq::new(
        if len > 0 {
            len as nat
        } else {
            0
        },
        |i: int|
            if i < digits.len() {
                digits[i]
            } else {
                '0'
            },
    )
}

/// The mantissa of a decimal: what comes before its exponent mark, an `e`
/// or `E`.
pub open spec fn mantissa_of(body: Seq<char>) -> Seq<char> {
    body.subrange(0, len_before(body, 'e', 'E') as int)
}

/// The exponent of a decimal, zero if it has none; `None` if what follows
/// the exponent mark is no exponent.
pub open spec fn exponent_of(body: Seq<char>) -> Option<int> {
    if mantissa_of(body).len() < body.len() {
        exponent_value(body.subrange(mantissa_of(body).len() as int + 1, body.len() as int))
    } else {
        Some(0int)
    }
}

/// What comes before the point of a mantissa.
pub open spec fn whole_of(mantissa: Seq<char>) -> Seq<char> {
    mantissa.subrange(0, len_before(mantissa, '.', '.') as int)
}

/// What comes after the point of a mantissa; nothing if it has no point.
pub open spec fn fraction_of(mantissa: Seq<char>) -> Seq<char> {
    if whole_of(mantissa).len() < mantissa.len() {
        mantissa.subrange(whole_of(mantissa).len() as int + 1, mantissa.len() as int)
    } else {
        Seq::<char>::empty()
    }
}

/// The number of thousandths a decimal text stands for; `None` if the text
/// is no decimal.
///
/// With the digits before and after the point written one after the other,
/// the point stands behind as many of them as there are before it in the
/// text, plus the exponent. The thousandths are what the digits up to three
/// places behind that stand for.
pub open spec fn decimal_value(s: Seq<char>) -> Option<nat> {
    let body = unsigned_body(s);
    let whole = whole_of(mantissa_of(body));
    let fraction = fraction_of(mantissa_of(body));
    if all_digits(whole) && all_digits(fraction) && whole.len() + fraction.len() > 0 {
        match exponent_of(body) {
            Some(exponent) => Some(
                digits_value(padded(whole + fraction, whole.len() + 3 + exponent)),
            ),
            None => None,
        }
    } else {
        None
    }
}

/// The number if it fits into a `u64`.
pub open spec fn fitting(number: nat) -> Option<u64> {
    if number <= u64::MAX {
        Some(number as u64)
    } else {
        None
    }
}

/// The number if it fits into a `u128`.
pub open spec fn fitting_wide(number: nat) -> Option<u128> {
    if number <= u128::MAX {
        Some(number as u128)
    } else {
        None
    }
}

/// Neither `a` nor `b` stands before `len_before(s, a, b)`, and where `s`
/// goes on there, one of them stands.
pub proof fn lemma_len_before(s: Seq<char>, a: char, b: char)
    ensures
        len_before(s, a, b) <= s.len(),
        forall|i: int| 0 <= i < len_before(s, a, b) ==> s[i] != a && s[i] != b,
        len_before(s, a, b) < s.len() ==> s[len_before(s, a, b) as int] == a || s[len_before(
            s,
            a,
            b,
        ) as int] == b,
    decreases s.len(),
{
    if s.len() == 0 || s[0] == a || s[0] == b {
    } else {
        let rest = s.drop_first();
        lemma_len_before(rest, a, b);
        assert forall|i: int| 0 <= i < len_before(s, a, b) implies s[i] != a && s[i] != b by {
            if i > 0 {
                assert(s[i] == rest[i - 1]);
            }
        }
        if len_before(s, a, b) < s.len() {
            assert(s[len_before(s, a, b) as int] == rest[len_before(rest, a, b) as int]);
        }
    }
}

/// The digits continued by zeros stand for no less the longer they are
/// taken. Beyond the digits themselves they stand for nothing if the digits
/// do, and else for more with every zero.
pub proof fn lemma_padded_grows(digits: Seq<char>, shorter: int, longer: int)
    requires
        0 <= shorter <= longer,
    ensures
        digits_value(padded(digits, shorter)) <= digits_value(padded(digits, longer)),
        shorter >= digits.len() && digits_value(padded(digits, shorter)) == 0 ==> digits_value(
            padded(digits, longer),
        ) == 0,
        shorter >= digits.len() && digits_value(padded(digits, shorter)) > 0 ==> digits_value(
            padded(digits, longer),
        ) >= digits_value(padded(digits, shorter)) + (longer - shorter),
    decreases longer,
{
    if shorter < longer {
        lemma_padded_grows(digits, shorter, longer - 1);
        assert(padded(digits, longer).drop_last() =~= padded(digits, longer - 1));
    }
}

/// Where digits, with a point among them or none, reach up to the end of
/// the text or up to an exponent mark, they are the mantissa, and the point
/// parts it.
pub proof fn lemma_mantissa_parts(body: Seq<char>, point: int, end: int)
    requires
        0 <= point <= end <= body.len(),
        forall|i: int| 0 <= i < end && i != point ==> is_digit(#[trigger] body[i]),
        point < end ==> body[point] == '.',
        end < body.len() ==> body[end] == 'e' || body[end] == 'E',
    ensures
        mantissa_of(body) == body.subrange(0, end),
        whole_of(mantissa_of(body)) == body.subrange(0, point),
        fraction_of(mantissa_of(body)) == if point < end {
            body.subrange(point + 1, end)
        } else {
            Seq::<char>::empty()
        },
        all_digits(whole_of(mantissa_of(body))),
        all_digits(fraction_of(mantissa_of(body))),
{
    lemma_len_before(body, 'e', 'E');
    let mantissa = mantissa_of(body);
    assert(mantissa.len() == end) by {
        if mantissa.len() < end {
            assert(is_digit(body[mantissa.len() as int]) || body[mantissa.len() as int] == '.');
        }
    }
    assert(mantissa =~= body.subrange(0, end));
    lemma_len_before(mantissa, '.', '.');
    let whole = whole_of(mantissa);
    assert(whole.len() == point) by {
        if whole.len() < point {
            assert(is_digit(mantissa[whole.len() as int]));
        } else if whole.len() > point {
            assert(mantissa[point] == body[point]);
        }
    }
    assert(whole =~= body.subrange(0, point));
    if point < end {
        assert(fraction_of(mantissa) =~= body.subrange(point + 1, end));
    }
}

/// Where a character that is no digit follows digits, with a point among
/// them or none, and it is neither an exponent mark nor the first point,
/// the text is no decimal.
pub proof fn lemma_mantissa_refused(body: Seq<char>, point: int, end: int)
    requires
        0 <= point <= end < body.len(),
        forall|i: int| 0 <= i < end && i != point ==> is_digit(#[trigger] body[i]),
        point < end ==> body[point] == '.',
        !is_digit(body[end]),
        body[end] != 'e',
        body[end] != 'E',
        point == end ==> body[end] != '.',
    ensures
        !(all_digits(whole_of(mantissa_of(body))) && all_digits(fraction_of(mantissa_of(body)))),
{
    lemma_len_before(body, 'e', 'E');
    let mantissa = mantissa_of(body);
    assert(mantissa.len() > end) by {
        if mantissa.len() < end {
            assert(is_digit(body[mantissa.len() as int]) || body[mantissa.len() as int] == '.');
        }
    }
    assert(mantissa[end] == body[end]);
    lemma_len_before(mantissa, '.', '.');
    let whole = whole_of(mantissa);
    if point < end {
        assert(whole.len() == point) by {
            if whole.len() < point {
                assert(is_digit(mantissa[whole.len() as int]));
            } else if whole.len() > point {
                assert(mantissa[point] == body[point]);
            }
        }
        assert(fraction_of(mantissa)[end - point - 1] == mantissa[end]);
    } else {
        assert(whole.len() > end) by {
            if whole.len() < end {
                assert(is_digit(mantissa[whole.len() as int]));
            }
        }
        assert(whole[end] == mantissa[end]);
    }
}

/// Returns the number that `c` stands for if it is a digit.
pub fn digit_of(c: char) -> (digit: Option<u8>)
    ensures
        digit is Some <==> is_digit(c),
        digit matches Some(value) ==> value == digit_value(c) && value <= 9,
{
    if '0' <= c && c <= '9' {
        Some((c as u32 - '0' as u32) as u8)
    } else {
        None
    }
}

/// Reads the digits of `s` that start at `from`. Returns where they end and
/// the number they stand for, unless that number is too large for a `u128`.
fn scan_digits(s: &str, from: usize) -> (scanned: (usize, Option<u128>))
    requires
        from <= s@.len(),
    ensures
        from <= scanned.0 <= s@.len(),
        all_digits(s@.subrange(from as int, scanned.0 as int)),
        scanned.0 < s@.len() ==> !is_digit(s@[scanned.0 as int]),
        scanned.1 == if digits_value(s@.subrange(from as int, scanned.0 as int)) <= u128::MAX {
            Some(digits_value(s@.subrange(from as int, scanned.0 as int)) as u128)
        } else {
            None
        },
{
    let len = s.unicode_len();
    let mut end = from;
    let mut value: Option<u128> = Some(0);
    assert(s@.subrange(from as int, from as int) =~= Seq::<char>::empty());
    while end < len
        invariant
            len == s@.len(),
            from <= end <= len,
            all_digits(s@.subrange(from as int, end as int)),
            value == if digits_value(s@.subrange(from as int, end as int)) <= u128::MAX {
                Some(digits_value(s@.subrange(from as int, end as int)) as u128)
            } else {
                None
            },
        decreases len - end,
    {
        let digit = match digit_of(s.get_char(end)) {
            Some(digit) => digit,
            None => {
                return (end, value);
            },
        };
        proof {
            let longer = s@.subrange(from as int, end + 1);
            assert(longer.drop_last() =~= s@.subrange(from as int, end as int));
            assert(longer.last() == s@[end as int]);
        }
        value = match value {
            Some(number) => match number.checked_mul(10) {
                Some(tenfold) => tenfold.checked_add(digit as u128),
                None => None,
            },
            None => None,
        };
        end = end + 1;
    }
    (end, value)
}

/// Reads an integer that fits into 16 bits. Returns `None` if `s` is no
/// integer or stands for a larger number.
pub fn parse_u16(s: &str) -> (number: Option<u16>)
    ensures
        number == match integer_value(s@) {
            Some(value) => if value <= u16::MAX {
                Some(value as u16)
            } else {
                None
            },
            None => None,
        },
{
    let len = s.unicode_len();
    let start: usize = if len > 0 && s.get_char(0) == '+' {
        1
    } else {
        0
    };
    let (end, value) = scan_digits(s, start);
    proof {
        let body = unsigned_body(s@);
        assert(body =~= s@.subrange(start as int, len as int));
        if end < len {
            assert(body[end - start] == s@[end as int]);
        }
    }
    if end < len || end == start {
        return None;
    }
    match value {
        Some(number) => if number <= u16::MAX as u128 {
            Some(number as u16)
        } else {
            None
        },
        None => None,
    }
}

/// Appends the characters of `s` from `from` up to `to` to `digits`.
fn append_chars(digits: &mut Vec<char>, s: &str, from: usize, to: usize)
    requires
        from <= to <= s@.len(),
    ensures
        final(digits)@ == old(digits)@ + s@.subrange(from as int, to as int),
{
    let ghost before = digits@;
    let mut i: usize = from;
    assert(digits@ =~= before + s@.subrange(from as int, i as int));
    while i < to
        invariant
            from <= i <= to <= s@.len(),
            digits@ == before + s@.subrange(from as int, i as int),
        decreases to - i,
    {
        digits.push(s.get_char(i));
        i = i + 1;
        assert(digits@ =~= before + s@.subrange(from as int, i as int));
    }
}

/// Returns the number that the first `count` of the digits stand for, where
/// the digits are continued by zeros, unless it is too large for a `u64`.
fn value_of_padded(digits: &Vec<char>, count: u128) -> (value: Option<u64>)
    requires
        all_digits(digits@),
    ensures
        value == fitting(digits_value(padded(digits@, count as int))),
{
    let mut value: u64 = 0;
    let mut i: u128 = 0;
    assert(padded(digits@, 0).len() == 0);
    while i < count
        invariant
            i <= count,
            all_digits(digits@),
            value == digits_value(padded(digits@, i as int)),
        decreases count - i,
    {
        let digit: u8 = if i < digits.len() as u128 {
            digit_of(digits[i as usize]).unwrap()
        } else {
            if value == 0 {
                proof {
                    lemma_padded_grows(digits@, i as int, count as int);
                }
                return Some(0);
            }
            0
        };
        proof {
            let longer = padded(digits@, i + 1);
            assert(longer.drop_last() =~= padded(digits@, i as int));
            assert(digit == digit_value(longer.last()));
            lemma_padded_grows(digits@, i + 1, count as int);
        }
        value = match value.checked_mul(10) {
            Some(tenfold) => match tenfold.checked_add(digit as u64) {
                Some(sum) => sum,
                None => {
                    return None;
                },
            },
            None => {
                return None;
            },
        };
        i = i + 1;
    }
    Some(value)
}

/// Reads an exponent. Returns whether it is negative and the number behind
/// its sign, unless that number is too large for a `u128`; returns `None` if
/// `s` is no exponent.
fn parse_exponent(s: &str) -> (exponent: Option<(bool, Option<u128>)>)
    ensures
        exponent is None <==> exponent_value(s@) is None,
        exponent matches Some((negative, magnitude)) ==> exists|number: nat|
            {
                &&& exponent_value(s@) == Some(
                    if negative {
                        -(number as int)
                    } else {
                        number as int
                    },
                )
                &&& #[trigger] fitting_wide(number) == magnitude
            },
{
    let len = s.unicode_len();
    let negative = len > 0 && s.get_char(0) == '-';
    let from: usize = if len > 0 && (s.get_char(0) == '+' || s.get_char(0) == '-') {
        1
    } else {
        0
    };
    let (stop, magnitude) = scan_digits(s, from);
    proof {
        let signed = s@.len() > 0 && (s@[0] == '+' || s@[0] == '-');
        let digits = if signed {
            s@.subrange(1, s@.len() as int)
        } else {
            s@
        };
        assert(digits =~= s@.subrange(from as int, len as int));
        if stop < len {
            assert(digits[stop - from] == s@[stop as int]);
        }
    }
    if stop < len || stop == from {
        return None;
    }
    proof {
        let signed = s@.len() > 0 && (s@[0] == '+' || s@[0] == '-');
        let digits = if signed {
            s@.subrange(1, s@.len() as int)
        } else {
            s@
        };
        assert(digits =~= s@.subrange(from as int, len as int));
        assert(fitting_wide(digits_value(digits)) == magnitude);
    }
    Some((negative, magnitude))
}

/// Returns the thousandths that the digits of a decimal stand for, of which
/// `whole_len` stand before the point, with the given exponent, unless they
/// are too many for a `u64`.
fn thousandths_of(
    digits: &Vec<char>,
    whole_len: usize,
    negative: bool,
    magnitude: Option<u128>,
    Ghost(number): Ghost<nat>,
) -> (value: Option<u64>)
    requires
        all_digits(digits@),
        magnitude == fitting_wide(number),
    ensures
        value == fitting(
            digits_value(
                padded(
                    digits@,
                    whole_len + 3 + if negative {
                        -(number as int)
                    } else {
                        number as int
                    },
                ),
            ),
        ),
{
    if negative {
        match magnitude {
            Some(magnitude) => if magnitude < whole_len as u128 + 3 {
                value_of_padded(digits, whole_len as u128 + 3 - magnitude)
            } else {
                assert(padded(digits@, whole_len + 3 - number).len() == 0);
                Some(0)
            },
            None => {
                assert(padded(digits@, whole_len + 3 - number).len() == 0);
                Some(0)
            },
        }
    } else {
        let count = match magnitude {
            Some(magnitude) => magnitude.checked_add(whole_len as u128 + 3),
            None => None,
        };
        match count {
            Some(count) => value_of_padded(digits, count),
            None => {
                // The point stands so far behind the digits that they stand
                // for nothing or for too much.
                let value = value_of_padded(digits, digits.len() as u128);
                proof {
                    lemma_padded_grows(digits@, digits@.len() as int, whole_len + 3 + number);
                }
                match value {
                    Some(0) => Some(0),
                    _ => None,
                }
            },
        }
    }
}

/// Reads a decimal as a number of thousandths. Returns `None` if `s` is no
/// decimal or stands for more thousandths than fit into a `u64`.
pub fn parse_thousandths(s: &str) -> (number: Option<u64>)
    ensures
        number == match decimal_value(s@) {
            Some(value) => fitting(value),
            None => None,
        },
{
    let full = s.unicode_len();
    let start: usize = if full > 0 && s.get_char(0) == '+' {
        1
    } else {
        0
    };
    let body = s.substring_char(start, full);
    assert(body@ =~= unsigned_body(s@));
    let len = full - start;
    let (point, _) = scan_digits(body, 0);
    let has_point = point < len && body.get_char(point) == '.';
    let (end, _) = if has_point {
        scan_digits(body, point + 1)
    } else {
        (point, None)
    };
    proof {
        assert forall|i: int| 0 <= i < end && i != point implies is_digit(#[trigger] body@[i]) by {
            if i < point {
                assert(body@.subrange(0, point as int)[i] == body@[i]);
            } else {
                assert(body@.subrange(point + 1, end as int)[i - point - 1] == body@[i]);
            }
        }
    }
    if end < len {
        let c = body.get_char(end);
        if c != 'e' && c != 'E' {
            proof {
                lemma_mantissa_refused(body@, point as int, end as int);
            }
            return None;
        }
    }
    proof {
        lemma_mantissa_parts(body@, point as int, end as int);
    }
    if end == 0 || (has_point && end == 1) {
        return None;
    }
    let (negative, magnitude) = if end < len {
        match parse_exponent(body.substring_char(end + 1, len)) {
            Some(exponent) => exponent,
            None => {
                return None;
            },
        }
    } else {
        (false, Some(0))
    };
    let ghost number: nat = if end < len {
        choose|number: nat|
            {
                &&& exponent_of(body@) == Some(
                    if negative {
                        -(number as int)
                    } else {
                        number as int
                    },
                )
                &&& #[trigger] fitting_wide(number) == magnitude
            }
    } else {
        0
    };
    let mut digits: Vec<char> = Vec::new();
    append_chars(&mut digits, body, 0, point);
    if has_point {
        append_chars(&mut digits, body, point + 1, end);
    }
    assert(digits@ =~= whole_of(mantissa_of(body@)) + fraction_of(mantissa_of(body@)));
    thousandths_of(&digits, point, negative, magnitude, Ghost(number))
}

} // verus!
