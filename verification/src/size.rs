use crate::error::{CliError, CliErrorView, ErrorKind, invalid_size_message};
use vstd::prelude::*;
use vstd::string::*;

verus! {

/// What the pump limit falls back to when no usable size is given: 1 MiB.
pub const DEFAULT_PUMP_LIMIT: i64 = 1048576;

/// Whether `c` is one of the decimal digits `0` to `9`.
pub open spec fn is_digit(c: char) -> bool {
    '0' <= c && c <= '9'
}

/// Whether every character of `s` is a decimal digit.
pub open spec fn all_digits(s: Seq<char>) -> bool {
    forall|i: int| 0 <= i < s.len() ==> is_digit(#[trigger] s[i])
}

/// The number that the decimal digits `s` write, most significant digit first.
pub open spec fn digits_value(s: Seq<char>) -> nat
    decreases s.len(),
{
    if s.len() == 0 {
        0
    } else {
        (digits_value(s.drop_last()) * 10 + (s.last() as int - '0' as int)) as nat
    }
}

/// 1024 to the power `idx`.
pub open spec fn magnitude(idx: nat) -> nat
    decreases idx,
{
    if idx == 0 {
        1
    } else {
        1024 * magnitude((idx - 1) as nat)
    }
}

/// The unit letter of the suffix with magnitude index `idx`, for `idx` from 1 to 5.
pub open spec fn unit_letter(idx: nat) -> char {
    if idx == 1 {
        'K'
    } else if idx == 2 {
        'M'
    } else if idx == 3 {
        'G'
    } else if idx == 4 {
        'T'
    } else {
        'P'
    }
}

/// The suffix that stands for magnitude index `idx`: nothing for 0, then
/// `KiB`, `MiB`, `GiB`, `TiB`, `PiB` for 1 to 5.
pub open spec fn suffix_text(idx: nat) -> Seq<char> {
    if idx == 0 {
        Seq::empty()
    } else {
        seq![unit_letter(idx), 'i', 'B']
    }
}

/// The magnitude index that `suffix` stands for, if it is one of the six suffixes.
pub open spec fn suffix_index(suffix: Seq<char>) -> Option<nat> {
    if suffix.len() == 0 {
        Some(0)
    } else if suffix.len() == 3 && suffix[1] == 'i' && suffix[2] == 'B' {
        if suffix[0] == 'K' {
            Some(1)
        } else if suffix[0] == 'M' {
            Some(2)
        } else if suffix[0] == 'G' {
            Some(3)
        } else if suffix[0] == 'T' {
            Some(4)
        } else if suffix[0] == 'P' {
            Some(5)
        } else {
            None
        }
    } else {
        None
    }
}

/// How many decimal digits `s` starts with.
pub open spec fn digit_prefix_len(s: Seq<char>) -> nat
    decreases s.len(),
{
    if s.len() > 0 && is_digit(s[0]) {
        1 + digit_prefix_len(s.drop_first())
    } else {
        0
    }
}

/// The byte count that the size string `s` denotes: one or more decimal digits,
/// then nothing or one of `KiB`, `MiB`, `GiB`, `TiB`, `PiB`; the digits' number
/// times 1024 to the power of the suffix's index. `None` for any other string.
pub open spec fn size_value(s: Seq<char>) -> Option<nat> {
    let k = digit_prefix_len(s) as int;
    if k == 0 {
        None
    } else {
        match suffix_index(s.skip(k)) {
            Some(idx) => Some(digits_value(s.take(k)) * magnitude(idx)),
            None => None,
        }
    }
}

/// A string whose first `k` characters are digits, and which ends there or goes
/// on with something else, starts with exactly `k` digits.
pub proof fn lemma_digit_prefix_len(s: Seq<char>, k: int)
    requires
        0 <= k <= s.len(),
        all_digits(s.take(k)),
        k < s.len() ==> !is_digit(s[k]),
    ensures
        digit_prefix_len(s) == k,
    decreases k,
{
    if k > 0 {
        assert(s.take(k)[0] == s[0]);
        let t = s.drop_first();
        assert forall|i: int| 0 <= i < k - 1 implies is_digit(#[trigger] t.take(k - 1)[i]) by {
            assert(t.take(k - 1)[i] == s.take(k)[i + 1]);
        }
        lemma_digit_prefix_len(t, k - 1);
    }
}

/// The size grammar, read forwards: digits followed by the suffix of index
/// `idx` denote the digits' number times 1024 to the power `idx`.
pub proof fn lemma_size_value_of_parts(digits: Seq<char>, idx: nat)
    requires
        digits.len() > 0,
        all_digits(digits),
        idx <= 5,
    ensures
        size_value(digits + suffix_text(idx)) == Some(digits_value(digits) * magnitude(idx)),
{
    let s = digits + suffix_text(idx);
    let k = digits.len() as int;
    assert(s.take(k) =~= digits);
    assert(s.skip(k) =~= suffix_text(idx));
    lemma_digit_prefix_len(s, k);
}

/// The size grammar, read backwards: a string that denotes a size is made of
/// one or more digits and one of the six suffixes.
pub proof fn lemma_size_value_parts(s: Seq<char>)
    requires
        size_value(s) is Some,
    ensures
        ({
            let k = digit_prefix_len(s) as int;
            &&& 0 < k <= s.len()
            &&& all_digits(s.take(k))
            &&& suffix_index(s.skip(k)) matches Some(idx)
            &&& idx <= 5
            &&& s == s.take(k) + suffix_text(idx)
        }),
{
    lemma_digit_prefix_is_digits(s);
    let k = digit_prefix_len(s) as int;
    let idx = suffix_index(s.skip(k))->0;
    assert(s.skip(k) =~= suffix_text(idx));
    assert(s =~= s.take(k) + s.skip(k));
}

/// The digits that a string starts with are digits, and no more of them than
/// the string has characters.
proof fn lemma_digit_prefix_is_digits(s: Seq<char>)
    ensures
        digit_prefix_len(s) <= s.len(),
        all_digits(s.take(digit_prefix_len(s) as int)),
        digit_prefix_len(s) < s.len() ==> !is_digit(s[digit_prefix_len(s) as int]),
    decreases s.len(),
{
    if s.len() > 0 && is_digit(s[0]) {
        let t = s.drop_first();
        lemma_digit_prefix_is_digits(t);
        let k = digit_prefix_len(s) as int;
        assert forall|i: int| 0 <= i < k implies is_digit(#[trigger] s.take(k)[i]) by {
            if i > 0 {
                assert(s.take(k)[i] == t.take(k - 1)[i - 1]);
            }
        }
    }
}

/// How far a left-to-right reading of a size string has come.
#[derive(Clone, Copy)]
enum Stage {
    /// Only digits so far, or nothing.
    Digits,
    /// Digits, then a unit letter.
    Unit,
    /// Digits, a unit letter, then `i`.
    Infix,
    /// Digits and a whole suffix.
    Whole,
    /// Something that no size string starts with.
    Rejected,
}

/// How many characters of a suffix have been read at `stage`.
spec fn suffix_read(stage: Stage) -> int {
    match stage {
        Stage::Digits => 0,
        Stage::Unit => 1,
        Stage::Infix => 2,
        Stage::Whole => 3,
        Stage::Rejected => 0,
    }
}

/// What the reader knows after the first `i` characters of `s`.
spec fn reading(
    s: Seq<char>,
    i: int,
    stage: Stage,
    seen: bool,
    value: i64,
    overflow: bool,
    idx: u8,
) -> bool {
    let k = i - suffix_read(stage);
    match stage {
        Stage::Rejected => size_value(s) is None,
        _ => {
            &&& 0 <= k <= i <= s.len()
            &&& all_digits(s.take(k))
            &&& seen == (k > 0)
            &&& overflow ==> digits_value(s.take(k)) > i64::MAX
            &&& !overflow ==> value == digits_value(s.take(k))
            &&& stage is Digits ==> idx == 0
            &&& !(stage is Digits) ==> k > 0 && 1 <= idx <= 5 && s[k] == unit_letter(idx as nat)
            &&& (stage is Infix || stage is Whole) ==> s[k + 1] == 'i'
            &&& stage is Whole ==> s[k + 2] == 'B'
        },
    }
}

/// The value of a decimal digit, or `None` for any other character.
fn decimal_digit(c: char) -> (d: Option<i64>)
    ensures
        d is Some <==> is_digit(c),
        d matches Some(v) ==> v == c as int - '0' as int,
{
    match c {
        '0' => Some(0),
        '1' => Some(1),
        '2' => Some(2),
        '3' => Some(3),
        '4' => Some(4),
        '5' => Some(5),
        '6' => Some(6),
        '7' => Some(7),
        '8' => Some(8),
        '9' => Some(9),
        _ => None,
    }
}

/// The magnitude index of a unit letter, or 0 for any other character.
fn unit_index(c: char) -> (idx: u8)
    ensures
        idx <= 5,
        idx > 0 ==> c == unit_letter(idx as nat),
        idx == 0 ==> c != 'K' && c != 'M' && c != 'G' && c != 'T' && c != 'P',
{
    match c {
        'K' => 1,
        'M' => 2,
        'G' => 3,
        'T' => 4,
        'P' => 5,
        _ => 0,
    }
}

/// 1024 to the power `idx`, for the six magnitudes of the grammar.
fn magnitude_of(idx: u8) -> (m: i64)
    requires
        idx <= 5,
    ensures
        m == magnitude(idx as nat),
{
    proof {
        reveal_with_fuel(magnitude, 6);
    }
    match idx {
        0 => 1,
        1 => 1024,
        2 => 1048576,
        3 => 1073741824,
        4 => 1099511627776,
        _ => 1125899906842624,
    }
}

/// Reads a human-readable byte size: decimal digits, then nothing or one of
/// `KiB`, `MiB`, `GiB`, `TiB`, `PiB`. The result is the digits' number times
/// 1024 to the power of the suffix's index. Any other string is an
/// `InvalidSize` error, and so is a size that does not fit in an `i64`; the
/// error's message is the warning to show.
pub fn parse_size(size_str: &str) -> (r: Result<i64, CliError>)
    ensures
        match r {
            Ok(v) => v >= 0 && size_value(size_str@) == Some(v as nat),
            Err(e) => {
                &&& size_value(size_str@) matches Some(n) ==> n > i64::MAX
                &&& e@ == (CliErrorView {
                    kind: ErrorKind::InvalidSize,
                    msg: invalid_size_message(size_str@),
                })
            },
        },
{
    let ghost s = size_str@;
    let mut stage = Stage::Digits;
    let mut seen = false;
    let mut value: i64 = 0;
    let mut overflow = false;
    let mut idx: u8 = 0;
    for c in it: size_str.chars()
        invariant
            it.seq() == s,
            s == size_str@,
            reading(s, it.index() as int, stage, seen, value, overflow, idx),
    {
        let ghost i = it.index() as int;
        let ghost k = i - suffix_read(stage);
        match stage {
            Stage::Digits => {
                match decimal_digit(c) {
                    Some(d) => {
                        proof {
                            assert(s.take(i + 1).drop_last() =~= s.take(i));
                            assert forall|j: int| 0 <= j < i + 1 implies is_digit(
                                #[trigger] s.take(i + 1)[j],
                            ) by {
                                if j < i {
                                    assert(s.take(i + 1)[j] == s.take(i)[j]);
                                }
                            }
                        }
                        seen = true;
                        if !overflow {
                            match value.checked_mul(10) {
                                Some(tens) => match tens.checked_add(d) {
                                    Some(sum) => {
                                        value = sum;
                                    },
                                    None => {
                                        overflow = true;
                                    },
                                },
                                None => {
                                    overflow = true;
                                },
                            }
                        }
                    },
                    None => {
                        proof {
                            lemma_digit_prefix_len(s, i);
                        }
                        let unit = unit_index(c);
                        if unit > 0 && seen {
                            idx = unit;
                            stage = Stage::Unit;
                        } else {
                            stage = Stage::Rejected;
                        }
                    },
                }
            },
            Stage::Unit => {
                proof {
                    lemma_digit_prefix_len(s, k);
                }
                if c == 'i' {
                    stage = Stage::Infix;
                } else {
                    stage = Stage::Rejected;
                }
            },
            Stage::Infix => {
                proof {
                    lemma_digit_prefix_len(s, k);
                }
                if c == 'B' {
                    stage = Stage::Whole;
                } else {
                    stage = Stage::Rejected;
                }
            },
            Stage::Whole => {
                proof {
                    lemma_digit_prefix_len(s, k);
                }
                stage = Stage::Rejected;
            },
            Stage::Rejected => {},
        }
    }
    let ghost n = s.len() as int;
    let ghost k = n - suffix_read(stage);
    match stage {
        Stage::Digits => {
            proof {
                lemma_digit_prefix_len(s, n);
                assert(magnitude(0) == 1) by {
                    reveal_with_fuel(magnitude, 1);
                }
            }
            if seen && !overflow {
                return Ok(value);
            }
        },
        Stage::Whole => {
            proof {
                lemma_digit_prefix_len(s, k);
            }
            if !overflow {
                let unit = magnitude_of(idx);
                match value.checked_mul(unit) {
                    Some(product) => {
                        return Ok(product);
                    },
                    None => {},
                }
            } else {
                assert(magnitude(idx as nat) >= 1) by {
                    reveal_with_fuel(magnitude, 6);
                }
                assert(digits_value(s.take(k)) * magnitude(idx as nat) >= digits_value(s.take(k)))
                    by (nonlinear_arith)
                    requires
                        magnitude(idx as nat) >= 1,
                ;
            }
        },
        Stage::Unit | Stage::Infix => {
            proof {
                lemma_digit_prefix_len(s, k);
            }
        },
        Stage::Rejected => {},
    }
    Err(CliError::invalid_size(size_str))
}

} // verus!
