//! Verified analysis of the tabular input files.
//!
//! The surrounding binary reads the composition/free-energy table and the
//! concentration column and turns them into plain byte and integer columns;
//! the decisions made on those values are verified here: finding the
//! delimiter byte, recognizing the NUPACK row layout, and splitting a
//! numeric token into the parts that are then converted to a float.

use vstd::prelude::*;

use crate::extras::OptimizerError;

verus! {

/// An ASCII digit or letter, exactly the bytes `u8::is_ascii_alphanumeric`
/// accepts.
pub open spec fn is_alnum_byte(b: u8) -> bool {
    (48 <= b && b <= 57) || (65 <= b && b <= 90) || (97 <= b && b <= 122)
}

/// Whether `b` occurs in `s`.
pub open spec fn contains_byte(s: Seq<u8>, b: u8) -> bool {
    exists|i: int| 0 <= i < s.len() && s[i] == b
}

/// Whether `k` is the first index of `b` in `s`.
pub open spec fn is_first_index(s: Seq<u8>, b: u8, k: int) -> bool {
    &&& 0 <= k < s.len()
    &&& s[k] == b
    &&& forall|j: int| 0 <= j < k ==> s[j] != b
}

/// Finds the delimiter of a tabular input file: the first byte that is not
/// an ASCII digit or letter.  A file holding nothing but digits and letters
/// has no recognizable delimiter and is rejected.
pub fn detect_delimiter(file_content: &[u8]) -> (r: Result<u8, OptimizerError>)
    ensures
        r is Ok <==> (exists|i: int|
            0 <= i < file_content@.len() && !is_alnum_byte(file_content@[i])),
        (r matches Ok(b) ==> exists|k: int|
            (#[trigger] is_first_non_alnum(file_content@, k)) && b == file_content@[k]),
        r matches Err(e) ==> e.0@ == "Failed to detect delimiter"@,
{
    let n = file_content.len();
    for i in 0..n
        invariant
            n == file_content@.len(),
            forall|j: int| 0 <= j < i ==> is_alnum_byte(file_content@[j]),
    {
        let b = file_content[i];
        if !((48 <= b && b <= 57) || (65 <= b && b <= 90) || (97 <= b && b <= 122)) {
            proof {
                assert(is_first_non_alnum(file_content@, i as int));
            }
            return Ok(b);
        }
    }
    Err(OptimizerError(String::from_str("Failed to detect delimiter")))
}

/// Whether `k` is the first index of `s` holding a byte that is not
/// alphanumeric.
pub open spec fn is_first_non_alnum(s: Seq<u8>, k: int) -> bool {
    &&& 0 <= k < s.len()
    &&& !is_alnum_byte(s[k])
    &&& forall|j: int| 0 <= j < k ==> is_alnum_byte(s[j])
}

/// How many leading rows of the table are inspected for the NUPACK layout.
pub open spec fn nupack_sample(rows: int) -> int {
    if rows < 20 {
        rows
    } else {
        20
    }
}

/// Recognizes the NUPACK row layout of the composition table: in each of the
/// first `min(rows, 20)` rows, the first column counts 1, 2, 3, … and the
/// second column is the constant 1.  `index_col` and `count_col` are those
/// two columns, read as integers with unreadable entries already replaced by
/// zero.
pub fn is_nupack_format(index_col: &Vec<i64>, count_col: &Vec<i64>) -> (r: bool)
    requires
        index_col@.len() == count_col@.len(),
    ensures
        r == (forall|i: int|
            0 <= i < nupack_sample(index_col@.len() as int) ==> (index_col@[i] == i + 1
                && count_col@[i] == 1)),
{
    let rows = index_col.len();
    let sample = if rows < 20 {
        rows
    } else {
        20
    };
    for i in 0..sample
        invariant
            sample == nupack_sample(index_col@.len() as int),
            sample <= index_col@.len(),
            index_col@.len() == count_col@.len(),
            sample <= 20,
            forall|j: int| 0 <= j < i ==> (index_col@[j] == j + 1 && count_col@[j] == 1),
    {
        if index_col[i] != (i as i64) + 1 || count_col[i] != 1 {
            return false;
        }
    }
    true
}

/// The value of a run of decimal digit bytes, most significant first.
pub open spec fn digits_value(s: Seq<u8>) -> int
    decreases s.len(),
{
    if s.len() == 0 {
        0
    } else {
        digits_value(s.drop_last()) * 10 + (s.last() - 48)
    }
}

/// A non-empty run of decimal digit bytes.
pub open spec fn all_digits(s: Seq<u8>) -> bool {
    s.len() > 0 && forall|i: int| 0 <= i < s.len() ==> (48 <= #[trigger] s[i] && s[i] <= 57)
}

/// A well-formed decimal integer token: an optional sign byte followed by at
/// least one digit.
pub open spec fn is_int_token(s: Seq<u8>) -> bool {
    if s.len() == 0 {
        false
    } else if s[0] == 43 || s[0] == 45 {
        all_digits(s.drop_first())
    } else {
        all_digits(s)
    }
}

/// The value of a well-formed decimal integer token.
pub open spec fn int_token_value(s: Seq<u8>) -> int
    recommends
        is_int_token(s),
{
    if s.len() > 0 && s[0] == 45 {
        -digits_value(s.drop_first())
    } else if s.len() > 0 && s[0] == 43 {
        digits_value(s.drop_first())
    } else {
        digits_value(s)
    }
}

proof fn lemma_digits_value_nonneg(s: Seq<u8>)
    requires
        forall|i: int| 0 <= i < s.len() ==> (48 <= #[trigger] s[i] && s[i] <= 57),
    ensures
        digits_value(s) >= 0,
    decreases s.len(),
{
    if s.len() > 0 {
        lemma_digits_value_nonneg(s.drop_last());
    }
}

/// A numeric token of the free-energy column, split into the parts that the
/// float conversion then works on.
#[derive(Debug, PartialEq, Eq)]
pub enum NumberToken {
    /// The token holds an `e`: base and exponent parts around its first
    /// occurrence, as in `1.5e-3`.
    Scientific { base: Vec<u8>, exponent: Vec<u8> },
    /// No `e`, but a `.` with something after it: whole and fractional
    /// parts around its first occurrence.
    Fractional { whole: Vec<u8>, fraction: Vec<u8> },
    /// Neither an `e` nor a fractional part: the value stands alone (a
    /// trailing `.`, if any, is dropped).
    Whole { digits: Vec<u8> },
}

/// Copies `v[from..to]` into an owned vector.
fn copy_range(v: &[u8], from: usize, to: usize) -> (out: Vec<u8>)
    requires
        from <= to <= v@.len(),
    ensures
        out@ == v@.subrange(from as int, to as int),
{
    let mut out: Vec<u8> = Vec::new();
    for i in from..to
        invariant
            from <= i <= to <= v@.len(),
            out@ == v@.subrange(from as int, i as int),
    {
        out.push(v[i]);
        proof {
            assert(out@ =~= v@.subrange(from as int, i + 1));
        }
    }
    out
}

/// Finds the first occurrence of `b` in `v`.
fn find_byte(v: &[u8], b: u8) -> (r: Option<usize>)
    ensures
        r is Some <==> contains_byte(v@, b),
        r matches Some(k) ==> is_first_index(v@, b, k as int),
{
    let n = v.len();
    for i in 0..n
        invariant
            n == v@.len(),
            forall|j: int| 0 <= j < i ==> v@[j] != b,
    {
        if v[i] == b {
            return Some(i);
        }
    }
    None
}

/// Splits one numeric token the way the float conversion expects it:
/// a token holding an `e` is cut at the first `e` into base and exponent; a
/// token holding a `.` is cut at the first `.` into whole and fractional
/// parts, with an empty fractional part collapsing into a whole value; any
/// other token is a whole value as it stands.
pub fn split_number_token(value: &[u8]) -> (t: NumberToken)
    ensures
        t is Scientific <==> contains_byte(value@, 101),
        (t matches NumberToken::Scientific { base, exponent } ==> exists|k: int|
            (#[trigger] is_first_index(value@, 101, k)) && base@ == value@.subrange(0, k)
                && exponent@ == value@.subrange(k + 1, value@.len() as int)),
        !contains_byte(value@, 101) ==> ((t is Fractional) <==> exists|k: int|
            (#[trigger] is_first_index(value@, 46, k)) && k + 1 < value@.len()),
        (t matches NumberToken::Fractional { whole, fraction } ==> exists|k: int|
            (#[trigger] is_first_index(value@, 46, k)) && k + 1 < value@.len() && whole@
                == value@.subrange(0, k) && fraction@ == value@.subrange(
                k + 1,
                value@.len() as int,
            )),
        !contains_byte(value@, 101) && contains_byte(value@, 46) ==> (t
            matches NumberToken::Whole { digits } ==> exists|k: int|
            (#[trigger] is_first_index(value@, 46, k)) && k + 1 == value@.len() && digits@
                == value@.subrange(0, k)),
        (!contains_byte(value@, 101) && !contains_byte(value@, 46) ==> (t
            matches NumberToken::Whole { digits } && digits@ == value@)),
{
    let n = value.len();
    if let Some(k) = find_byte(value, 101) {
        let base = copy_range(value, 0, k);
        let exponent = copy_range(value, k + 1, n);
        return NumberToken::Scientific { base, exponent };
    }
    if let Some(k) = find_byte(value, 46) {
        if k + 1 < n {
            let whole = copy_range(value, 0, k);
            let fraction = copy_range(value, k + 1, n);
            return NumberToken::Fractional { whole, fraction };
        }
        let digits = copy_range(value, 0, k);
        return NumberToken::Whole { digits };
    }
    let digits = copy_range(value, 0, n);
    proof {
        assert(value@.subrange(0, value@.len() as int) =~= value@);
    }
    NumberToken::Whole { digits }
}

/// Reads the exponent part of a scientific token as a signed decimal
/// integer, exactly as the standard integer parser does: an optional sign
/// byte, then at least one ASCII digit, and a value that fits the type;
/// anything else is rejected.
pub fn parse_exponent(s: &[u8]) -> (r: Option<i32>)
    ensures
        r is Some <==> (is_int_token(s@) && -0x8000_0000 <= int_token_value(s@) < 0x8000_0000),
        r matches Some(v) ==> v as int == int_token_value(s@),
{
    let n = s.len();
    if n == 0 {
        return None;
    }
    let first = s[0];
    let negative = first == 45;
    let start: usize = if first == 43 || first == 45 {
        1
    } else {
        0
    };
    if start == n {
        // a bare sign has no digits
        return None;
    }
    let mut acc: i64 = 0;
    let mut overflow = false;
    let mut i = start;
    while i < n
        invariant
            start <= i <= n == s@.len(),
            start <= 1 && start < n,
            start == 1 <==> (s@[0] == 43 || s@[0] == 45),
            negative == (s@[0] == 45),
            forall|j: int| start <= j < i ==> (48 <= #[trigger] s@[j] && s@[j] <= 57),
            !overflow ==> (0 <= acc <= 0x8000_0000 && acc == digits_value(
                s@.subrange(start as int, i as int),
            )),
            overflow ==> digits_value(s@.subrange(start as int, i as int)) > 0x8000_0000,
        decreases n - i,
    {
        let b = s[i];
        if !(48 <= b && b <= 57) {
            proof {
                if start == 1 {
                    assert(s@.drop_first()[i - 1] == s@[i as int]);
                    assert(!all_digits(s@.drop_first()));
                } else {
                    assert(!all_digits(s@));
                }
            }
            return None;
        }
        proof {
            assert(s@.subrange(start as int, i + 1).drop_last() =~= s@.subrange(
                start as int,
                i as int,
            ));
            assert(s@.subrange(start as int, i + 1).last() == s@[i as int]);
        }
        if !overflow {
            acc = acc * 10 + (b - 48) as i64;
            if acc > 0x8000_0000 {
                overflow = true;
            }
        } else {
            proof {
                lemma_digits_value_nonneg(s@.subrange(start as int, i as int));
            }
        }
        i += 1;
    }
    proof {
        assert(s@.subrange(start as int, n as int).len() > 0);
        if start == 1 {
            assert(s@.drop_first() =~= s@.subrange(1, n as int));
        } else {
            assert(s@.subrange(0, n as int) =~= s@);
        }
        assert(is_int_token(s@));
    }
    if overflow {
        // the magnitude already exceeds the type's range for either sign
        return None;
    }
    if negative {
        proof {
            assert(int_token_value(s@) == -digits_value(s@.subrange(1, n as int)));
        }
        Some((-acc) as i32)
    } else {
        if acc <= 0x7FFF_FFFF {
            Some(acc as i32)
        } else {
            // exactly one past the largest positive value
            None
        }
    }
}

} // verus!
