//! E-mail verifications are addressed by their row number or by their code: which
//! of the two a path segment is.

use vstd::prelude::*;
use crate::text::chars_of;

verus! {

/// Whether `c` is numeric, as Unicode defines it: a digit, a letter that stands for
/// a number, or another numeric sign.
pub uninterp spec fn is_numeric(c: char) -> bool;

/// Calls `char::is_numeric` of std. The contract names the result `is_numeric(c)`;
/// which characters Unicode counts as numeric is not stated here.
#[verifier::external_body]
fn char_is_numeric(c: char) -> (b: bool)
    ensures
        b == is_numeric(c),
{
    c.is_numeric()
}

/// Whether every character of `s` is numeric. The empty text is.
pub open spec fn all_numeric(s: Seq<char>) -> bool {
    forall|i: int| 0 <= i < s.len() ==> is_numeric(#[trigger] s[i])
}

/// Whether `c` is one of the digits `0` to `9`.
pub open spec fn is_decimal_digit(c: char) -> bool {
    48 <= c as u32 <= 57
}

/// Whether every character of `s` is one of the digits `0` to `9`.
pub open spec fn all_decimal_digits(s: Seq<char>) -> bool {
    forall|i: int| 0 <= i < s.len() ==> is_decimal_digit(#[trigger] s[i])
}

/// The number that the decimal digits `s` spell. Leading zeros do not count.
pub open spec fn digits_value(s: Seq<char>) -> int
    decreases s.len(),
{
    if s.len() == 0 {
        0
    } else {
        digits_value(s.drop_last()) * 10 + (s.last() as u32 - 48)
    }
}

/// The row number that `s` spells: `s` is one decimal digit or more, and the number
/// is at most the largest 32-bit signed number.
pub open spec fn row_id_of(s: Seq<char>) -> Option<i32> {
    if s.len() > 0 && all_decimal_digits(s) && digits_value(s) <= i32::MAX {
        Some(digits_value(s) as i32)
    } else {
        None
    }
}

/// What a path segment addresses an e-mail verification by.
#[derive(Clone, Debug, PartialEq, Eq)]
pub enum VerificationKey {
    /// By its row number.
    RowId(i32),
    /// By its verification code.
    Code(String),
    /// By nothing: the segment is numeric and yet spells no row number.
    Unreadable,
}

/// What a `VerificationKey` holds.
pub enum VerificationKeyView {
    RowId(i32),
    Code(Seq<char>),
    Unreadable,
}

impl View for VerificationKey {
    type V = VerificationKeyView;

    open spec fn view(&self) -> VerificationKeyView {
        match self {
            VerificationKey::RowId(id) => VerificationKeyView::RowId(*id),
            VerificationKey::Code(code) => VerificationKeyView::Code(code@),
            VerificationKey::Unreadable => VerificationKeyView::Unreadable,
        }
    }
}

/// What the segment `id` addresses by, given whether all of its characters are
/// numeric: a numeric segment is a row number, any other is a code.
pub open spec fn key_from(id: Seq<char>, numeric: bool) -> VerificationKeyView {
    if numeric {
        match row_id_of(id) {
            Some(row) => VerificationKeyView::RowId(row),
            None => VerificationKeyView::Unreadable,
        }
    } else {
        VerificationKeyView::Code(id)
    }
}

/// What the segment `id` addresses an e-mail verification by.
pub open spec fn verification_key_of(id: Seq<char>) -> VerificationKeyView {
    key_from(id, all_numeric(id))
}

/// A number spelled by decimal digits does not shrink when digits are added.
pub proof fn lemma_digits_value_grows(s: Seq<char>, j: int)
    requires
        all_decimal_digits(s),
        0 <= j <= s.len(),
    ensures
        0 <= digits_value(s.take(j)) <= digits_value(s),
    decreases s.len() - j,
{
    if j == s.len() {
        assert(s.take(j) =~= s);
        lemma_digits_value_nonnegative(s);
    } else {
        lemma_digits_value_grows(s, j + 1);
        assert(s.take(j + 1).drop_last() =~= s.take(j));
        assert(s.take(j + 1).last() == s[j]);
        lemma_digits_value_nonnegative(s.take(j));
    }
}

/// A number spelled by decimal digits is not negative.
pub proof fn lemma_digits_value_nonnegative(s: Seq<char>)
    requires
        all_decimal_digits(s),
    ensures
        0 <= digits_value(s),
    decreases s.len(),
{
    if s.len() > 0 {
        assert(is_decimal_digit(s[s.len() - 1]));
        lemma_digits_value_nonnegative(s.drop_last());
    }
}

/// Whether every character of `s` is numeric.
pub fn is_all_numeric(s: &str) -> (yes: bool)
    ensures
        yes == all_numeric(s@),
{
    let v = chars_of(s);
    let mut i: usize = 0;
    while i < v.len()
        invariant
            i <= v.len(),
            v@ == s@,
            forall|k: int| 0 <= k < i ==> is_numeric(#[trigger] v@[k]),
        decreases v.len() - i,
    {
        if !char_is_numeric(v[i]) {
            return false;
        }
        i += 1;
    }
    true
}

/// The row number that `s` spells, if it spells one.
pub fn parse_row_id(s: &str) -> (row: Option<i32>)
    ensures
        row == row_id_of(s@),
{
    let v = chars_of(s);
    if v.len() == 0 {
        return None;
    }
    let mut value: i64 = 0;
    let mut i: usize = 0;
    assert(v@.take(0) =~= Seq::<char>::empty());
    while i < v.len()
        invariant
            i <= v.len(),
            v@ == s@,
            all_decimal_digits(v@.take(i as int)),
            value == digits_value(v@.take(i as int)),
            0 <= value <= i32::MAX,
        decreases v.len() - i,
    {
        let d: u32 = v[i] as u32;
        if d < 48 || d > 57 {
            assert(!is_decimal_digit(v@[i as int]));
            return None;
        }
        let ghost next = v@.take(i + 1);
        proof {
            assert(next.drop_last() =~= v@.take(i as int));
            assert(next.last() == v@[i as int]);
            assert forall|k: int| 0 <= k < next.len() implies is_decimal_digit(
                #[trigger] next[k],
            ) by {
                if k < i {
                    assert(v@.take(i as int)[k] == next[k]);
                }
            }
        }
        value = value * 10 + (d as i64 - 48);
        if value > i32::MAX as i64 {
            proof {
                if all_decimal_digits(v@) {
                    lemma_digits_value_grows(v@, i + 1);
                }
            }
            return None;
        }
        i += 1;
    }
    assert(v@.take(v@.len() as int) =~= v@);
    Some(value as i32)
}

/// What the segment `id` addresses by, given whether all of its characters are
/// numeric.
pub fn key_for(id: &str, numeric: bool) -> (key: VerificationKey)
    ensures
        key@ == key_from(id@, numeric),
{
    if numeric {
        match parse_row_id(id) {
            Some(row) => VerificationKey::RowId(row),
            None => VerificationKey::Unreadable,
        }
    } else {
        VerificationKey::Code(id.to_owned())
    }
}

/// What the segment `id` addresses an e-mail verification by.
pub fn verification_key(id: &str) -> (key: VerificationKey)
    ensures
        key@ == verification_key_of(id@),
{
    key_for(id, is_all_numeric(id))
}

} // verus!
