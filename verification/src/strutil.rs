use vstd::prelude::*;
use vstd::string::StrSliceExecFns;

verus! {

/// The Unicode lowercasing of a character sequence, as
/// `str::to_lowercase` computes it.
pub uninterp spec fn lower_of(s: Seq<char>) -> Seq<char>;

/// Relies on `str::to_lowercase`: the result depends on the characters
/// alone.
#[verifier::external_body]
pub(crate) fn lowercased(s: &String) -> (r: String)
    ensures
        r@ == lower_of(s@),
{
    s.to_lowercase()
}

/// A string that equals its own lowercasing.
pub open spec fn spec_is_lowercase(s: Seq<char>) -> bool {
    s == lower_of(s)
}

/// Returns true exactly when `s` equals its own lowercasing.
pub(crate) fn is_lowercase(s: &String) -> (r: bool)
    ensures
        r == spec_is_lowercase(s@),
{
    let low = lowercased(s);
    *s == low
}

/// The denomination carries the inter-blockchain transfer prefix
/// `ibc/`.
pub open spec fn spec_has_ibc_prefix(s: Seq<char>) -> bool {
    s.len() >= 4 && s[0] == 'i' && s[1] == 'b' && s[2] == 'c' && s[3] == '/'
}

/// Returns true exactly when `s` starts with `ibc/`.
pub(crate) fn has_ibc_prefix(s: &String) -> (r: bool)
    ensures
        r == spec_has_ibc_prefix(s@),
{
    let sl: &str = s.as_str();
    if sl.unicode_len() < 4 {
        return false;
    }
    sl.get_char(0) == 'i' && sl.get_char(1) == 'b' && sl.get_char(2) == 'c' && sl.get_char(3)
        == '/'
}

/// Lexicographic order on character sequences by code point, examined
/// from position `i` on.  A sequence that runs out first comes first.
pub open spec fn str_le_from(a: Seq<char>, b: Seq<char>, i: int) -> bool
    decreases a.len() - i,
{
    if i < 0 || i >= a.len() {
        true
    } else if i >= b.len() {
        false
    } else if a[i] == b[i] {
        str_le_from(a, b, i + 1)
    } else {
        (a[i] as u32) < (b[i] as u32)
    }
}

/// Lexicographic order on character sequences by code point.
pub open spec fn spec_str_le(a: Seq<char>, b: Seq<char>) -> bool {
    str_le_from(a, b, 0)
}

/// Returns true exactly when `a` comes at or before `b` in
/// lexicographic order by code point.
pub fn str_le(a: &String, b: &String) -> (r: bool)
    ensures
        r == spec_str_le(a@, b@),
{
    let sa: &str = a.as_str();
    let sb: &str = b.as_str();
    let la: usize = sa.unicode_len();
    let lb: usize = sb.unicode_len();
    let mut i: usize = 0;
    loop
        invariant
            i <= la,
            la == a@.len(),
            lb == b@.len(),
            sa@ == a@,
            sb@ == b@,
            spec_str_le(a@, b@) == str_le_from(a@, b@, i as int),
        decreases la - i,
    {
        if i >= la {
            return true;
        }
        if i >= lb {
            return false;
        }
        let ca = sa.get_char(i);
        let cb = sb.get_char(i);
        if ca != cb {
            return (ca as u32) < (cb as u32);
        }
        i = i + 1;
    }
}

/// The order is total: of any two sequences, one comes at or before
/// the other.
pub proof fn lemma_str_le_total(a: Seq<char>, b: Seq<char>)
    ensures
        spec_str_le(a, b) || spec_str_le(b, a),
{
    lemma_str_le_total_from(a, b, 0);
}

proof fn lemma_str_le_total_from(a: Seq<char>, b: Seq<char>, i: int)
    ensures
        str_le_from(a, b, i) || str_le_from(b, a, i),
    decreases a.len() - i,
{
    if i < 0 || i >= a.len() || i >= b.len() {
    } else if a[i] == b[i] {
        lemma_str_le_total_from(a, b, i + 1);
        assert(str_le_from(a, b, i) == str_le_from(a, b, i + 1));
        assert(str_le_from(b, a, i) == str_le_from(b, a, i + 1));
    } else {
        vstd::utf8::char_u32_cast(a[i], a[i] as u32);
        vstd::utf8::char_u32_cast(b[i], b[i] as u32);
        assert((a[i] as u32) != (b[i] as u32));
    }
}

/// The order is antisymmetric: two sequences that each come at or
/// before the other are equal.
pub proof fn lemma_str_le_antisym(a: Seq<char>, b: Seq<char>)
    requires
        spec_str_le(a, b),
        spec_str_le(b, a),
    ensures
        a == b,
{
    lemma_str_le_antisym_from(a, b, 0);
    assert(a =~= b);
}

proof fn lemma_str_le_antisym_from(a: Seq<char>, b: Seq<char>, i: int)
    requires
        0 <= i <= a.len(),
        0 <= i <= b.len(),
        str_le_from(a, b, i),
        str_le_from(b, a, i),
        forall|j: int| 0 <= j < i ==> a[j] == b[j],
    ensures
        a.len() == b.len(),
        forall|j: int| 0 <= j < a.len() ==> a[j] == b[j],
    decreases a.len() - i,
{
    if i >= a.len() {
        if i < b.len() {
            assert(!str_le_from(b, a, i));
        }
    } else if i >= b.len() {
        assert(!str_le_from(a, b, i));
    } else if a[i] == b[i] {
        lemma_str_le_antisym_from(a, b, i + 1);
    } else {
        assert(!((a[i] as u32) < (b[i] as u32)) || !((b[i] as u32) < (a[i] as u32)));
    }
}


/// The character for one decimal digit.
pub open spec fn spec_digit_char(d: int) -> char {
    ((48 + d) as u8) as char
}

/// The decimal digits of a nonnegative number, most significant
/// first; zero has no digits.
pub open spec fn spec_dec_digits(n: int) -> Seq<char>
    decreases n,
{
    if n <= 0 {
        Seq::empty()
    } else {
        spec_dec_digits(n / 10).push(spec_digit_char(n % 10))
    }
}

/// The decimal writing of a nonnegative number.
pub open spec fn spec_dec_str(n: int) -> Seq<char> {
    if n == 0 {
        seq!['0']
    } else {
        spec_dec_digits(n)
    }
}

/// Relies on the standard decimal formatting of `u128`: the digits,
/// most significant first, with a lone zero written as `0`.
#[verifier::external_body]
pub(crate) fn format_u128(n: u128) -> (r: String)
    ensures
        r@ == spec_dec_str(n as int),
{
    format!("{}", n)
}

} // verus!
