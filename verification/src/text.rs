//! Character-level text helpers shared by the formatting and parsing code.
//!
//! Strings are handled as sequences of `char`s; the few standard-library calls
//! that cross between `String`/`&str` and `Vec<char>` are wrapped here.

use vstd::prelude::*;
use vstd::utf8::is_ascii_chars;

verus! {

/// The ASCII digit for `d` (`d < 10`).
pub open spec fn digit_char(d: nat) -> char {
    (48 + d) as char
}

/// Decimal representation of a natural number, without leading zeros.
pub open spec fn decimal(n: nat) -> Seq<char>
    decreases n,
{
    if n < 10 {
        seq![digit_char(n)]
    } else {
        decimal(n / 10).push(digit_char(n % 10))
    }
}

/// The characters of a string slice (`str::chars`, collected).
#[verifier::external_body]
pub(crate) fn chars_of(s: &str) -> (v: Vec<char>)
    ensures
        v@ == s@,
{
    s.chars().collect()
}

/// A `String` made of the given characters (`FromIterator<&char>`).
#[verifier::external_body]
pub(crate) fn string_from_chars(v: &[char]) -> (s: String)
    ensures
        s@ == v@,
{
    v.iter().collect()
}

/// Appends the characters of `s` to `out`.
pub fn push_str(out: &mut Vec<char>, s: &str)
    ensures
        final(out)@ == old(out)@ + s@,
{
    let mut v = chars_of(s);
    out.append(&mut v);
}

/// Appends the decimal representation of `n` to `out`.
pub fn push_decimal(out: &mut Vec<char>, n: u128)
    ensures
        final(out)@ == old(out)@ + decimal(n as nat),
    decreases n,
{
    if n >= 10 {
        push_decimal(out, n / 10);
    }
    let d = (n % 10) as u8;
    let c = (48u8 + d) as char;
    out.push(c);
    assert(out@ == old(out)@ + decimal(n as nat));
}

/// `String::push`.
#[verifier::external_body]
pub(crate) fn string_push(s: &mut String, c: char)
    ensures
        final(s)@ == old(s)@.push(c),
{
    s.push(c);
}

/// `String::pop`: removes and returns the last character, if any.
#[verifier::external_body]
pub(crate) fn string_pop(s: &mut String) -> (r: Option<char>)
    ensures
        old(s)@.len() == 0 ==> r is None && final(s)@ == old(s)@,
        old(s)@.len() > 0 ==> r == Some(old(s)@.last()) && final(s)@ == old(s)@.drop_last(),
{
    s.pop()
}

/// Unicode `White_Space` (the property `char::is_whitespace` tests).
pub open spec fn is_white_space(c: char) -> bool {
    let u = c as u32;
    (9 <= u && u <= 13) || u == 32 || u == 0x85 || u == 0xA0 || u == 0x1680 || (0x2000 <= u && u
        <= 0x200A) || u == 0x2028 || u == 0x2029 || u == 0x202F || u == 0x205F || u == 0x3000
}

/// Whether `c` is Unicode white space.
pub fn is_whitespace(c: char) -> (b: bool)
    ensures
        b == is_white_space(c),
{
    let u = c as u32;
    (9 <= u && u <= 13) || u == 32 || u == 0x85 || u == 0xA0 || u == 0x1680 || (0x2000 <= u && u
        <= 0x200A) || u == 0x2028 || u == 0x2029 || u == 0x202F || u == 0x205F || u == 0x3000
}

/// Index of the first non-white-space character at or after `i` (or the length).
pub open spec fn trim_start_index(s: Seq<char>, i: nat) -> nat
    decreases s.len() - i,
{
    if i >= s.len() || !is_white_space(s[i as int]) {
        i
    } else {
        trim_start_index(s, i + 1)
    }
}

/// One past the last non-white-space character at or before `j` (or 0).
pub open spec fn trim_end_index(s: Seq<char>, j: nat) -> nat
    decreases j,
{
    if j == 0 || j > s.len() || !is_white_space(s[j - 1]) {
        j
    } else {
        trim_end_index(s, (j - 1) as nat)
    }
}

/// `s` without leading and trailing white space (`str::trim`).
pub open spec fn trim(s: Seq<char>) -> Seq<char> {
    let a = trim_start_index(s, 0);
    let b = trim_end_index(s, s.len());
    if a < b {
        s.subrange(a as int, b as int)
    } else {
        Seq::empty()
    }
}

proof fn lemma_trim_start_bound(s: Seq<char>, i: nat)
    requires
        i <= s.len(),
    ensures
        i <= trim_start_index(s, i) <= s.len(),
        trim_start_index(s, i) < s.len() ==> !is_white_space(s[trim_start_index(s, i) as int]),
        forall|k: int| i <= k < trim_start_index(s, i) ==> is_white_space(#[trigger] s[k]),
    decreases s.len() - i,
{
    if i < s.len() && is_white_space(s[i as int]) {
        lemma_trim_start_bound(s, i + 1);
    }
}

proof fn lemma_trim_end_bound(s: Seq<char>, j: nat)
    requires
        j <= s.len(),
    ensures
        trim_end_index(s, j) <= j,
        trim_end_index(s, j) > 0 ==> !is_white_space(s[trim_end_index(s, j) - 1]),
        forall|k: int| trim_end_index(s, j) <= k < j ==> is_white_space(#[trigger] s[k]),
    decreases j,
{
    if j > 0 && is_white_space(s[j - 1]) {
        lemma_trim_end_bound(s, (j - 1) as nat);
    }
}

/// A string is blank after trimming exactly when all of it is white space.
pub proof fn lemma_trim_empty(s: Seq<char>)
    ensures
        trim(s).len() == 0 <==> forall|k: int| 0 <= k < s.len() ==> is_white_space(#[trigger] s[k]),
{
    lemma_trim_start_bound(s, 0);
    lemma_trim_end_bound(s, s.len());
    let a = trim_start_index(s, 0);
    let b = trim_end_index(s, s.len());
    if a < b {
        assert(!is_white_space(s[a as int]));
    } else if a < s.len() {
        assert(!is_white_space(s[a as int]));
        assert(b > a ==> false);
        if b > 0 {
            assert(!is_white_space(s[b - 1]));
        }
        assert(is_white_space(s[a as int]));
    }
}

/// The characters of `v` without leading and trailing white space.
pub fn trim_chars(v: &Vec<char>) -> (r: Vec<char>)
    ensures
        r@ == trim(v@),
{
    let n = v.len();
    let mut a: usize = 0;
    while a < n && is_whitespace(v[a])
        invariant
            a <= n == v@.len(),
            trim_start_index(v@, 0) == trim_start_index(v@, a as nat),
        decreases n - a,
    {
        a = a + 1;
    }
    let mut b: usize = n;
    while b > 0 && is_whitespace(v[b - 1])
        invariant
            b <= n == v@.len(),
            trim_end_index(v@, n as nat) == trim_end_index(v@, b as nat),
        decreases b,
    {
        b = b - 1;
    }
    let mut r: Vec<char> = Vec::new();
    if a < b {
        let mut i = a;
        while i < b
            invariant
                a <= i <= b <= n == v@.len(),
                r@ == v@.subrange(a as int, i as int),
            decreases b - i,
        {
            r.push(v[i]);
            i = i + 1;
        }
    }
    r
}

/// Whether `s` is empty or all white space (`s.trim().is_empty()`).
pub fn is_blank(s: &str) -> (b: bool)
    ensures
        b == (trim(s@).len() == 0),
{
    let v = chars_of(s);
    let t = trim_chars(&v);
    t.len() == 0
}

/// `needle` occurs in `hay` as a contiguous substring.
pub open spec fn contains(hay: Seq<char>, needle: Seq<char>) -> bool {
    exists|i: int|
        0 <= i && i + needle.len() <= hay.len() && #[trigger] hay.subrange(i, i + needle.len())
            == needle
}

/// Substring test (`str::contains` with a string pattern).
pub fn contains_chars(hay: &Vec<char>, needle: &Vec<char>) -> (b: bool)
    ensures
        b == contains(hay@, needle@),
{
    let n = hay.len();
    let m = needle.len();
    if m > n {
        assert(!contains(hay@, needle@));
        return false;
    }
    let mut i: usize = 0;
    while i <= n - m
        invariant
            m <= n,
            n == hay@.len(),
            m == needle@.len(),
            i <= n - m + 1,
            forall|k: int| 0 <= k < i ==> #[trigger] hay@.subrange(k, k + m) != needle@,
        decreases n - m + 1 - i,
    {
        let mut j: usize = 0;
        while j < m && hay[i + j] == needle[j]
            invariant
                i + m <= n,
                j <= m,
                n == hay@.len(),
                m == needle@.len(),
                forall|t: int| 0 <= t < j ==> hay@[i + t] == needle@[t],
            decreases m - j,
        {
            j = j + 1;
        }
        if j == m {
            assert(hay@.subrange(i as int, i + m) =~= needle@);
            return true;
        }
        assert(hay@.subrange(i as int, i + m)[j as int] != needle@[j as int]);
        i = i + 1;
    }
    assert forall|k: int| 0 <= k && k + needle@.len() <= hay@.len() implies #[trigger] hay@.subrange(
        k,
        k + needle@.len(),
    ) != needle@ by {
        assert(k < i);
    }
    false
}

/// `c` folded to ASCII lower case (non-ASCII letters unchanged).
pub open spec fn ascii_lower(c: char) -> char {
    if 'A' <= c && c <= 'Z' {
        ((c as u32) + 32) as char
    } else {
        c
    }
}

/// Equal ignoring ASCII case (`str::eq_ignore_ascii_case`).
pub open spec fn eq_ignore_ascii_case(a: Seq<char>, b: Seq<char>) -> bool {
    a.len() == b.len() && forall|k: int| 0 <= k < a.len() ==> ascii_lower(#[trigger] a[k])
        == ascii_lower(b[k])
}

fn lower_ascii(c: char) -> (r: char)
    ensures
        r == ascii_lower(c),
{
    if 'A' <= c && c <= 'Z' {
        ((c as u8) + 32) as char
    } else {
        c
    }
}

/// Case-insensitive ASCII comparison of two strings.
pub fn eq_ignore_case(a: &str, b: &str) -> (r: bool)
    ensures
        r == eq_ignore_ascii_case(a@, b@),
{
    let x = chars_of(a);
    let y = chars_of(b);
    if x.len() != y.len() {
        return false;
    }
    let mut i: usize = 0;
    while i < x.len()
        invariant
            x@ == a@,
            y@ == b@,
            x@.len() == y@.len(),
            i <= x@.len(),
            forall|k: int| 0 <= k < i ==> ascii_lower(#[trigger] x@[k]) == ascii_lower(y@[k]),
        decreases x@.len() - i,
    {
        if lower_ascii(x[i]) != lower_ascii(y[i]) {
            return false;
        }
        i = i + 1;
    }
    true
}

/// The full Unicode lower-case mapping of a string (`str::to_lowercase`).
pub uninterp spec fn unicode_lowercase(s: Seq<char>) -> Seq<char>;

/// The full Unicode upper-case mapping of a string (`str::to_uppercase`).
pub uninterp spec fn unicode_uppercase(s: Seq<char>) -> Seq<char>;

/// Whether a character is alphabetic or numeric in Unicode
/// (`char::is_alphanumeric`).
pub uninterp spec fn unicode_alphanumeric(c: char) -> bool;

/// `c` folded to ASCII upper case (non-ASCII letters unchanged).
pub open spec fn ascii_upper(c: char) -> char {
    if 'a' <= c && c <= 'z' {
        ((c as u32) - 32) as char
    } else {
        c
    }
}

/// The lower case of a text: on ASCII text, character by character; on
/// other text, the Unicode mapping.
pub open spec fn lowercase_text(s: Seq<char>) -> Seq<char> {
    if is_ascii_chars(s) {
        s.map_values(|c: char| ascii_lower(c))
    } else {
        unicode_lowercase(s)
    }
}

/// The upper case of a text: on ASCII text, character by character; on
/// other text, the Unicode mapping.
pub open spec fn uppercase_text(s: Seq<char>) -> Seq<char> {
    if is_ascii_chars(s) {
        s.map_values(|c: char| ascii_upper(c))
    } else {
        unicode_uppercase(s)
    }
}

/// `str::to_lowercase`: the result is named by `unicode_lowercase`, a function
/// of the argument alone; on ASCII text it is the ASCII lower case, character
/// by character (the Unicode lower-case mapping of an ASCII letter is its ASCII
/// lower case, and other ASCII characters map to themselves).
#[verifier::external_body]
pub(crate) fn to_lowercase(s: &str) -> (r: String)
    ensures
        r@ == unicode_lowercase(s@),
        is_ascii_chars(s@) ==> r@ == s@.map_values(|c: char| ascii_lower(c)),
{
    s.to_lowercase()
}

/// `str::to_uppercase`: the result is named by `unicode_uppercase`, a function
/// of the argument alone; on ASCII text it is the ASCII upper case, character
/// by character.
#[verifier::external_body]
pub(crate) fn to_uppercase(s: &str) -> (r: String)
    ensures
        r@ == unicode_uppercase(s@),
        is_ascii_chars(s@) ==> r@ == s@.map_values(|c: char| ascii_upper(c)),
{
    s.to_uppercase()
}

/// `char::is_alphanumeric`: the result is named by `unicode_alphanumeric`, a
/// function of the character alone.
#[verifier::external_body]
pub(crate) fn is_alphanumeric(c: char) -> (b: bool)
    ensures
        b == unicode_alphanumeric(c),
{
    c.is_alphanumeric()
}

/// `s.trim().to_string()`.
pub fn trim_str(s: &str) -> (r: String)
    ensures
        r@ == trim(s@),
{
    let v = chars_of(s);
    let t = trim_chars(&v);
    string_from_chars(t.as_slice())
}

/// Whether `c` is an ASCII decimal digit.
pub open spec fn is_digit(c: char) -> bool {
    '0' <= c && c <= '9'
}

/// The number that a run of ASCII digits spells (leading zeros allowed).
pub open spec fn digits_value(s: Seq<char>) -> nat
    decreases s.len(),
{
    if s.len() == 0 {
        0
    } else {
        digits_value(s.drop_last()) * 10 + (s.last() as nat - 48) as nat
    }
}

/// `s` without one leading `+`, if it has one.
pub open spec fn unsigned_digits(s: Seq<char>) -> Seq<char> {
    if s.len() > 0 && s[0] == '+' {
        s.drop_first()
    } else {
        s
    }
}

/// Every character of `d` is an ASCII digit.
pub open spec fn all_digits(d: Seq<char>) -> bool {
    forall|i: int| 0 <= i < d.len() ==> is_digit(#[trigger] d[i])
}

/// What `u16::from_str` accepts: an optional `+`, then one or more ASCII
/// digits whose value fits in 16 bits.
pub open spec fn parse_u16_text(s: Seq<char>) -> Option<u16> {
    let d = unsigned_digits(s);
    if d.len() > 0 && all_digits(d) && digits_value(d) <= 65535 {
        Some(digits_value(d) as u16)
    } else {
        None
    }
}

/// Parses a decimal `u16` as `str::parse::<u16>` does.
pub fn parse_u16(s: &str) -> (r: Option<u16>)
    ensures
        r == parse_u16_text(s@),
{
    let v = chars_of(s);
    let n = v.len();
    let start: usize = if n > 0 && v[0] == '+' {
        1
    } else {
        0
    };
    let ghost d = unsigned_digits(s@);
    assert(d =~= v@.subrange(start as int, n as int));
    if start == n {
        return None;
    }
    let mut acc: u32 = 0;
    let mut i: usize = start;
    assert(v@.subrange(start as int, i as int) =~= Seq::<char>::empty());
    while i < n
        invariant
            start <= i <= n == v@.len(),
            d == v@.subrange(start as int, n as int),
            v@ == s@,
            d == unsigned_digits(s@),
            forall|k: int| start <= k < i ==> is_digit(#[trigger] v@[k]),
            acc as nat == if digits_value(v@.subrange(start as int, i as int)) < 65536 {
                digits_value(v@.subrange(start as int, i as int))
            } else {
                65536
            },
        decreases n - i,
    {
        let c = v[i];
        if !('0' <= c && c <= '9') {
            assert(!is_digit(d[i - start]));
            return None;
        }
        let digit = (c as u32) - 48;
        let ghost prev = digits_value(v@.subrange(start as int, i as int));
        assert(v@.subrange(start as int, i + 1).drop_last() =~= v@.subrange(start as int, i as int));
        let next = acc * 10 + digit;
        acc = if next < 65536 {
            next
        } else {
            65536
        };
        proof {
            if prev >= 65536 {
                assert(prev * 10 + digit >= 65536) by (nonlinear_arith)
                    requires
                        prev >= 65536,
                ;
            }
        }
        i = i + 1;
    }
    assert forall|k: int| 0 <= k < d.len() implies is_digit(#[trigger] d[k]) by {
        assert(d[k] == v@[k + start]);
    }
    if acc < 65536 {
        Some(acc as u16)
    } else {
        None
    }
}

/// Whether two strings hold the same characters.
pub fn str_eq(a: &str, b: &str) -> (r: bool)
    ensures
        r == (a@ == b@),
{
    let x = chars_of(a);
    let y = chars_of(b);
    if x.len() != y.len() {
        return false;
    }
    let mut i: usize = 0;
    while i < x.len()
        invariant
            x@ == a@,
            y@ == b@,
            x@.len() == y@.len(),
            i <= x@.len(),
            forall|k: int| 0 <= k < i ==> x@[k] == y@[k],
        decreases x@.len() - i,
    {
        if x[i] != y[i] {
            return false;
        }
        i = i + 1;
    }
    assert(x@ =~= y@);
    true
}

/// `n` spaces.
pub open spec fn spaces(n: nat) -> Seq<char> {
    Seq::new(n, |i: int| ' ')
}

/// `s` padded with spaces on the right to `width` characters (`{:<width}`).
pub open spec fn pad_right(s: Seq<char>, width: nat) -> Seq<char> {
    if s.len() < width {
        s + spaces((width - s.len()) as nat)
    } else {
        s
    }
}

/// `s` padded with spaces on the left to `width` characters (`{:>width}`).
pub open spec fn pad_left(s: Seq<char>, width: nat) -> Seq<char> {
    if s.len() < width {
        spaces((width - s.len()) as nat) + s
    } else {
        s
    }
}

/// Appends `n` spaces.
pub fn push_spaces(out: &mut Vec<char>, n: usize)
    ensures
        final(out)@ == old(out)@ + spaces(n as nat),
{
    let mut i: usize = 0;
    while i < n
        invariant
            i <= n,
            out@ == old(out)@ + spaces(i as nat),
        decreases n - i,
    {
        out.push(' ');
        i = i + 1;
        assert(out@ =~= old(out)@ + spaces(i as nat));
    }
}

/// Appends `s` padded on the right to `width` characters.
pub fn push_padded_right(out: &mut Vec<char>, s: &str, width: usize)
    ensures
        final(out)@ == old(out)@ + pad_right(s@, width as nat),
{
    let v = chars_of(s);
    let n = v.len();
    push_str(out, s);
    if n < width {
        push_spaces(out, width - n);
    }
    assert(out@ =~= old(out)@ + pad_right(s@, width as nat));
}

/// Appends `s` padded on the left to `width` characters.
pub fn push_padded_left(out: &mut Vec<char>, s: &str, width: usize)
    ensures
        final(out)@ == old(out)@ + pad_left(s@, width as nat),
{
    let v = chars_of(s);
    let n = v.len();
    if n < width {
        push_spaces(out, width - n);
    }
    push_str(out, s);
    assert(out@ =~= old(out)@ + pad_left(s@, width as nat));
}

/// The decimal text of `n` as a `String`.
pub fn decimal_string(n: u64) -> (s: String)
    ensures
        s@ == decimal(n as nat),
{
    let mut out: Vec<char> = Vec::new();
    push_decimal(&mut out, n as u128);
    string_from_chars(&out)
}

/// Whether `v` begins with `p`, ignoring ASCII case.
pub fn starts_with_ignore_case(v: &Vec<char>, p: &str) -> (b: bool)
    ensures
        b == (v@.len() >= p@.len() && eq_ignore_ascii_case(v@.take(p@.len() as int), p@)),
{
    let q = chars_of(p);
    if v.len() < q.len() {
        return false;
    }
    let mut i: usize = 0;
    while i < q.len()
        invariant
            q@ == p@,
            q@.len() <= v@.len(),
            i <= q@.len(),
            forall|k: int| 0 <= k < i ==> ascii_lower(#[trigger] v@[k]) == ascii_lower(q@[k]),
        decreases q@.len() - i,
    {
        if lower_ascii(v[i]) != lower_ascii(q[i]) {
            assert(ascii_lower(v@.take(q@.len() as int)[i as int]) != ascii_lower(q@[i as int]));
            return false;
        }
        i = i + 1;
    }
    assert forall|k: int| 0 <= k < q@.len() implies ascii_lower(
        #[trigger] v@.take(q@.len() as int)[k],
    ) == ascii_lower(q@[k]) by {
        assert(v@.take(q@.len() as int)[k] == v@[k]);
    }
    true
}

/// The `u32` that a run of one or more ASCII digits spells, if it fits.
pub open spec fn digits_u32(d: Seq<char>) -> Option<u32> {
    if d.len() > 0 && all_digits(d) && digits_value(d) <= u32::MAX {
        Some(digits_value(d) as u32)
    } else {
        None
    }
}

/// Parses the digits of `v` from index `start` on as a `u32`.
pub fn parse_u32_from(v: &Vec<char>, start: usize) -> (r: Option<u32>)
    requires
        start <= v@.len(),
    ensures
        r == digits_u32(v@.skip(start as int)),
{
    let n = v.len();
    let ghost d = v@.skip(start as int);
    if start == n {
        return None;
    }
    let mut acc: u64 = 0;
    let mut i: usize = start;
    assert(v@.subrange(start as int, i as int) =~= Seq::<char>::empty());
    assert(d =~= v@.subrange(start as int, n as int));
    while i < n
        invariant
            start <= i <= n == v@.len(),
            d == v@.subrange(start as int, n as int),
            forall|k: int| start <= k < i ==> is_digit(#[trigger] v@[k]),
            acc as nat == if digits_value(v@.subrange(start as int, i as int)) < 0x1_0000_0000 {
                digits_value(v@.subrange(start as int, i as int))
            } else {
                0x1_0000_0000
            },
        decreases n - i,
    {
        let c = v[i];
        if !('0' <= c && c <= '9') {
            assert(!is_digit(d[i - start]));
            return None;
        }
        let digit = (c as u64) - 48;
        let ghost prev = digits_value(v@.subrange(start as int, i as int));
        assert(v@.subrange(start as int, i + 1).drop_last() =~= v@.subrange(start as int, i as int));
        let next = acc * 10 + digit;
        acc = if next < 0x1_0000_0000 {
            next
        } else {
            0x1_0000_0000
        };
        proof {
            if prev >= 0x1_0000_0000 {
                assert(prev * 10 + digit >= 0x1_0000_0000) by (nonlinear_arith)
                    requires
                        prev >= 0x1_0000_0000,
                ;
            }
        }
        i = i + 1;
    }
    assert forall|k: int| 0 <= k < d.len() implies is_digit(#[trigger] d[k]) by {
        assert(d[k] == v@[k + start]);
    }
    if acc < 0x1_0000_0000 {
        Some(acc as u32)
    } else {
        None
    }
}

} // verus!
