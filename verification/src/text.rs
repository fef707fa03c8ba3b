//! String primitives with mathematical specifications over `Seq<char>`.

use vstd::prelude::*;
use vstd::string::*;

verus! {

broadcast use vstd::string::group_string_axioms;

/// ASCII lower-casing of one character.
pub open spec fn ascii_lower_char(c: char) -> char {
    if 'A' <= c && c <= 'Z' {
        ((c as u32) + 32) as char
    } else {
        c
    }
}

/// ASCII lower-casing of a character sequence.
pub open spec fn ascii_lower(s: Seq<char>) -> Seq<char> {
    s.map_values(|c: char| ascii_lower_char(c))
}

/// Every character is in the ASCII range.
pub open spec fn all_ascii(s: Seq<char>) -> bool {
    forall|i: int| 0 <= i < s.len() ==> (s[i] as u32) < 128
}

/// ASCII lower-casing keeps text ASCII and changes nothing the second time.
pub proof fn lemma_ascii_lower_idempotent(s: Seq<char>)
    requires
        all_ascii(s),
    ensures
        all_ascii(ascii_lower(s)),
        ascii_lower(ascii_lower(s)) == ascii_lower(s),
{
    assert forall|i: int| 0 <= i < s.len() implies (ascii_lower(s)[i] as u32) < 128
        && ascii_lower_char(ascii_lower(s)[i]) == ascii_lower(s)[i] by {
        let c = s[i];
        assert((c as u32) < 128);
    }
    assert(ascii_lower(ascii_lower(s)) =~= ascii_lower(s));
}

/// What `str::to_lowercase` returns (Unicode lower-case mapping).
pub uninterp spec fn unicode_lowercase(s: Seq<char>) -> Seq<char>;

/// Calls `str::to_lowercase`. The result is the Unicode lower-case mapping of
/// the input, named `unicode_lowercase`; on ASCII input the mapping is the
/// ASCII one (letters `A`-`Z` become `a`-`z`, all else is unchanged).
#[verifier::external_body]
pub(crate) fn to_lowercase(s: &str) -> (r: String)
    ensures
        r@ == unicode_lowercase(s@),
        all_ascii(s@) ==> r@ == ascii_lower(s@),
{
    s.to_lowercase()
}

/// An owned copy of a string slice.
pub fn owned(lit: &str) -> (r: String)
    ensures
        r@ == lit@,
{
    lit.to_string()
}

/// The character sequences held by an optional list of strings.
pub open spec fn opt_strings_view(o: Option<Vec<String>>) -> Option<Seq<Seq<char>>> {
    match o {
        Some(v) => Some(strings_view(v@)),
        None => None,
    }
}

/// Calls `String::push`: appends one character.
#[verifier::external_body]
pub(crate) fn push_char(s: &mut String, c: char)
    ensures
        final(s)@ == old(s)@.push(c),
{
    s.push(c);
}

/// The characters of a string slice.
pub fn chars_of(s: &str) -> (v: Vec<char>)
    ensures
        v@ == s@,
{
    let n = s.unicode_len();
    let mut v: Vec<char> = Vec::new();
    let mut i: usize = 0;
    while i < n
        invariant
            n == s@.len(),
            i <= n,
            v@ == s@.subrange(0, i as int),
        decreases n - i,
    {
        let c = s.get_char(i);
        v.push(c);
        i = i + 1;
        assert(v@ =~= s@.subrange(0, i as int));
    }
    assert(v@ =~= s@);
    v
}

/// A string holding exactly the given characters.
pub fn string_of(v: &Vec<char>) -> (s: String)
    ensures
        s@ == v@,
{
    let mut s = String::new();
    let mut i: usize = 0;
    while i < v.len()
        invariant
            i <= v.len(),
            s@ == v@.subrange(0, i as int),
        decreases v.len() - i,
    {
        push_char(&mut s, v[i]);
        i = i + 1;
        assert(s@ =~= v@.subrange(0, i as int));
    }
    assert(s@ =~= v@);
    s
}

/// Equality of two character vectors.
pub fn chars_eq(a: &Vec<char>, b: &Vec<char>) -> (r: bool)
    ensures
        r == (a@ == b@),
{
    if a.len() != b.len() {
        return false;
    }
    let mut i: usize = 0;
    while i < a.len()
        invariant
            a.len() == b.len(),
            i <= a.len(),
            forall|j: int| 0 <= j < i ==> a@[j] == b@[j],
        decreases a.len() - i,
    {
        if a[i] != b[i] {
            return false;
        }
        i = i + 1;
    }
    assert(a@ =~= b@);
    true
}

/// Equality of two string slices.
pub fn str_eq(a: &str, b: &str) -> (r: bool)
    ensures
        r == (a@ == b@),
{
    let va = chars_of(a);
    let vb = chars_of(b);
    chars_eq(&va, &vb)
}


/// `n` occurs in `h` starting at position `i`.
pub open spec fn occurs_at(h: Seq<char>, n: Seq<char>, i: int) -> bool {
    0 <= i && i + n.len() <= h.len() && h.subrange(i, i + n.len()) == n
}

/// `n` occurs somewhere in `h` (what `str::contains` answers).
pub open spec fn seq_contains(h: Seq<char>, n: Seq<char>) -> bool {
    exists|i: int| #[trigger] occurs_at(h, n, i)
}

/// `h` begins with `n`.
pub open spec fn seq_starts_with(h: Seq<char>, n: Seq<char>) -> bool {
    n.len() <= h.len() && h.subrange(0, n.len() as int) == n
}

/// `h` ends with `n`.
pub open spec fn seq_ends_with(h: Seq<char>, n: Seq<char>) -> bool {
    n.len() <= h.len() && h.subrange(h.len() - n.len(), h.len() as int) == n
}

/// Whether `n` occurs in `h` at position `i`.
pub fn vec_match_at(h: &Vec<char>, n: &Vec<char>, i: usize) -> (r: bool)
    ensures
        r == occurs_at(h@, n@, i as int),
{
    if i > h.len() || n.len() > h.len() - i {
        return false;
    }
    let mut k: usize = 0;
    while k < n.len()
        invariant
            i + n.len() <= h.len(),
            k <= n.len(),
            forall|j: int| 0 <= j < k ==> h@[i + j] == n@[j],
        decreases n.len() - k,
    {
        if h[i + k] != n[k] {
            assert(h@.subrange(i as int, i + n.len())[k as int] != n@[k as int]);
            return false;
        }
        k = k + 1;
    }
    assert(h@.subrange(i as int, i + n.len()) =~= n@);
    true
}

/// Whether `n` occurs anywhere in `h`.
pub fn vec_contains(h: &Vec<char>, n: &Vec<char>) -> (r: bool)
    ensures
        r == seq_contains(h@, n@),
{
    if n.len() > h.len() {
        assert forall|i: int| !occurs_at(h@, n@, i) by {}
        return false;
    }
    if n.len() == 0 {
        assert(h@.subrange(0, 0) =~= n@);
        assert(occurs_at(h@, n@, 0));
        return true;
    }
    let bound = h.len() - n.len() + 1;
    let mut i: usize = 0;
    while i < bound
        invariant
            bound == h.len() - n.len() + 1,
            n.len() <= h.len(),
            i <= bound,
            forall|j: int| 0 <= j < i ==> !occurs_at(h@, n@, j),
        decreases bound - i,
    {
        if vec_match_at(h, n, i) {
            return true;
        }
        i = i + 1;
    }
    assert forall|j: int| !occurs_at(h@, n@, j) by {
        if 0 <= j < i {
        }
    }
    false
}

/// Whether `n` occurs in `h` (`str::contains`).
pub fn str_contains(h: &str, n: &str) -> (r: bool)
    ensures
        r == seq_contains(h@, n@),
{
    let hv = chars_of(h);
    let nv = chars_of(n);
    vec_contains(&hv, &nv)
}

/// Whether `h` begins with `n` (`str::starts_with`).
pub fn str_starts_with(h: &str, n: &str) -> (r: bool)
    ensures
        r == seq_starts_with(h@, n@),
{
    let hv = chars_of(h);
    let nv = chars_of(n);
    vec_match_at(&hv, &nv, 0)
}

/// Whether `h` ends with `n` (`str::ends_with`).
pub fn str_ends_with(h: &str, n: &str) -> (r: bool)
    ensures
        r == seq_ends_with(h@, n@),
{
    let hv = chars_of(h);
    let nv = chars_of(n);
    if nv.len() > hv.len() {
        return false;
    }
    vec_match_at(&hv, &nv, hv.len() - nv.len())
}

/// Concatenation of two string slices into a new string.
pub fn concat(a: &str, b: &str) -> (r: String)
    ensures
        r@ == a@ + b@,
{
    let mut r = a.to_string();
    r.append(b);
    r
}

/// Concatenation of three string slices.
pub fn concat3(a: &str, b: &str, c: &str) -> (r: String)
    ensures
        r@ == a@ + b@ + c@,
{
    let mut r = a.to_string();
    r.append(b);
    r.append(c);
    r
}

/// The decimal digit character for `d < 10`.
pub open spec fn digit_char(d: nat) -> char {
    if d == 0 { '0' } else if d == 1 { '1' } else if d == 2 { '2' } else if d == 3 { '3' }
    else if d == 4 { '4' } else if d == 5 { '5' } else if d == 6 { '6' } else if d == 7 { '7' }
    else if d == 8 { '8' } else { '9' }
}

/// Decimal notation of a natural number, without leading zeros.
pub open spec fn decimal(n: nat) -> Seq<char>
    decreases n,
{
    if n < 10 {
        seq![digit_char(n)]
    } else {
        decimal(n / 10).push(digit_char(n % 10))
    }
}

fn digit_of(d: u64) -> (c: char)
    requires
        d < 10,
    ensures
        c == digit_char(d as nat),
{
    if d == 0 { '0' } else if d == 1 { '1' } else if d == 2 { '2' } else if d == 3 { '3' }
    else if d == 4 { '4' } else if d == 5 { '5' } else if d == 6 { '6' } else if d == 7 { '7' }
    else if d == 8 { '8' } else { '9' }
}

/// Appends the decimal notation of `n`.
pub fn push_decimal(s: &mut String, n: u64)
    ensures
        final(s)@ == old(s)@ + decimal(n as nat),
    decreases n,
{
    if n >= 10 {
        push_decimal(s, n / 10);
    }
    push_char(s, digit_of(n % 10));
    assert(final(s)@ =~= old(s)@ + decimal(n as nat));
}

/// Decimal notation of `n` (`u64::to_string`).
pub fn u64_to_string(n: u64) -> (r: String)
    ensures
        r@ == decimal(n as nat),
{
    let mut s = String::new();
    push_decimal(&mut s, n);
    assert(s@ =~= decimal(n as nat));
    s
}

/// `c` is an ASCII decimal digit.
pub open spec fn is_digit(c: char) -> bool {
    '0' <= c && c <= '9'
}

/// Value of an ASCII digit.
pub open spec fn digit_value(c: char) -> nat {
    ((c as u32) - ('0' as u32)) as nat
}

/// Value of a sequence of decimal digits.
pub open spec fn digits_value(s: Seq<char>) -> nat
    decreases s.len(),
{
    if s.len() == 0 {
        0
    } else {
        digits_value(s.drop_last()) * 10 + digit_value(s.last())
    }
}

/// Every character is a decimal digit.
pub open spec fn all_digits(s: Seq<char>) -> bool {
    forall|i: int| 0 <= i < s.len() ==> is_digit(#[trigger] s[i])
}

/// The digits that `u32::from_str` reads: the text without one leading `+`.
pub open spec fn unsigned_body(s: Seq<char>) -> Seq<char> {
    if s.len() > 0 && s[0] == '+' { s.drop_first() } else { s }
}

/// `s` is accepted by `u32::from_str`: an optional `+`, then one or more
/// digits whose value fits in 32 bits.
pub open spec fn is_u32_text(s: Seq<char>) -> bool {
    let b = unsigned_body(s);
    b.len() > 0 && all_digits(b) && digits_value(b) <= u32::MAX
}

/// The value `u32::from_str` gives for accepted text.
pub open spec fn u32_text_value(s: Seq<char>) -> nat {
    digits_value(unsigned_body(s))
}

proof fn lemma_prefix_value_le(t: Seq<char>, k: int)
    requires
        0 <= k <= t.len(),
        all_digits(t),
    ensures
        digits_value(t.subrange(0, k)) <= digits_value(t),
    decreases t.len() - k,
{
    if k < t.len() {
        let p = t.subrange(0, k + 1);
        assert(p.drop_last() =~= t.subrange(0, k));
        lemma_prefix_value_le(t, k + 1);
    } else {
        assert(t.subrange(0, k) =~= t);
    }
}

/// Parses an unsigned 32-bit decimal number the way `u32::from_str` does.
pub fn parse_u32_chars(s: &Vec<char>) -> (r: Option<u32>)
    ensures
        r.is_some() == is_u32_text(s@),
        r.is_some() ==> r.unwrap() as nat == u32_text_value(s@),
{
    let start: usize = if s.len() > 0 && s[0] == '+' { 1 } else { 0 };
    let ghost body = unsigned_body(s@);
    assert(body =~= s@.subrange(start as int, s@.len() as int));
    if start >= s.len() {
        return None;
    }
    let mut acc: u64 = 0;
    let mut i: usize = start;
    while i < s.len()
        invariant
            start <= i <= s.len(),
            start < s.len(),
            body =~= s@.subrange(start as int, s@.len() as int),
            body == unsigned_body(s@),
            all_digits(s@.subrange(start as int, i as int)),
            acc as nat == digits_value(s@.subrange(start as int, i as int)),
            acc <= u32::MAX,
        decreases s.len() - i,
    {
        let c = s[i];
        let ghost prefix = s@.subrange(start as int, i as int);
        let ghost next = s@.subrange(start as int, i + 1);
        assert(next.drop_last() =~= prefix);
        assert(next.last() == c);
        if !('0' <= c && c <= '9') {
            assert(body[i - start] == c);
            assert(!is_digit(body[i - start]));
            return None;
        }
        let d = (c as u32 - '0' as u32) as u64;
        assert(d as nat == digit_value(c));
        acc = acc * 10 + d;
        assert(acc as nat == digits_value(next));
        if acc > 0xFFFF_FFFF {
            proof {
                assert(next =~= body.subrange(0, next.len() as int));
                if all_digits(body) {
                    lemma_prefix_value_le(body, next.len() as int);
                }
            }
            return None;
        }
        i = i + 1;
        assert forall|j: int| 0 <= j < next.len() implies is_digit(#[trigger] next[j]) by {
            if j < prefix.len() {
                assert(next[j] == prefix[j]);
            }
        }
    }
    assert(s@.subrange(start as int, s@.len() as int) =~= body);
    Some(acc as u32)
}

/// Parses text as `u32::from_str` does.
pub fn parse_u32(s: &str) -> (r: Option<u32>)
    ensures
        r.is_some() == is_u32_text(s@),
        r.is_some() ==> r.unwrap() as nat == u32_text_value(s@),
{
    let v = chars_of(s);
    parse_u32_chars(&v)
}


/// `s` is accepted by `u64::from_str`: an optional `+`, then one or more
/// digits whose value fits in 64 bits.
pub open spec fn is_u64_text(s: Seq<char>) -> bool {
    let b = unsigned_body(s);
    b.len() > 0 && all_digits(b) && digits_value(b) <= u64::MAX
}

/// The value of text as `u64::from_str` reads it, where it is accepted.
pub open spec fn u64_of_text(s: Seq<char>) -> Option<u64> {
    if is_u64_text(s) {
        Some(digits_value(unsigned_body(s)) as u64)
    } else {
        None
    }
}

/// Parses text as `u64::from_str` does.
pub fn parse_u64(text: &str) -> (r: Option<u64>)
    ensures
        r == u64_of_text(text@),
{
    let s = chars_of(text);
    let start: usize = if s.len() > 0 && s[0] == '+' { 1 } else { 0 };
    let ghost body = unsigned_body(s@);
    assert(body =~= s@.subrange(start as int, s@.len() as int));
    if start >= s.len() {
        return None;
    }
    let mut acc: u128 = 0;
    let mut i: usize = start;
    while i < s.len()
        invariant
            start <= i <= s.len(),
            start < s.len(),
            s@ == text@,
            body =~= s@.subrange(start as int, s@.len() as int),
            body == unsigned_body(s@),
            all_digits(s@.subrange(start as int, i as int)),
            acc as nat == digits_value(s@.subrange(start as int, i as int)),
            acc <= u64::MAX,
        decreases s.len() - i,
    {
        let c = s[i];
        let ghost prefix = s@.subrange(start as int, i as int);
        let ghost next = s@.subrange(start as int, i + 1);
        assert(next.drop_last() =~= prefix);
        assert(next.last() == c);
        if !('0' <= c && c <= '9') {
            assert(body[i - start] == c);
            assert(!is_digit(body[i - start]));
            return None;
        }
        let d = (c as u32 - '0' as u32) as u128;
        assert(d as nat == digit_value(c));
        acc = acc * 10 + d;
        assert(acc as nat == digits_value(next));
        if acc > 0xFFFF_FFFF_FFFF_FFFF {
            proof {
                assert(next =~= body.subrange(0, next.len() as int));
                if all_digits(body) {
                    lemma_prefix_value_le(body, next.len() as int);
                }
            }
            return None;
        }
        i = i + 1;
        assert forall|j: int| 0 <= j < next.len() implies is_digit(#[trigger] next[j]) by {
            if j < prefix.len() {
                assert(next[j] == prefix[j]);
            }
        }
    }
    assert(s@.subrange(start as int, s@.len() as int) =~= body);
    Some(acc as u64)
}

/// The characters of `v` from `a` up to `b`, as a string.
pub fn string_of_range(v: &Vec<char>, a: usize, b: usize) -> (r: String)
    requires
        a <= b <= v@.len(),
    ensures
        r@ == v@.subrange(a as int, b as int),
{
    let mut r = String::new();
    let mut i: usize = a;
    while i < b
        invariant
            a <= i <= b <= v@.len(),
            r@ == v@.subrange(a as int, i as int),
        decreases b - i,
    {
        push_char(&mut r, v[i]);
        i = i + 1;
        assert(r@ =~= v@.subrange(a as int, i as int));
    }
    r
}

/// Why `u32::from_str` refuses a text.
#[derive(Debug, Clone, Copy, PartialEq, Eq, Structural)]
pub enum IntErrorKind {
    Empty,
    InvalidDigit,
    PosOverflow,
}

/// Scans digits from position `i` with `acc` the value read so far: the
/// first refusal, or none.
pub open spec fn u32_scan(b: Seq<char>, i: int, acc: nat) -> Option<IntErrorKind>
    decreases b.len() - i,
{
    if i < 0 || i >= b.len() {
        None
    } else if !is_digit(b[i]) {
        Some(IntErrorKind::InvalidDigit)
    } else if acc * 10 + digit_value(b[i]) > u32::MAX {
        Some(IntErrorKind::PosOverflow)
    } else {
        u32_scan(b, i + 1, acc * 10 + digit_value(b[i]))
    }
}

/// The refusal `u32::from_str` reports for a text, if any.
pub open spec fn u32_error(s: Seq<char>) -> Option<IntErrorKind> {
    if s.len() == 0 {
        Some(IntErrorKind::Empty)
    } else if unsigned_body(s).len() == 0 {
        Some(IntErrorKind::InvalidDigit)
    } else {
        u32_scan(unsigned_body(s), 0, 0)
    }
}

/// The text of a `ParseIntError` of the given kind.
pub open spec fn int_error_text(k: IntErrorKind) -> Seq<char> {
    match k {
        IntErrorKind::Empty => "cannot parse integer from empty string"@,
        IntErrorKind::InvalidDigit => "invalid digit found in string"@,
        IntErrorKind::PosOverflow => "number too large to fit in target type"@,
    }
}

/// The text of a `ParseIntError` of the given kind.
pub fn int_error_message(k: IntErrorKind) -> (r: String)
    ensures
        r@ == int_error_text(k),
{
    match k {
        IntErrorKind::Empty => owned("cannot parse integer from empty string"),
        IntErrorKind::InvalidDigit => owned("invalid digit found in string"),
        IntErrorKind::PosOverflow => owned("number too large to fit in target type"),
    }
}

/// Parses text as `u32::from_str` does, telling why it refuses.
pub fn parse_u32_checked(s: &str) -> (r: Result<u32, IntErrorKind>)
    ensures
        r is Ok <==> is_u32_text(s@),
        r is Ok ==> r->Ok_0 as nat == u32_text_value(s@),
        r is Err ==> u32_error(s@) == Some(r->Err_0),
{
    let v = chars_of(s);
    if v.len() == 0 {
        return Err(IntErrorKind::Empty);
    }
    let start: usize = if v[0] == '+' { 1 } else { 0 };
    let ghost body = unsigned_body(s@);
    assert(body =~= v@.subrange(start as int, v@.len() as int));
    if start >= v.len() {
        return Err(IntErrorKind::InvalidDigit);
    }
    let mut acc: u64 = 0;
    let mut i: usize = start;
    while i < v.len()
        invariant
            start <= i <= v.len(),
            start < v.len(),
            v@ == s@,
            body =~= v@.subrange(start as int, v@.len() as int),
            body == unsigned_body(s@),
            all_digits(v@.subrange(start as int, i as int)),
            acc as nat == digits_value(v@.subrange(start as int, i as int)),
            acc <= u32::MAX,
            u32_scan(body, 0, 0) == u32_scan(body, i - start, acc as nat),
        decreases v.len() - i,
    {
        let c = v[i];
        let ghost prefix = v@.subrange(start as int, i as int);
        let ghost next = v@.subrange(start as int, i + 1);
        assert(next.drop_last() =~= prefix);
        assert(next.last() == c);
        assert(body[i - start] == c);
        if !('0' <= c && c <= '9') {
            assert(!is_digit(body[i - start]));
            return Err(IntErrorKind::InvalidDigit);
        }
        let d = (c as u32 - '0' as u32) as u64;
        assert(d as nat == digit_value(c));
        acc = acc * 10 + d;
        assert(acc as nat == digits_value(next));
        if acc > 0xFFFF_FFFF {
            proof {
                assert(next =~= body.subrange(0, next.len() as int));
                if all_digits(body) {
                    lemma_prefix_value_le(body, next.len() as int);
                }
            }
            return Err(IntErrorKind::PosOverflow);
        }
        i = i + 1;
        assert forall|j: int| 0 <= j < next.len() implies is_digit(#[trigger] next[j]) by {
            if j < prefix.len() {
                assert(next[j] == prefix[j]);
            }
        }
    }
    assert(v@.subrange(start as int, v@.len() as int) =~= body);
    Ok(acc as u32)
}


/// The pieces of `s` between occurrences of `sep` (what `str::split` with a
/// character pattern yields); there is always at least one piece.
pub open spec fn split_char(s: Seq<char>, sep: char) -> Seq<Seq<char>>
    decreases s.len(),
{
    if s.len() == 0 {
        seq![Seq::<char>::empty()]
    } else {
        let r = split_char(s.drop_last(), sep);
        if s.last() == sep {
            r.push(Seq::<char>::empty())
        } else {
            r.update(r.len() - 1, r.last().push(s.last()))
        }
    }
}

/// The character sequences held by a sequence of strings.
pub open spec fn strings_view(v: Seq<String>) -> Seq<Seq<char>> {
    v.map_values(|x: String| x@)
}

/// Appends copies of the strings of `w`.
pub fn extend_strings(v: &mut Vec<String>, w: &Vec<String>)
    ensures
        strings_view(final(v)@) == strings_view(old(v)@) + strings_view(w@),
{
    let ghost start = strings_view(v@);
    let mut i: usize = 0;
    while i < w.len()
        invariant
            i <= w@.len(),
            strings_view(v@) == start + strings_view(w@.subrange(0, i as int)),
        decreases w.len() - i,
    {
        let c = w[i].clone();
        assert(w@.subrange(0, i + 1) =~= w@.subrange(0, i as int).push(w@[i as int]));
        assert(strings_view(w@.subrange(0, i + 1)) =~= strings_view(w@.subrange(0, i as int)).push(
            c@,
        ));
        let ghost vb = v@;
        let ghost cv = c@;
        v.push(c);
        assert(strings_view(v@) =~= strings_view(vb).push(cv));
        i = i + 1;
        assert(strings_view(v@) =~= start + strings_view(w@.subrange(0, i as int)));
    }
    assert(w@.subrange(0, w@.len() as int) =~= w@);
}

pub proof fn lemma_split_nonempty(s: Seq<char>, sep: char)
    ensures
        split_char(s, sep).len() >= 1,
    decreases s.len(),
{
    if s.len() > 0 {
        lemma_split_nonempty(s.drop_last(), sep);
    }
}

/// Appending text free of `sep` extends the last piece of a split.
pub proof fn lemma_split_append_plain(a: Seq<char>, b: Seq<char>, sep: char)
    requires
        !b.contains(sep),
    ensures
        split_char(a + b, sep) == split_char(a, sep).update(
            split_char(a, sep).len() - 1,
            split_char(a, sep).last() + b,
        ),
    decreases b.len(),
{
    lemma_split_nonempty(a, sep);
    let sa = split_char(a, sep);
    if b.len() == 0 {
        assert(a + b =~= a);
        assert(sa.last() + b =~= sa.last());
        assert(sa.update(sa.len() - 1, sa.last() + b) =~= sa);
    } else {
        let s = a + b;
        assert(s.drop_last() =~= a + b.drop_last());
        assert(s.last() == b[b.len() - 1]);
        assert(!b.drop_last().contains(sep)) by {
            if b.drop_last().contains(sep) {
                let k = choose|k: int| 0 <= k < b.drop_last().len() && b.drop_last()[k] == sep;
                assert(b[k] == sep);
            }
        }
        assert(b[b.len() - 1] != sep);
        lemma_split_append_plain(a, b.drop_last(), sep);
        let r = split_char(a + b.drop_last(), sep);
        assert(r.last() == sa.last() + b.drop_last());
        assert(r.last().push(s.last()) =~= sa.last() + b);
        assert(split_char(s, sep) =~= sa.update(sa.len() - 1, sa.last() + b));
    }
}

/// Splitting `a`, a separator and text free of it gives the pieces of `a`
/// and then that text.
pub proof fn lemma_split_after_sep(a: Seq<char>, b: Seq<char>, sep: char)
    requires
        !b.contains(sep),
    ensures
        split_char(a + seq![sep] + b, sep) == split_char(a, sep).push(b),
{
    let a1 = a + seq![sep];
    assert(a1.drop_last() =~= a);
    assert(split_char(a1, sep) == split_char(a, sep).push(Seq::<char>::empty()));
    lemma_split_append_plain(a1, b, sep);
    assert(Seq::<char>::empty() + b =~= b);
    assert(split_char(a1 + b, sep) =~= split_char(a, sep).push(b));
}

/// Text free of `sep` splits into itself alone.
pub proof fn lemma_split_plain(b: Seq<char>, sep: char)
    requires
        !b.contains(sep),
    ensures
        split_char(b, sep) == seq![b],
{
    lemma_split_append_plain(Seq::empty(), b, sep);
    assert(Seq::<char>::empty() + b =~= b);
    assert(seq![Seq::<char>::empty()].update(0, Seq::<char>::empty() + b) =~= seq![b]);
}

/// Splitting pieces joined by a separator that none of them holds gives the
/// pieces back.
pub proof fn lemma_split_join(list: Seq<Seq<char>>, sep: char)
    requires
        list.len() >= 1,
        forall|i: int| 0 <= i < list.len() ==> !(#[trigger] list[i]).contains(sep),
    ensures
        split_char(seq_join(list, seq![sep]), sep) == list,
    decreases list.len(),
{
    if list.len() == 1 {
        lemma_split_plain(list[0], sep);
        assert(seq![list[0]] =~= list);
    } else {
        let init = list.drop_last();
        assert forall|i: int| 0 <= i < init.len() implies !(#[trigger] init[i]).contains(sep) by {
            assert(init[i] == list[i]);
        }
        lemma_split_join(init, sep);
        assert(!list[list.len() - 1].contains(sep));
        lemma_split_after_sep(seq_join(init, seq![sep]), list.last(), sep);
        assert(init.push(list.last()) =~= list);
    }
}

/// Decimal notation is a non-empty run of digits that reads back as the
/// number.
pub proof fn lemma_decimal_digits(n: nat)
    ensures
        decimal(n).len() > 0,
        all_digits(decimal(n)),
        digits_value(decimal(n)) == n,
    decreases n,
{
    if n < 10 {
        let d = decimal(n);
        assert(d.drop_last() =~= Seq::<char>::empty());
        assert(digit_value(digit_char(n)) == n);
        assert(digits_value(d) == digits_value(d.drop_last()) * 10 + digit_value(d.last()));
    } else {
        lemma_decimal_digits(n / 10);
        let d = decimal(n);
        assert(d.drop_last() =~= decimal(n / 10));
        assert(d.last() == digit_char(n % 10));
        assert(digit_value(digit_char(n % 10)) == n % 10);
        assert(digits_value(d) == digits_value(decimal(n / 10)) * 10 + digit_value(d.last()));
        assert(n == (n / 10) * 10 + n % 10);
        assert forall|i: int| 0 <= i < d.len() implies is_digit(#[trigger] d[i]) by {
            if i < d.len() - 1 {
                assert(d[i] == decimal(n / 10)[i]);
            }
        }
    }
}

/// The decimal notation of a number that fits in 32 bits is text that
/// `u32::from_str` accepts, and it reads back as the number; it holds no
/// character but digits.
pub proof fn lemma_decimal_u32_text(n: nat)
    requires
        n <= u32::MAX,
    ensures
        is_u32_text(decimal(n)),
        u32_text_value(decimal(n)) == n,
        forall|c: char| !is_digit(c) ==> !decimal(n).contains(c),
{
    lemma_decimal_digits(n);
    let d = decimal(n);
    assert(is_digit(d[0]));
    assert(unsigned_body(d) == d);
}

/// Appends each of the strings in turn.
pub(crate) fn push_strs(v: &mut Vec<String>, items: &[&str])
    ensures
        strings_view(final(v)@) == strings_view(old(v)@) + items@.map_values(|s: &str| s@),
{
    let ghost start = strings_view(v@);
    let mut i: usize = 0;
    while i < items.len()
        invariant
            i <= items@.len(),
            strings_view(v@) == start + items@.subrange(0, i as int).map_values(|s: &str| s@),
        decreases items.len() - i,
    {
        let ghost vb = strings_view(v@);
        v.push(owned(items[i]));
        assert(strings_view(v@) =~= vb.push(items@[i as int]@));
        i = i + 1;
        assert(items@.subrange(0, i as int).map_values(|s: &str| s@) =~= items@.subrange(
            0,
            i - 1,
        ).map_values(|s: &str| s@).push(items@[i - 1]@));
    }
    assert(items@.subrange(0, items@.len() as int) =~= items@);
}

/// Splits a string at every occurrence of `sep`.
pub fn split_str(s: &str, sep: char) -> (r: Vec<String>)
    ensures
        strings_view(r@) == split_char(s@, sep),
{
    let v = chars_of(s);
    let mut done: Vec<String> = Vec::new();
    let mut cur: Vec<char> = Vec::new();
    let mut i: usize = 0;
    while i < v.len()
        invariant
            v@ == s@,
            i <= v.len(),
            strings_view(done@).push(cur@) == split_char(v@.subrange(0, i as int), sep),
        decreases v.len() - i,
    {
        let c = v[i];
        let ghost prefix = v@.subrange(0, i as int);
        let ghost next = v@.subrange(0, i + 1);
        assert(next.drop_last() =~= prefix);
        proof { lemma_split_nonempty(prefix, sep); }
        if c == sep {
            let piece = string_of(&cur);
            done.push(piece);
            cur = Vec::new();
            assert(strings_view(done@).push(cur@) =~= split_char(next, sep));
        } else {
            cur.push(c);
            assert(strings_view(done@).push(cur@) =~= split_char(next, sep));
        }
        i = i + 1;
    }
    let last = string_of(&cur);
    done.push(last);
    assert(v@.subrange(0, v@.len() as int) =~= v@);
    assert(strings_view(done@) =~= split_char(s@, sep));
    done
}

/// Pieces joined with `sep` between consecutive ones (what `join` gives).
pub open spec fn seq_join(list: Seq<Seq<char>>, sep: Seq<char>) -> Seq<char>
    decreases list.len(),
{
    if list.len() == 0 {
        Seq::<char>::empty()
    } else if list.len() == 1 {
        list[0]
    } else {
        seq_join(list.drop_last(), sep) + sep + list.last()
    }
}

/// Joins strings with a separator (`[String]::join`).
pub fn join_strings(list: &Vec<String>, sep: &str) -> (r: String)
    ensures
        r@ == seq_join(strings_view(list@), sep@),
{
    let mut r = String::new();
    let mut i: usize = 0;
    while i < list.len()
        invariant
            i <= list.len(),
            r@ == seq_join(strings_view(list@.subrange(0, i as int)), sep@),
        decreases list.len() - i,
    {
        let ghost before = strings_view(list@.subrange(0, i as int));
        let ghost after = strings_view(list@.subrange(0, i + 1));
        assert(after.drop_last() =~= before);
        if i > 0 {
            r.append(sep);
        }
        r.append(list[i].as_str());
        i = i + 1;
        assert(r@ =~= seq_join(after, sep@));
    }
    assert(list@.subrange(0, list@.len() as int) =~= list@);
    r
}

/// `char::is_whitespace`: the Unicode `White_Space` characters.
pub open spec fn is_ws(c: char) -> bool {
    let u = c as u32;
    (9 <= u && u <= 13) || u == 32 || u == 0x85 || u == 0xA0 || u == 0x1680 || (0x2000 <= u
        && u <= 0x200A) || u == 0x2028 || u == 0x2029 || u == 0x202F || u == 0x205F || u == 0x3000
}

fn is_ws_exec(c: char) -> (r: bool)
    ensures
        r == is_ws(c),
{
    let u = c as u32;
    (9 <= u && u <= 13) || u == 32 || u == 0x85 || u == 0xA0 || u == 0x1680 || (0x2000 <= u
        && u <= 0x200A) || u == 0x2028 || u == 0x2029 || u == 0x202F || u == 0x205F || u == 0x3000
}

/// Index of the first non-whitespace character at or after `from`.
pub open spec fn first_non_ws(s: Seq<char>, from: int) -> int
    decreases s.len() - from,
{
    if from < 0 || from >= s.len() {
        s.len() as int
    } else if !is_ws(s[from]) {
        from
    } else {
        first_non_ws(s, from + 1)
    }
}

/// One past the last non-whitespace character before `to`.
pub open spec fn end_non_ws(s: Seq<char>, to: int) -> int
    decreases to,
{
    if to <= 0 || to > s.len() {
        0
    } else if !is_ws(s[to - 1]) {
        to
    } else {
        end_non_ws(s, to - 1)
    }
}

/// `s` without leading and trailing whitespace (`str::trim`).
pub open spec fn trim_seq(s: Seq<char>) -> Seq<char> {
    let a = first_non_ws(s, 0);
    let b = end_non_ws(s, s.len() as int);
    if a < b {
        s.subrange(a, b)
    } else {
        Seq::<char>::empty()
    }
}

/// A non-empty run of digits is its own trimmed form.
pub proof fn lemma_trim_digits(s: Seq<char>)
    requires
        s.len() > 0,
        all_digits(s),
    ensures
        trim_seq(s) == s,
{
    assert(is_digit(s[0]) && is_digit(s[s.len() - 1]));
    assert(!is_ws(s[0]) && !is_ws(s[s.len() - 1]));
    assert(first_non_ws(s, 0) == 0);
    assert(end_non_ws(s, s.len() as int) == s.len());
    assert(s.subrange(0, s.len() as int) =~= s);
}

/// Removes leading and trailing whitespace.
pub fn trim(s: &str) -> (r: String)
    ensures
        r@ == trim_seq(s@),
{
    let v = chars_of(s);
    let mut a: usize = 0;
    while a < v.len() && is_ws_exec(v[a])
        invariant
            v@ == s@,
            a <= v.len(),
            first_non_ws(v@, 0) == first_non_ws(v@, a as int),
        decreases v.len() - a,
    {
        a = a + 1;
    }
    let mut b: usize = v.len();
    while b > 0 && is_ws_exec(v[b - 1])
        invariant
            v@ == s@,
            b <= v.len(),
            end_non_ws(v@, v@.len() as int) == end_non_ws(v@, b as int),
        decreases b,
    {
        b = b - 1;
    }
    let mut out: Vec<char> = Vec::new();
    if a < b {
        let mut k: usize = a;
        while k < b
            invariant
                a <= k <= b,
                b <= v.len(),
                out@ == v@.subrange(a as int, k as int),
            decreases b - k,
        {
            out.push(v[k]);
            k = k + 1;
            assert(out@ =~= v@.subrange(a as int, k as int));
        }
    }
    string_of(&out)
}


/// Lexicographic order by character code (the order of `String`'s `Ord`).
pub open spec fn seq_lt(a: Seq<char>, b: Seq<char>) -> bool
    decreases a.len(),
{
    if a.len() == 0 {
        b.len() > 0
    } else if b.len() == 0 {
        false
    } else if a[0] != b[0] {
        a[0] < b[0]
    } else {
        seq_lt(a.drop_first(), b.drop_first())
    }
}

pub open spec fn seq_le(a: Seq<char>, b: Seq<char>) -> bool {
    a == b || seq_lt(a, b)
}

/// Ascending in lexicographic order.
pub open spec fn sorted_seqs(s: Seq<Seq<char>>) -> bool {
    forall|i: int, j: int| 0 <= i < j < s.len() ==> seq_le(s[i], s[j])
}

pub proof fn lemma_seq_lt_total(a: Seq<char>, b: Seq<char>)
    ensures
        a == b || seq_lt(a, b) || seq_lt(b, a),
        !(seq_lt(a, b) && seq_lt(b, a)),
        !seq_lt(a, a),
    decreases a.len(),
{
    if a.len() > 0 && b.len() > 0 && a[0] == b[0] {
        lemma_seq_lt_total(a.drop_first(), b.drop_first());
        if a.drop_first() == b.drop_first() {
            assert(a =~= seq![a[0]] + a.drop_first());
            assert(b =~= seq![b[0]] + b.drop_first());
        }
    } else if a.len() == 0 && b.len() == 0 {
        assert(a =~= b);
    }
    if a.len() > 0 {
        lemma_seq_lt_total(a.drop_first(), a.drop_first());
    }
}

pub proof fn lemma_seq_lt_trans(a: Seq<char>, b: Seq<char>, c: Seq<char>)
    requires
        seq_lt(a, b),
        seq_lt(b, c),
    ensures
        seq_lt(a, c),
    decreases a.len(),
{
    if a.len() > 0 && b.len() > 0 && c.len() > 0 && a[0] == b[0] && b[0] == c[0] {
        lemma_seq_lt_trans(a.drop_first(), b.drop_first(), c.drop_first());
    }
}

/// `a < b` in lexicographic order.
pub fn chars_lt(a: &Vec<char>, b: &Vec<char>) -> (r: bool)
    ensures
        r == seq_lt(a@, b@),
{
    let mut i: usize = 0;
    assert(a@.subrange(0, a@.len() as int) =~= a@);
    assert(b@.subrange(0, b@.len() as int) =~= b@);
    while i < a.len() && i < b.len() && a[i] == b[i]
        invariant
            i <= a.len(),
            i <= b.len(),
            forall|k: int| 0 <= k < i ==> a@[k] == b@[k],
            seq_lt(a@, b@) == seq_lt(a@.subrange(i as int, a@.len() as int), b@.subrange(i as int, b@.len() as int)),
        decreases a.len() - i,
    {
        let ghost sa = a@.subrange(i as int, a@.len() as int);
        let ghost sb = b@.subrange(i as int, b@.len() as int);
        assert(sa.drop_first() =~= a@.subrange(i + 1, a@.len() as int));
        assert(sb.drop_first() =~= b@.subrange(i + 1, b@.len() as int));
        i = i + 1;
    }
    let ghost sa = a@.subrange(i as int, a@.len() as int);
    let ghost sb = b@.subrange(i as int, b@.len() as int);
    if i == a.len() {
        i < b.len()
    } else if i == b.len() {
        false
    } else {
        assert(sa[0] == a@[i as int] && sb[0] == b@[i as int]);
        a[i] < b[i]
    }
}

/// Sorts strings in ascending lexicographic order.
pub fn sort_strings(v: Vec<String>) -> (r: Vec<String>)
    ensures
        r@.len() == v@.len(),
        sorted_seqs(strings_view(r@)),
        forall|x: Seq<char>| strings_view(r@).contains(x) <==> strings_view(v@).contains(x),
        strings_view(r@).to_multiset() == strings_view(v@).to_multiset(),
{
    let mut r: Vec<String> = Vec::new();
    proof {
        assert(strings_view(r@) =~= Seq::<Seq<char>>::empty());
        assert(strings_view(v@.subrange(0, 0)) =~= Seq::<Seq<char>>::empty());
    }
    let mut i: usize = 0;
    while i < v.len()
        invariant
            i <= v.len(),
            r@.len() == i,
            sorted_seqs(strings_view(r@)),
            forall|x: Seq<char>| strings_view(r@).contains(x) <==> strings_view(v@.subrange(0, i as int)).contains(x),
            strings_view(r@).to_multiset() == strings_view(v@.subrange(0, i as int)).to_multiset(),
        decreases v.len() - i,
    {
        let x = v[i].clone();
        let xv = chars_of(x.as_str());
        let mut pos: usize = 0;
        while pos < r.len() && !chars_lt(&xv, &chars_of(r[pos].as_str()))
            invariant
                xv@ == x@,
                pos <= r@.len(),
                forall|k: int| 0 <= k < r@.len() ==> #[trigger] strings_view(r@)[k] == r@[k]@,
                forall|k: int| 0 <= k < pos ==> !seq_lt(x@, #[trigger] strings_view(r@)[k]),
            decreases r.len() - pos,
        {
            pos = pos + 1;
        }
        let ghost old_r = strings_view(r@);
        r.insert(pos, x);
        let ghost new_r = strings_view(r@);
        assert(new_r =~= old_r.insert(pos as int, x@));
        assert(new_r[pos as int] == x@);
        assert forall|a: int, b: int| 0 <= a < b < new_r.len() implies seq_le(new_r[a], new_r[b]) by {
            if b < pos {
                assert(new_r[a] == old_r[a] && new_r[b] == old_r[b]);
            } else if b == pos {
                assert(new_r[a] == old_r[a]);
                lemma_seq_lt_total(x@, old_r[a]);
            } else if a == pos {
                assert(new_r[b] == old_r[b - 1]);
                assert(seq_lt(x@, old_r[pos as int]));
                if b - 1 > pos {
                    assert(seq_le(old_r[pos as int], old_r[b - 1]));
                    if seq_lt(old_r[pos as int], old_r[b - 1]) {
                        lemma_seq_lt_trans(x@, old_r[pos as int], old_r[b - 1]);
                    }
                }
            } else if a < pos {
                assert(new_r[a] == old_r[a] && new_r[b] == old_r[b - 1]);
            } else {
                assert(new_r[a] == old_r[a - 1] && new_r[b] == old_r[b - 1]);
            }
        }
        let ghost pre = strings_view(v@.subrange(0, i as int));
        let ghost post = strings_view(v@.subrange(0, i + 1));
        assert(post =~= pre.push(x@));
        proof {
            vstd::seq_lib::to_multiset_insert(old_r, pos as int, x@);
            vstd::seq_lib::to_multiset_build(pre, x@);
        }
        assert forall|y: Seq<char>| new_r.contains(y) implies post.contains(y) by {
            let k = choose|k: int| 0 <= k < new_r.len() && new_r[k] == y;
            if k < pos {
                assert(old_r[k] == y);
                assert(old_r.contains(y));
                assert(pre.contains(y));
                let m = choose|m: int| 0 <= m < pre.len() && pre[m] == y;
                assert(post[m] == y);
            } else if k > pos {
                assert(old_r[k - 1] == y);
                assert(old_r.contains(y));
                assert(pre.contains(y));
                let m = choose|m: int| 0 <= m < pre.len() && pre[m] == y;
                assert(post[m] == y);
            } else {
                assert(post[i as int] == y);
            }
        }
        assert forall|y: Seq<char>| post.contains(y) implies new_r.contains(y) by {
            let k = choose|k: int| 0 <= k < post.len() && post[k] == y;
            if k < i {
                assert(pre[k] == y);
                assert(pre.contains(y));
                assert(old_r.contains(y));
                let m = choose|m: int| 0 <= m < old_r.len() && old_r[m] == y;
                if m < pos {
                    assert(new_r[m] == y);
                } else {
                    assert(new_r[m + 1] == y);
                }
            } else {
                assert(new_r[pos as int] == y);
            }
        }
        i = i + 1;
    }
    assert(v@.subrange(0, v@.len() as int) =~= v@);
    r
}


/// A line without its trailing carriage return.
pub open spec fn strip_cr(l: Seq<char>) -> Seq<char> {
    if l.len() > 0 && l.last() == '\r' { l.drop_last() } else { l }
}

/// The lines of a text, as `str::lines` gives them: split at line feeds, a
/// final empty piece dropped, and a trailing carriage return removed from
/// each line.
pub open spec fn lines_of(s: Seq<char>) -> Seq<Seq<char>> {
    let pieces = split_char(s, '\n');
    let kept = if pieces.last().len() == 0 { pieces.drop_last() } else { pieces };
    kept.map_values(|l: Seq<char>| strip_cr(l))
}

/// Splits a text into lines (`str::lines`).
pub fn lines(s: &str) -> (r: Vec<String>)
    ensures
        strings_view(r@) == lines_of(s@),
{
    let pieces = split_str(s, '\n');
    proof { lemma_split_nonempty(s@, '\n'); }
    let mut n = pieces.len();
    assert(strings_view(pieces@)[n - 1] == pieces@[n - 1]@);
    if n > 0 && pieces[n - 1].as_str().unicode_len() == 0 {
        n = n - 1;
    }
    let ghost kept = if split_char(s@, '\n').last().len() == 0 {
        split_char(s@, '\n').drop_last()
    } else {
        split_char(s@, '\n')
    };
    assert(kept.len() == n);
    let mut r: Vec<String> = Vec::new();
    let mut i: usize = 0;
    while i < n
        invariant
            n <= pieces@.len(),
            strings_view(pieces@) == split_char(s@, '\n'),
            kept.len() == n,
            forall|k: int| 0 <= k < n ==> kept[k] == #[trigger] split_char(s@, '\n')[k],
            i <= n,
            r@.len() == i,
            strings_view(r@) == kept.subrange(0, i as int).map_values(|l: Seq<char>| strip_cr(l)),
        decreases n - i,
    {
        let v = chars_of(pieces[i].as_str());
        assert(strings_view(pieces@)[i as int] == pieces@[i as int]@);
        assert(v@ == kept[i as int]);
        let mut w: Vec<char> = Vec::new();
        let mut m = v.len();
        if m > 0 && v[m - 1] == '\r' {
            m = m - 1;
        }
        let mut k: usize = 0;
        while k < m
            invariant
                m <= v@.len(),
                k <= m,
                w@ == v@.subrange(0, k as int),
            decreases m - k,
        {
            w.push(v[k]);
            k = k + 1;
            assert(w@ =~= v@.subrange(0, k as int));
        }
        assert(w@ =~= strip_cr(v@));
        let line = string_of(&w);
        let ghost old_r = r@;
        r.push(line);
        i = i + 1;
        proof {
            let target = kept.subrange(0, i as int).map_values(|l: Seq<char>| strip_cr(l));
            let prev = kept.subrange(0, (i - 1) as int).map_values(|l: Seq<char>| strip_cr(l));
            assert forall|j: int| 0 <= j < i implies strings_view(r@)[j] == target[j] by {
                if j < i - 1 {
                    assert(r@[j] == old_r[j]);
                    assert(strings_view(old_r)[j] == prev[j]);
                } else {
                    assert(r@[j] == line);
                }
            }
            assert(strings_view(r@) =~= target);
        }
    }
    assert(kept.subrange(0, n as int) =~= kept);
    r
}

} // verus!
