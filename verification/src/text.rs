use vstd::prelude::*;
use vstd::string::StringSliceAdditionalSpecFns;

verus! {

// Characters, decimal numbers and substrings: the text handling that the
// driver needs for ids, error messages and C strings.

/// The characters of `s`, in order.
pub fn chars_of(s: &str) -> (v: Vec<char>)
    ensures
        v@ == s@,
{
    let mut v: Vec<char> = Vec::new();
    for c in it: s.chars()
        invariant
            v@ == it.seq().take(it.index() as int),
    {
        v.push(c);
    }
    v
}

/// Appends one character to a `String`, through `String::push`, which
/// adds the character at the end and changes nothing else.
#[verifier::external_body]
fn push_char(s: &mut String, c: char)
    ensures
        final(s)@ == old(s)@.push(c),
{
    s.push(c);
}

/// Appends the characters `cs` to `s`.
pub fn push_chars(s: &mut String, cs: &[char])
    ensures
        final(s)@ == old(s)@ + cs@,
{
    let ghost start = s@;
    let mut i: usize = 0;
    while i < cs.len()
        invariant
            i <= cs.len(),
            s@ == start + cs@.take(i as int),
        decreases cs.len() - i,
    {
        push_char(s, cs[i]);
        i = i + 1;
        assert(cs@.take(i as int) == cs@.take(i - 1).push(cs@[i - 1]));
    }
    assert(cs@.take(cs.len() as int) == cs@);
}

/// Appends the text `t` to `s`.
pub fn push_str(s: &mut String, t: &str)
    ensures
        final(s)@ == old(s)@ + t@,
{
    let cs = chars_of(t);
    push_chars(s, cs.as_slice());
}

/// A `String` that holds exactly the characters `cs`.
pub fn string_of(cs: &[char]) -> (r: String)
    ensures
        r@ == cs@,
{
    let mut r = String::new();
    push_chars(&mut r, cs);
    assert(r@ == cs@);
    r
}

// ---------------------------------------------------------------------
// Decimal numbers

/// `c` is one of the ASCII digits `0` to `9`.
pub open spec fn is_digit(c: char) -> bool {
    '0' <= c && c <= '9'
}

/// The value of an ASCII digit.
pub open spec fn digit_value(c: char) -> int {
    (c as int) - ('0' as int)
}

/// The ASCII digit whose value is `d` (for `0 <= d < 10`).
pub open spec fn digit_char(d: int) -> char {
    ((d + ('0' as int)) as u32) as char
}

/// The decimal text of a natural number: its digits, most significant
/// first, with no leading zero (zero itself is `0`).
pub open spec fn decimal(n: nat) -> Seq<char>
    decreases n,
{
    if n < 10 {
        seq![digit_char(n as int)]
    } else {
        decimal(n / 10).push(digit_char((n % 10) as int))
    }
}

/// The decimal text of an integer, with a leading `-` when it is negative.
pub open spec fn signed_decimal(i: int) -> Seq<char> {
    if i < 0 {
        seq!['-'] + decimal((-i) as nat)
    } else {
        decimal(i as nat)
    }
}

/// The digit of value `d` is a digit, of value `d`.
pub proof fn lemma_digit_char(d: int)
    requires
        0 <= d < 10,
    ensures
        is_digit(digit_char(d)),
        digit_value(digit_char(d)) == d,
{
}

fn digit_of(d: u64) -> (c: char)
    requires
        d < 10,
    ensures
        c == digit_char(d as int),
        is_digit(c),
        digit_value(c) == d,
{
    let u: u8 = (d as u8) + 48;
    u as char
}

/// Appends the decimal text of `n` to `s`.
pub fn push_u64(s: &mut String, n: u64)
    ensures
        final(s)@ == old(s)@ + decimal(n as nat),
{
    let mut tail: Vec<char> = Vec::new();
    let mut q: u64 = n;
    while q >= 10
        invariant
            decimal(n as nat) == decimal(q as nat) + tail@,
        decreases q,
    {
        let c = digit_of(q % 10);
        let ghost old_tail = tail@;
        tail.insert(0, c);
        assert(decimal(q as nat) == decimal((q / 10) as nat).push(c));
        assert(decimal((q / 10) as nat).push(c) + old_tail == decimal((q / 10) as nat) + tail@);
        q = q / 10;
    }
    let c = digit_of(q);
    tail.insert(0, c);
    assert(decimal(q as nat) == seq![c]);
    assert(decimal(n as nat) == tail@);
    push_chars(s, tail.as_slice());
}

/// Appends the decimal text of `i`, with a `-` when it is negative, to `s`.
pub fn push_i32(s: &mut String, i: i32)
    ensures
        final(s)@ == old(s)@ + signed_decimal(i as int),
{
    if i < 0 {
        let ghost start = s@;
        push_char(s, '-');
        let m: u64 = (-(i as i64)) as u64;
        push_u64(s, m);
        assert(s@ == start + (seq!['-'] + decimal(m as nat)));
    } else {
        push_u64(s, i as u64);
    }
}

/// Why a text is not an unsigned integer of the asked range; the three
/// cases of the integer parsers of the standard library.
#[derive(Clone, Copy, Debug, PartialEq, Eq, Structural)]
pub enum IntErrorKind {
    /// The text is empty.
    Empty,
    /// The text holds a character that is not a digit where a digit belongs.
    InvalidDigit,
    /// The value is larger than the asked maximum.
    PosOverflow,
}

/// The value of the digit string `ds`, read left to right, or the first
/// reason it fails: a non-digit, or a running value above `max`.
pub open spec fn digits_value(ds: Seq<char>, max: int) -> Result<int, IntErrorKind>
    decreases ds.len(),
{
    if ds.len() == 0 {
        Ok(0)
    } else {
        match digits_value(ds.drop_last(), max) {
            Err(e) => Err(e),
            Ok(v) => if !is_digit(ds.last()) {
                Err(IntErrorKind::InvalidDigit)
            } else if v * 10 + digit_value(ds.last()) > max {
                Err(IntErrorKind::PosOverflow)
            } else {
                Ok(v * 10 + digit_value(ds.last()))
            },
        }
    }
}

/// An unsigned integer no larger than `max`, written in decimal with an
/// optional leading `+`; the rules of `str::parse` for unsigned types.
pub open spec fn parse_unsigned_spec(s: Seq<char>, max: int) -> Result<int, IntErrorKind> {
    if s.len() == 0 {
        Err(IntErrorKind::Empty)
    } else if s.len() == 1 && (s[0] == '+' || s[0] == '-') {
        Err(IntErrorKind::InvalidDigit)
    } else if s[0] == '+' {
        digits_value(s.drop_first(), max)
    } else {
        digits_value(s, max)
    }
}

proof fn lemma_digits_value_bounds(ds: Seq<char>, max: int)
    requires
        max >= 0,
    ensures
        digits_value(ds, max) matches Ok(v) ==> 0 <= v <= max,
    decreases ds.len(),
{
    if ds.len() > 0 {
        lemma_digits_value_bounds(ds.drop_last(), max);
    }
}

/// Once a prefix of a digit string fails, the whole string fails the same way.
proof fn lemma_digits_value_error_prefix(ds: Seq<char>, k: int, max: int)
    requires
        0 <= k <= ds.len(),
        digits_value(ds.take(k), max) is Err,
    ensures
        digits_value(ds, max) == digits_value(ds.take(k), max),
    decreases ds.len(),
{
    if k < ds.len() {
        assert(ds.drop_last().take(k) == ds.take(k));
        lemma_digits_value_error_prefix(ds.drop_last(), k, max);
    } else {
        assert(ds.take(k) == ds);
    }
}

/// The decimal text of a number is a non-empty string of digits.
pub proof fn lemma_decimal_digits(n: nat)
    ensures
        decimal(n).len() >= 1,
        forall|i: int| 0 <= i < decimal(n).len() ==> is_digit(#[trigger] decimal(n)[i]),
    decreases n,
{
    if n >= 10 {
        lemma_decimal_digits(n / 10);
    }
}

proof fn lemma_decimal_value(n: nat, max: int)
    requires
        n <= max,
    ensures
        digits_value(decimal(n), max) == Ok::<int, IntErrorKind>(n as int),
    decreases n,
{
    lemma_digit_char((n % 10) as int);
    let d = decimal(n);
    if n < 10 {
        assert(d.drop_last() =~= Seq::<char>::empty());
        assert(digits_value(d.drop_last(), max) == Ok::<int, IntErrorKind>(0));
        assert(d.last() == digit_char(n as int));
    } else {
        lemma_decimal_value(n / 10, max);
        assert(d.drop_last() =~= decimal(n / 10));
        assert(d.last() == digit_char((n % 10) as int));
        assert((n / 10) * 10 + n % 10 == n);
    }
}

/// The decimal text of a number reads back as that number, in any range
/// that holds it.
pub proof fn decimal_roundtrip(n: nat, max: int)
    requires
        n <= max,
    ensures
        parse_unsigned_spec(decimal(n), max) == Ok::<int, IntErrorKind>(n as int),
{
    lemma_decimal_digits(n);
    lemma_decimal_value(n, max);
    assert(is_digit(decimal(n)[0]));
}

/// Reads an unsigned integer no larger than `max` from `s`.
pub fn parse_unsigned(s: &[char], max: u64) -> (r: Result<u64, IntErrorKind>)
    ensures
        match parse_unsigned_spec(s@, max as int) {
            Ok(v) => 0 <= v <= max && r == Ok::<u64, IntErrorKind>(v as u64),
            Err(e) => r == Err::<u64, IntErrorKind>(e),
        },
{
    proof {
        lemma_digits_value_bounds(s@, max as int);
        lemma_digits_value_bounds(s@.drop_first(), max as int);
    }
    if s.len() == 0 {
        return Err(IntErrorKind::Empty);
    }
    if s.len() == 1 && (s[0] == '+' || s[0] == '-') {
        return Err(IntErrorKind::InvalidDigit);
    }
    let start: usize = if s[0] == '+' { 1 } else { 0 };
    let ghost ds = s@.subrange(start as int, s@.len() as int);
    assert(start == 1 ==> ds == s@.drop_first());
    assert(start == 0 ==> ds == s@);
    assert(parse_unsigned_spec(s@, max as int) == digits_value(ds, max as int));
    let mut acc: u64 = 0;
    let mut i: usize = start;
    assert(ds.take(0) == Seq::<char>::empty());
    while i < s.len()
        invariant
            start <= i <= s.len(),
            ds == s@.subrange(start as int, s@.len() as int),
            parse_unsigned_spec(s@, max as int) == digits_value(ds, max as int),
            digits_value(ds.take(i - start), max as int) == Ok::<int, IntErrorKind>(acc as int),
            acc <= max,
        decreases s.len() - i,
    {
        let c = s[i];
        let ghost pre = ds.take(i - start);
        let ghost cur = ds.take(i - start + 1);
        assert(cur.drop_last() == pre);
        assert(cur.last() == c);
        if !(c >= '0' && c <= '9') {
            assert(digits_value(cur, max as int) == Err::<int, IntErrorKind>(IntErrorKind::InvalidDigit));
            proof {
                lemma_digits_value_error_prefix(ds, i - start + 1, max as int);
            }
            return Err(IntErrorKind::InvalidDigit);
        }
        let d: u64 = (c as u32 - 48) as u64;
        let next: u128 = (acc as u128) * 10 + (d as u128);
        assert(d == digit_value(c));
        if next > max as u128 {
            assert(digits_value(cur, max as int) == Err::<int, IntErrorKind>(IntErrorKind::PosOverflow));
            proof {
                lemma_digits_value_error_prefix(ds, i - start + 1, max as int);
            }
            return Err(IntErrorKind::PosOverflow);
        }
        acc = next as u64;
        assert(digits_value(cur, max as int) == Ok::<int, IntErrorKind>(acc as int));
        i = i + 1;
    }
    assert(ds.take(i - start) == ds);
    Ok(acc)
}

// ---------------------------------------------------------------------
// Substrings

/// `n` occurs in `h` starting at index `i`.
pub open spec fn occurs_at(h: Seq<char>, n: Seq<char>, i: int) -> bool {
    &&& 0 <= i
    &&& i + n.len() <= h.len()
    &&& h.subrange(i, i + n.len()) == n
}

/// `n` occurs somewhere in `h` (the empty text occurs everywhere).
pub open spec fn contains_chars(h: Seq<char>, n: Seq<char>) -> bool {
    exists|i: int| occurs_at(h, n, i)
}

/// Whether `n` occurs in `h`.
pub fn contains(h: &[char], n: &[char]) -> (r: bool)
    ensures
        r == contains_chars(h@, n@),
{
    if n.len() > h.len() {
        assert forall|k: int| !occurs_at(h@, n@, k) by {}
        return false;
    }
    if n.len() == 0 {
        assert(h@.subrange(0, 0) =~= n@);
        assert(occurs_at(h@, n@, 0));
        return true;
    }
    let last = h.len() - n.len();
    let mut i: usize = 0;
    while i <= last
        invariant
            last == h.len() - n.len(),
            n.len() <= h.len(),
            n.len() > 0,
            forall|k: int| 0 <= k < i ==> !occurs_at(h@, n@, k),
        decreases last + 1 - i,
    {
        let mut j: usize = 0;
        let mut same = true;
        while j < n.len()
            invariant
                i <= last,
                last == h.len() - n.len(),
                j <= n.len(),
                same ==> forall|m: int| 0 <= m < j ==> h@[i + m] == n@[m],
                !same ==> !occurs_at(h@, n@, i as int),
            decreases n.len() - j,
        {
            if h[i + j] != n[j] {
                proof {
                    if occurs_at(h@, n@, i as int) {
                        assert(h@.subrange(i as int, i + n.len())[j as int] == h@[i + j]);
                    }
                }
                same = false;
            }
            j = j + 1;
        }
        if same {
            assert(h@.subrange(i as int, i + n.len()) =~= n@);
            assert(occurs_at(h@, n@, i as int));
            return true;
        }
        i = i + 1;
    }
    assert forall|k: int| !occurs_at(h@, n@, k) by {
        if 0 <= k && k + n.len() <= h.len() {
            assert(k < i);
        }
    }
    false
}

/// `c` with an ASCII capital letter turned into its small letter.
pub open spec fn ascii_lower(c: char) -> char {
    if 'A' <= c && c <= 'Z' {
        ((c as u32) + 32) as char
    } else {
        c
    }
}

/// The text `s` with every ASCII capital letter turned small, as
/// `str::to_ascii_lowercase` does.
pub open spec fn ascii_lowercase(s: Seq<char>) -> Seq<char> {
    s.map_values(|c: char| ascii_lower(c))
}

/// Turns every ASCII capital letter of `s` into its small letter.
pub fn to_ascii_lowercase(s: &[char]) -> (r: Vec<char>)
    ensures
        r@ == ascii_lowercase(s@),
{
    let mut r: Vec<char> = Vec::new();
    let mut i: usize = 0;
    while i < s.len()
        invariant
            i <= s.len(),
            r@ == ascii_lowercase(s@.take(i as int)),
        decreases s.len() - i,
    {
        let c = s[i];
        let l = if 'A' <= c && c <= 'Z' {
            let u: u8 = (c as u32 + 32) as u8;
            u as char
        } else {
            c
        };
        r.push(l);
        i = i + 1;
        assert(ascii_lowercase(s@.take(i as int)) =~= ascii_lowercase(s@.take(i - 1)).push(l));
    }
    assert(s@.take(s.len() as int) == s@);
    r
}

// ---------------------------------------------------------------------
// Bytes

/// The index of the first zero byte of `b`, if it has one.
pub fn first_zero(b: &[u8]) -> (r: Option<usize>)
    ensures
        r matches Some(i) ==> i < b@.len() && b@[i as int] == 0 && forall|j: int|
            0 <= j < i ==> b@[j] != 0,
        r is None ==> forall|j: int| 0 <= j < b@.len() ==> b@[j] != 0,
{
    let mut i: usize = 0;
    while i < b.len()
        invariant
            i <= b.len(),
            forall|j: int| 0 <= j < i ==> b@[j] != 0,
        decreases b.len() - i,
    {
        if b[i] == 0 {
            return Some(i);
        }
        i = i + 1;
    }
    None
}

/// What `std::str::from_utf8` reports, as text, for bytes that are not
/// UTF-8; the library carries it into its own error unchanged.
pub uninterp spec fn utf8_error_text(bytes: Seq<u8>) -> Seq<char>;

/// Calls `std::str::from_utf8`. Trusted: it succeeds exactly on valid
/// UTF-8 (vstd's `valid_utf8`) and then hands back a string slice of the
/// same bytes; on failure the text of its error is `utf8_error_text` of
/// the bytes. That text is not described further.
#[verifier::external_body]
pub(crate) fn str_from_utf8(bytes: &[u8]) -> (r: Result<&str, String>)
    ensures
        r is Ok <==> vstd::utf8::valid_utf8(bytes@),
        r matches Ok(s) ==> s.spec_bytes() == bytes@,
        r matches Err(m) ==> m@ == utf8_error_text(bytes@),
{
    match std::str::from_utf8(bytes) {
        Ok(s) => Ok(s),
        Err(e) => Err(e.to_string()),
    }
}

/// The characters that valid UTF-8 bytes stand for.
pub open spec fn utf8_chars(bytes: Seq<u8>) -> Seq<char> {
    vstd::utf8::decode_utf8(bytes)
}

/// Reads `bytes` as UTF-8 text: the text when they are valid UTF-8, and
/// otherwise the text of the standard library's error.
pub fn utf8_text(bytes: &[u8]) -> (r: Result<&str, String>)
    ensures
        r is Ok <==> vstd::utf8::valid_utf8(bytes@),
        r matches Ok(s) ==> s@ == utf8_chars(bytes@),
        r matches Err(m) ==> m@ == utf8_error_text(bytes@),
{
    let r = str_from_utf8(bytes);
    proof {
        if let Ok(s) = r {
            vstd::utf8::encode_utf8_decode_utf8(s@);
        }
    }
    r
}

} // verus!
