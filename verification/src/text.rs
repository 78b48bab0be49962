//! Character-level helpers shared by the parsers and formatters.
//!
//! Strings are reasoned about as sequences of `char`s (`s@`).

use vstd::prelude::*;

verus! {

/// Unicode `White_Space`, the property that `char::is_whitespace` tests.
pub open spec fn is_whitespace_spec(c: char) -> bool {
    let v = c as u32;
    ||| 0x09 <= v <= 0x0D
    ||| v == 0x20
    ||| v == 0x85
    ||| v == 0xA0
    ||| v == 0x1680
    ||| 0x2000 <= v <= 0x200A
    ||| v == 0x2028
    ||| v == 0x2029
    ||| v == 0x202F
    ||| v == 0x205F
    ||| v == 0x3000
}

/// Unicode general category `Cc`, the property that `char::is_control` tests.
pub open spec fn is_control_spec(c: char) -> bool {
    let v = c as u32;
    v <= 0x1F || 0x7F <= v <= 0x9F
}

/// Whether `c` is Unicode white space.
pub fn is_whitespace(c: char) -> (b: bool)
    ensures
        b == is_whitespace_spec(c),
{
    let v = c as u32;
    (0x09 <= v && v <= 0x0D) || v == 0x20 || v == 0x85 || v == 0xA0 || v == 0x1680 || (0x2000
        <= v && v <= 0x200A) || v == 0x2028 || v == 0x2029 || v == 0x202F || v == 0x205F || v
        == 0x3000
}

/// Whether `c` is a control character.
pub fn is_control(c: char) -> (b: bool)
    ensures
        b == is_control_spec(c),
{
    let v = c as u32;
    v <= 0x1F || (0x7F <= v && v <= 0x9F)
}

/// The characters of `s` after its leading white space.
pub open spec fn trim_front(s: Seq<char>) -> Seq<char>
    decreases s.len(),
{
    if s.len() > 0 && is_whitespace_spec(s[0]) {
        trim_front(s.drop_first())
    } else {
        s
    }
}

/// The characters of `s` before its trailing white space.
pub open spec fn trim_back(s: Seq<char>) -> Seq<char>
    decreases s.len(),
{
    if s.len() > 0 && is_whitespace_spec(s.last()) {
        trim_back(s.drop_last())
    } else {
        s
    }
}


/// `s` without its leading and trailing white space.
pub fn trim_chars(s: &[char]) -> (r: Vec<char>)
    ensures
        r@ == trim_back(trim_front(s@)),
{
    let mut start: usize = 0;
    assert(s@.skip(0) =~= s@);
    while start < s.len() && is_whitespace(s[start])
        invariant
            start <= s@.len(),
            trim_front(s@) == trim_front(s@.skip(start as int)),
        decreases s.len() - start,
    {
        assert(s@.skip(start as int).drop_first() =~= s@.skip(start + 1));
        start = start + 1;
    }
    assert(trim_front(s@) == s@.skip(start as int)) by {
        if start < s@.len() {
            assert(s@.skip(start as int)[0] == s@[start as int]);
        }
    }
    let mut end: usize = s.len();
    assert(s@.subrange(start as int, end as int) =~= s@.skip(start as int));
    while end > start && is_whitespace(s[end - 1])
        invariant
            start <= end <= s@.len(),
            trim_back(trim_front(s@)) == trim_back(s@.subrange(start as int, end as int)),
            trim_front(s@) == s@.skip(start as int),
        decreases end - start,
    {
        assert(s@.subrange(start as int, end as int).drop_last() =~= s@.subrange(
            start as int,
            end - 1,
        ));
        end = end - 1;
    }
    assert(trim_back(s@.subrange(start as int, end as int)) == s@.subrange(start as int, end as int)) by {
        if end > start {
            assert(s@.subrange(start as int, end as int).last() == s@[end - 1]);
        }
    }
    let mut r: Vec<char> = Vec::new();
    let mut i = start;
    while i < end
        invariant
            start <= i <= end <= s@.len(),
            r@ == s@.subrange(start as int, i as int),
        decreases end - i,
    {
        r.push(s[i]);
        assert(r@ =~= s@.subrange(start as int, i + 1));
        i = i + 1;
    }
    r
}

/// Whether `c` is an ASCII letter or digit.
pub open spec fn is_ascii_alphanumeric_spec(c: char) -> bool {
    ('0' <= c && c <= '9') || ('a' <= c && c <= 'z') || ('A' <= c && c <= 'Z')
}

/// The characters of `s`, in order.
pub fn chars_of(s: &str) -> (v: Vec<char>)
    ensures
        v@ == s@,
{
    let len = s.unicode_len();
    let mut v: Vec<char> = Vec::new();
    let mut i: usize = 0;
    while i < len
        invariant
            len == s@.len(),
            i <= len,
            v@ =~= s@.take(i as int),
        decreases len - i,
    {
        v.push(s.get_char(i));
        i = i + 1;
    }
    assert(v@ =~= s@);
    v
}

/// Appends one character to `s`.
#[verifier::external_body]
pub(crate) fn push_char(s: &mut String, c: char)
    ensures
        final(s)@ == old(s)@.push(c),
{
    s.push(c);
}

/// Appends the characters of `t` to `s`.
pub fn push_str(s: &mut String, t: &str)
    ensures
        final(s)@ == old(s)@ + t@,
{
    let len = t.unicode_len();
    let mut i: usize = 0;
    while i < len
        invariant
            len == t@.len(),
            i <= len,
            s@ == old(s)@ + t@.take(i as int),
        decreases len - i,
    {
        let c = t.get_char(i);
        push_char(s, c);
        proof {
            assert(t@.take(i + 1) =~= t@.take(i as int).push(c));
        }
        i = i + 1;
    }
    assert(t@.take(len as int) =~= t@);
}

/// Appends the given characters to `s`.
pub fn push_chars(s: &mut String, t: &[char])
    ensures
        final(s)@ == old(s)@ + t@,
{
    let mut i: usize = 0;
    while i < t.len()
        invariant
            i <= t@.len(),
            s@ == old(s)@ + t@.take(i as int),
        decreases t.len() - i,
    {
        let c = t[i];
        push_char(s, c);
        proof {
            assert(t@.take(i + 1) =~= t@.take(i as int).push(c));
        }
        i = i + 1;
    }
    assert(t@.take(t@.len() as int) =~= t@);
}

/// A string holding exactly the given characters.
pub fn string_from_chars(t: &[char]) -> (s: String)
    ensures
        s@ == t@,
{
    let mut s = String::new();
    push_chars(&mut s, t);
    assert(s@ =~= t@);
    s
}

/// A string holding the characters of `t`.
pub fn string_from_str(t: &str) -> (s: String)
    ensures
        s@ == t@,
{
    let mut s = String::new();
    push_str(&mut s, t);
    assert(s@ =~= t@);
    s
}

/// Whether the two strings hold the same characters.
pub fn str_eq(a: &str, b: &str) -> (r: bool)
    ensures
        r == (a@ == b@),
{
    let la = a.unicode_len();
    let lb = b.unicode_len();
    if la != lb {
        return false;
    }
    let mut i: usize = 0;
    while i < la
        invariant
            la == a@.len(),
            lb == b@.len(),
            la == lb,
            i <= la,
            forall|j: int| 0 <= j < i ==> a@[j] == b@[j],
        decreases la - i,
    {
        if a.get_char(i) != b.get_char(i) {
            return false;
        }
        i = i + 1;
    }
    assert(a@ =~= b@);
    true
}

/// Whether the two character sequences are equal.
pub fn chars_eq(a: &[char], b: &[char]) -> (r: bool)
    ensures
        r == (a@ == b@),
{
    if a.len() != b.len() {
        return false;
    }
    let mut i: usize = 0;
    while i < a.len()
        invariant
            a@.len() == b@.len(),
            i <= a@.len(),
            forall|j: int| 0 <= j < i ==> a@[j] == b@[j],
        decreases a.len() - i,
    {
        if a[i] != b[i] {
            return false;
        }
        i = i + 1;
    }
    assert(a@ =~= b@);
    true
}

/// Whether `s` holds the character `c`.
pub fn contains_char(s: &[char], c: char) -> (r: bool)
    ensures
        r == s@.contains(c),
{
    let mut i: usize = 0;
    while i < s.len()
        invariant
            i <= s@.len(),
            forall|j: int| 0 <= j < i ==> s@[j] != c,
        decreases s.len() - i,
    {
        if s[i] == c {
            return true;
        }
        i = i + 1;
    }
    false
}

/// The ASCII digit for a value below ten.
pub open spec fn digit_char(d: nat) -> char {
    if d == 0 {
        '0'
    } else if d == 1 {
        '1'
    } else if d == 2 {
        '2'
    } else if d == 3 {
        '3'
    } else if d == 4 {
        '4'
    } else if d == 5 {
        '5'
    } else if d == 6 {
        '6'
    } else if d == 7 {
        '7'
    } else if d == 8 {
        '8'
    } else {
        '9'
    }
}

/// The decimal representation of `n`, without sign or leading zeros.
pub open spec fn decimal(n: nat) -> Seq<char>
    decreases n,
{
    if n < 10 {
        seq![digit_char(n)]
    } else {
        decimal(n / 10).push(digit_char(n % 10))
    }
}

/// The decimal representation of `n`, left-padded with zeros to `width`.
pub open spec fn decimal_padded(n: nat, width: nat) -> Seq<char> {
    let d = decimal(n);
    if d.len() >= width {
        d
    } else {
        Seq::new((width - d.len()) as nat, |i: int| '0') + d
    }
}

/// The digit character for `d`.
pub fn digit_to_char(d: u64) -> (c: char)
    requires
        d < 10,
    ensures
        c == digit_char(d as nat),
{
    if d == 0 {
        '0'
    } else if d == 1 {
        '1'
    } else if d == 2 {
        '2'
    } else if d == 3 {
        '3'
    } else if d == 4 {
        '4'
    } else if d == 5 {
        '5'
    } else if d == 6 {
        '6'
    } else if d == 7 {
        '7'
    } else if d == 8 {
        '8'
    } else {
        '9'
    }
}

/// Appends the decimal representation of `n` to `s`.
pub fn push_decimal(s: &mut String, n: u64)
    ensures
        final(s)@ == old(s)@ + decimal(n as nat),
    decreases n,
{
    if n < 10 {
        push_char(s, digit_to_char(n));
        assert(decimal(n as nat) =~= seq![digit_char(n as nat)]);
    } else {
        push_decimal(s, n / 10);
        push_char(s, digit_to_char(n % 10));
        assert(old(s)@ + decimal(n as nat) =~= old(s)@ + decimal((n / 10) as nat) + seq![
            digit_char((n % 10) as nat),
        ]);
    }
}

/// The number of decimal digits of `n`.
pub proof fn lemma_decimal_len(n: nat)
    ensures
        decimal(n).len() >= 1,
        n < 10 <==> decimal(n).len() == 1,
        n < 100 ==> decimal(n).len() <= 2,
    decreases n,
{
    if n >= 10 {
        lemma_decimal_len(n / 10);
    }
}

/// Appends `n` in decimal, left-padded with zeros to `width` digits.
pub fn push_decimal_padded(s: &mut String, n: u64, width: usize)
    requires
        width <= 64,
    ensures
        final(s)@ == old(s)@ + decimal_padded(n as nat, width as nat),
{
    let digits = decimal_len(n);
    let mut i = digits;
    while i < width
        invariant
            digits <= i,
            digits >= width ==> i == digits,
            digits == decimal(n as nat).len(),
            i <= width || digits > width,
            s@ == old(s)@ + Seq::new((i - digits) as nat, |k: int| '0'),
        decreases width - i,
    {
        push_char(s, '0');
        assert(Seq::new((i + 1 - digits) as nat, |k: int| '0') =~= Seq::new(
            (i - digits) as nat,
            |k: int| '0',
        ).push('0'));
        i = i + 1;
    }
    let ghost mid = s@;
    push_decimal(s, n);
    proof {
        if digits >= width {
            assert(Seq::new((i - digits) as nat, |k: int| '0') =~= Seq::<char>::empty());
            assert(s@ =~= old(s)@ + decimal(n as nat));
        } else {
            assert(i == width);
            assert(s@ =~= old(s)@ + (Seq::new((width - digits) as nat, |k: int| '0') + decimal(
                n as nat,
            )));
        }
    }
}

/// The number of decimal digits of `n`.
pub fn decimal_len(n: u64) -> (len: usize)
    ensures
        len == decimal(n as nat).len(),
        1 <= len <= 20,
    decreases n,
{
    proof {
        lemma_decimal_len(n as nat);
        assert(pow10(20) == 100_000_000_000_000_000_000) by {
            reveal_with_fuel(pow10, 21);
        }
        lemma_decimal_len_below(n as nat, 20);
    }
    if n < 10 {
        1
    } else {
        1 + decimal_len(n / 10)
    }
}

/// Ten raised to `k`.
pub open spec fn pow10(k: nat) -> nat
    decreases k,
{
    if k == 0 {
        1
    } else {
        10 * pow10((k - 1) as nat)
    }
}

/// Numbers below `10^k` have at most `k` digits.
proof fn lemma_decimal_len_below(n: nat, k: nat)
    requires
        k >= 1,
        n < pow10(k),
    ensures
        decimal(n).len() <= k,
    decreases n,
{
    lemma_decimal_len(n);
    if n >= 10 {
        if k == 1 {
            assert(pow10(0) == 1);
        } else {
            let k1 = (k - 1) as nat;
            assert(n / 10 < pow10(k1));
            lemma_decimal_len_below(n / 10, k1);
        }
    }
}

/// The decimal value of a sequence of ASCII digits.
pub open spec fn digits_value(s: Seq<char>) -> nat
    decreases s.len(),
{
    if s.len() == 0 {
        0
    } else {
        digits_value(s.drop_last()) * 10 + ((s.last() as u32) - ('0' as u32)) as nat
    }
}

/// Whether every character is an ASCII digit.
pub open spec fn all_digits(s: Seq<char>) -> bool {
    forall|i: int| 0 <= i < s.len() ==> '0' <= #[trigger] s[i] && s[i] <= '9'
}

/// What `str::parse::<u64>` accepts: an optional `+` and at least one ASCII
/// digit, with a value that fits.
pub open spec fn parse_unsigned_spec(s: Seq<char>, max: nat) -> Option<nat> {
    let digits = if s.len() > 0 && s[0] == '+' {
        s.drop_first()
    } else {
        s
    };
    if digits.len() == 0 || !all_digits(digits) || digits_value(digits) > max {
        None
    } else {
        Some(digits_value(digits))
    }
}

proof fn lemma_digits_value_grows(s: Seq<char>, i: int)
    requires
        0 <= i <= s.len(),
        all_digits(s),
    ensures
        digits_value(s.take(i)) <= digits_value(s),
    decreases s.len() - i,
{
    if i < s.len() {
        lemma_digits_value_grows(s, i + 1);
        assert(s.take(i + 1).drop_last() =~= s.take(i));
    } else {
        assert(s.take(i) =~= s);
    }
}

/// Parses an unsigned decimal number no larger than `max`, accepting exactly
/// the inputs `str::parse` accepts for unsigned integers.
pub fn parse_unsigned(s: &[char], max: u64) -> (r: Option<u64>)
    ensures
        r matches Some(v) ==> parse_unsigned_spec(s@, max as nat) == Some(v as nat),
        r is None ==> parse_unsigned_spec(s@, max as nat) is None,
{
    let start: usize = if s.len() > 0 && s[0] == '+' {
        1
    } else {
        0
    };
    let ghost digits = if s@.len() > 0 && s@[0] == '+' {
        s@.drop_first()
    } else {
        s@
    };
    assert(digits =~= s@.skip(start as int));
    if start >= s.len() {
        return None;
    }
    let mut value: u64 = 0;
    let mut i = start;
    while i < s.len()
        invariant
            start <= i <= s@.len(),
            digits =~= s@.skip(start as int),
            digits == (if s@.len() > 0 && s@[0] == '+' {
                s@.drop_first()
            } else {
                s@
            }),
            all_digits(digits.take(i - start)),
            value == digits_value(digits.take(i - start)),
            value <= max,
        decreases s.len() - i,
    {
        let c = s[i];
        if !('0' <= c && c <= '9') {
            assert(digits[i - start] == c);
            assert(!all_digits(digits));
            assert(digits.len() > 0);
            assert(parse_unsigned_spec(s@, max as nat) is None);
            return None;
        }
        let d = (c as u32 - '0' as u32) as u64;
        assert(digits.take(i - start + 1).drop_last() =~= digits.take(i - start));
        assert(digits.take(i - start + 1).last() == c);
        if d > max || value > (max - d) / 10 {
            proof {
                assert(digits_value(digits.take(i - start + 1)) == value * 10 + d);
                assert(digits_value(digits.take(i - start + 1)) > max) by (nonlinear_arith)
                    requires
                        d > max || value > (max - d) / 10,
                        d <= 9,
                        digits_value(digits.take(i - start + 1)) == value * 10 + d,
                ;
                if all_digits(digits) {
                    lemma_digits_value_grows(digits, i - start + 1);
                    assert(digits_value(digits) > max);
                }
            }
            return None;
        }
        proof {
            assert(value * 10 + d <= max) by (nonlinear_arith)
                requires
                    value <= (max - d) / 10,
                    d <= 9,
                    d <= max,
            ;
        }
        value = value * 10 + d;
        i = i + 1;
    }
    assert(digits.take(i - start) =~= digits);
    Some(value)
}

/// What `str::to_lowercase` gives for the text `s`: the Unicode lower-case
/// mapping of every character, which may change the length.
pub uninterp spec fn unicode_lowercase(s: Seq<char>) -> Seq<char>;

/// Calls `str::to_lowercase`, whose result depends on `s` alone; the empty
/// text stays empty.
#[verifier::external_body]
pub(crate) fn to_lowercase(s: &str) -> (r: String)
    ensures
        r@ == unicode_lowercase(s@),
        s@.len() == 0 ==> r@.len() == 0,
{
    s.to_lowercase()
}

/// `needle` occurs in `hay` starting at `i`.
pub open spec fn occurs_at(hay: Seq<char>, needle: Seq<char>, i: int) -> bool {
    0 <= i && i + needle.len() <= hay.len() && hay.subrange(i, i + needle.len()) == needle
}

/// `needle` occurs somewhere in `hay`; the empty text occurs everywhere.
pub open spec fn contains_seq(hay: Seq<char>, needle: Seq<char>) -> bool {
    exists|i: int| occurs_at(hay, needle, i)
}

/// Whether `needle` occurs in `hay`.
pub fn contains_chars(hay: &[char], needle: &[char]) -> (r: bool)
    ensures
        r == contains_seq(hay@, needle@),
{
    if needle.len() > hay.len() {
        proof {
            assert forall|i: int| !occurs_at(hay@, needle@, i) by {}
        }
        return false;
    }
    let n = hay.len();
    let last = n - needle.len();
    let mut i: usize = 0;
    while i <= last
        invariant
            n == hay@.len(),
            last == hay@.len() - needle@.len(),
            forall|j: int| 0 <= j < i ==> !occurs_at(hay@, needle@, j),
        ensures
            forall|j: int| 0 <= j <= last ==> !occurs_at(hay@, needle@, j),
        decreases last + 1 - i,
    {
        let mut k: usize = 0;
        let mut same = true;
        while k < needle.len()
            invariant
                n == hay@.len(),
                i <= last,
                last == hay@.len() - needle@.len(),
                k <= needle@.len(),
                same == forall|m: int| 0 <= m < k ==> hay@[i + m] == needle@[m],
            decreases needle@.len() - k,
        {
            if hay[i + k] != needle[k] {
                same = false;
            }
            k += 1;
        }
        if same {
            assert(hay@.subrange(i as int, i + needle@.len()) =~= needle@);
            assert(occurs_at(hay@, needle@, i as int));
            return true;
        }
        proof {
            if occurs_at(hay@, needle@, i as int) {
                let m = choose|m: int| 0 <= m < needle@.len() && hay@[i + m] != needle@[m];
                assert(hay@.subrange(i as int, i + needle@.len())[m] == hay@[i + m]);
            }
        }
        if i == last {
            break;
        }
        i += 1;
    }
    proof {
        assert forall|j: int| !occurs_at(hay@, needle@, j) by {
            if 0 <= j <= last {
            }
        }
    }
    false
}

/// The UTF-8 encoding of one character: one to four bytes by the size of
/// its code point.
pub open spec fn utf8_char(c: char) -> Seq<u8> {
    let v = c as u32;
    if v < 0x80 {
        seq![v as u8]
    } else if v < 0x800 {
        seq![(0xC0 + v / 64) as u8, (0x80 + v % 64) as u8]
    } else if v < 0x10000 {
        seq![(0xE0 + v / 4096) as u8, (0x80 + v / 64 % 64) as u8, (0x80 + v % 64) as u8]
    } else {
        seq![
            (0xF0 + v / 262144) as u8,
            (0x80 + v / 4096 % 64) as u8,
            (0x80 + v / 64 % 64) as u8,
            (0x80 + v % 64) as u8,
        ]
    }
}

/// The UTF-8 bytes of the text `s`.
pub open spec fn utf8_encode(s: Seq<char>) -> Seq<u8>
    decreases s.len(),
{
    if s.len() == 0 {
        Seq::empty()
    } else {
        utf8_encode(s.drop_last()) + utf8_char(s.last())
    }
}

/// The UTF-8 bytes of ASCII text are its character codes.
pub proof fn lemma_utf8_ascii(s: Seq<char>)
    requires
        forall|i: int| 0 <= i < s.len() ==> (#[trigger] s[i] as u32) < 128,
    ensures
        utf8_encode(s) == s.map_values(|c: char| (c as u32) as u8),
    decreases s.len(),
{
    if s.len() > 0 {
        lemma_utf8_ascii(s.drop_last());
        let c = s.last();
        assert(s.map_values(|c: char| (c as u32) as u8) =~= s.drop_last().map_values(
            |c: char| (c as u32) as u8,
        ).push((c as u32) as u8));
        assert(c as u32 <= 127);
        assert(utf8_char(c) =~= seq![(c as u32) as u8]);
    } else {
        assert(s.map_values(|c: char| (c as u32) as u8) =~= Seq::<u8>::empty());
    }
}

/// A byte that continues a multi-byte UTF-8 sequence.
pub open spec fn is_continuation(b: u8) -> bool {
    0x80 <= b < 0xC0
}

/// The encoding of a character is one to four bytes: a leading byte, then
/// continuation bytes.
pub proof fn lemma_utf8_char_shape(c: char)
    ensures
        1 <= utf8_char(c).len() <= 4,
        !is_continuation(utf8_char(c)[0]),
        forall|i: int| 1 <= i < utf8_char(c).len() ==> is_continuation(#[trigger] utf8_char(c)[i]),
{
    let v = c as u32;
    assert(v <= 0x10FFFF);
    if v < 0x80 {
    } else if v < 0x800 {
        assert(2 <= v / 64 < 32) by (nonlinear_arith)
            requires
                0x80 <= v < 0x800,
        ;
        assert(v % 64 < 64);
    } else if v < 0x10000 {
        assert(v / 4096 < 16) by (nonlinear_arith)
            requires
                v < 0x10000,
        ;
        assert(v / 64 % 64 < 64);
        assert(v % 64 < 64);
    } else {
        assert(v / 262144 <= 4) by (nonlinear_arith)
            requires
                v <= 0x10FFFF,
        ;
        assert(v / 4096 % 64 < 64);
        assert(v / 64 % 64 < 64);
        assert(v % 64 < 64);
    }
}

/// Different characters have different encodings.
pub proof fn lemma_utf8_char_injective(c: char, d: char)
    requires
        utf8_char(c) == utf8_char(d),
    ensures
        c == d,
{
    lemma_utf8_char_shape(c);
    lemma_utf8_char_shape(d);
    let v = c as u32;
    let w = d as u32;
    let e = utf8_char(c);
    assert(e.len() == utf8_char(d).len());
    if v < 0x80 {
        assert(e[0] == v && e[0] == w);
    } else if v < 0x800 {
        assert(v == (v / 64) * 64 + v % 64) by (nonlinear_arith);
        assert(w == (w / 64) * 64 + w % 64) by (nonlinear_arith);
        assert(e[0] == 0xC0 + v / 64 && e[0] == 0xC0 + w / 64);
        assert(e[1] == 0x80 + v % 64 && e[1] == 0x80 + w % 64);
    } else if v < 0x10000 {
        assert(v / 4096 < 16 && w / 4096 < 16) by (nonlinear_arith)
            requires
                v < 0x10000,
                w < 0x10000,
        ;
        assert(v == (v / 4096) * 4096 + (v / 64 % 64) * 64 + v % 64) by (nonlinear_arith);
        assert(w == (w / 4096) * 4096 + (w / 64 % 64) * 64 + w % 64) by (nonlinear_arith);
        assert(e[0] == 0xE0 + v / 4096 && e[0] == 0xE0 + w / 4096);
        assert(e[1] == 0x80 + v / 64 % 64 && e[1] == 0x80 + w / 64 % 64);
        assert(e[2] == 0x80 + v % 64 && e[2] == 0x80 + w % 64);
    } else {
        assert(v / 262144 <= 4 && w / 262144 <= 4) by (nonlinear_arith)
            requires
                v <= 0x10FFFF,
                w <= 0x10FFFF,
        ;
        assert(v == (v / 262144) * 262144 + (v / 4096 % 64) * 4096 + (v / 64 % 64) * 64 + v
            % 64) by (nonlinear_arith);
        assert(w == (w / 262144) * 262144 + (w / 4096 % 64) * 4096 + (w / 64 % 64) * 64 + w
            % 64) by (nonlinear_arith);
        assert(e[0] == 0xF0 + v / 262144 && e[0] == 0xF0 + w / 262144);
        assert(e[1] == 0x80 + v / 4096 % 64 && e[1] == 0x80 + w / 4096 % 64);
        assert(e[2] == 0x80 + v / 64 % 64 && e[2] == 0x80 + w / 64 % 64);
        assert(e[3] == 0x80 + v % 64 && e[3] == 0x80 + w % 64);
    }
    assert(v == w);
}

proof fn lemma_utf8_encode_len(s: Seq<char>)
    ensures
        s.len() > 0 ==> utf8_encode(s).len() > 0,
{
    if s.len() > 0 {
        lemma_utf8_char_shape(s.last());
    }
}

/// Different texts have different UTF-8 encodings.
pub proof fn lemma_utf8_encode_injective(s: Seq<char>, t: Seq<char>)
    requires
        utf8_encode(s) == utf8_encode(t),
    ensures
        s == t,
    decreases s.len(),
{
    lemma_utf8_encode_len(s);
    lemma_utf8_encode_len(t);
    if s.len() > 0 && t.len() > 0 {
        let b = utf8_encode(s);
        let n = b.len();
        let cs = utf8_char(s.last());
        let ct = utf8_char(t.last());
        let ps = utf8_encode(s.drop_last());
        let pt = utf8_encode(t.drop_last());
        lemma_utf8_char_shape(s.last());
        lemma_utf8_char_shape(t.last());
        assert(b == ps + cs);
        assert(b == pt + ct);
        if cs.len() < ct.len() {
            let k = ct.len() - cs.len();
            assert(b[n - cs.len()] == cs[0]);
            assert(b[n - cs.len()] == ct[k]);
            assert(is_continuation(ct[k]));
        } else if ct.len() < cs.len() {
            let k = cs.len() - ct.len();
            assert(b[n - ct.len()] == ct[0]);
            assert(b[n - ct.len()] == cs[k]);
            assert(is_continuation(cs[k]));
        }
        assert(cs.len() == ct.len());
        assert(cs =~= b.subrange(n - cs.len(), n as int));
        assert(ct =~= b.subrange(n - ct.len(), n as int));
        assert(ps =~= b.subrange(0, n - cs.len()));
        assert(pt =~= b.subrange(0, n - ct.len()));
        lemma_utf8_char_injective(s.last(), t.last());
        lemma_utf8_encode_injective(s.drop_last(), t.drop_last());
        assert(s =~= s.drop_last().push(s.last()));
        assert(t =~= t.drop_last().push(t.last()));
    } else {
        assert(s.len() == 0 && t.len() == 0);
        assert(s =~= t);
    }
}

/// The text whose UTF-8 encoding is `b`; `None` when `b` encodes no text,
/// that is, when it is not valid UTF-8.
pub open spec fn utf8_decode(b: Seq<u8>) -> Option<Seq<char>> {
    if exists|s: Seq<char>| utf8_encode(s) == b {
        Some(choose|s: Seq<char>| utf8_encode(s) == b)
    } else {
        None
    }
}

/// Decoding the encoding of a text gives the text back.
pub proof fn lemma_utf8_round_trip(s: Seq<char>)
    ensures
        utf8_decode(utf8_encode(s)) == Some(s),
{
    let b = utf8_encode(s);
    assert(exists|x: Seq<char>| utf8_encode(x) == b);
    let x = choose|x: Seq<char>| utf8_encode(x) == b;
    lemma_utf8_encode_injective(x, s);
}

/// The bytes of `s`, by `str::as_bytes`: as the documentation of `str` says,
/// its UTF-8 encoding.
#[verifier::external_body]
pub(crate) fn utf8_bytes(s: &str) -> (r: Vec<u8>)
    ensures
        r@ == utf8_encode(s@),
{
    s.as_bytes().to_vec()
}

/// Decodes `bytes` with `String::from_utf8`, which succeeds exactly when the
/// bytes are valid UTF-8, that is, the encoding of some text, and then gives
/// that text.
#[verifier::external_body]
pub(crate) fn string_from_utf8(bytes: Vec<u8>) -> (r: Option<String>)
    ensures
        match r {
            Some(x) => utf8_encode(x@) == bytes@,
            None => forall|s: Seq<char>| utf8_encode(s) != bytes@,
        },
{
    String::from_utf8(bytes).ok()
}

proof fn lemma_digit_code(d: nat)
    requires
        d < 10,
    ensures
        digit_char(d) as u32 == 48 + d,
{
}

/// The decimal text of `n` is made of digits, and reading it back gives `n`.
pub proof fn lemma_decimal_parses(n: nat, max: nat)
    ensures
        decimal(n).len() >= 1,
        all_digits(decimal(n)),
        digits_value(decimal(n)) == n,
        n <= max ==> parse_unsigned_spec(decimal(n), max) == Some(n),
    decreases n,
{
    if n < 10 {
        lemma_digit_code(n);
        assert(decimal(n).drop_last() =~= Seq::<char>::empty());
        assert(digits_value(Seq::<char>::empty()) == 0);
        assert(decimal(n).last() == digit_char(n));
        assert(digits_value(decimal(n)) == digits_value(decimal(n).drop_last()) * 10 + ((
        digit_char(n) as u32) - ('0' as u32)) as nat);
    } else {
        lemma_decimal_parses(n / 10, max);
        lemma_digit_code(n % 10);
        let d = decimal(n / 10);
        assert(decimal(n).drop_last() =~= d);
        assert(decimal(n).last() == digit_char(n % 10));
        vstd::arithmetic::div_mod::lemma_fundamental_div_mod(n as int, 10);
        assert(digits_value(decimal(n)) == digits_value(d) * 10 + ((digit_char(n % 10) as u32) - (
        '0' as u32)) as nat);
        assert forall|i: int| 0 <= i < decimal(n).len() implies '0' <= #[trigger] decimal(n)[i]
            && decimal(n)[i] <= '9' by {
            if i < d.len() {
                assert(decimal(n)[i] == d[i]);
            }
        }
    }
    assert(decimal(n)[0] != '+');
}

} // verus!
