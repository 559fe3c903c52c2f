//! Small verified utilities over strings and character sequences: prefix
//! tests, equality, and decimal rendering, used throughout the crate for
//! path scoping and report building.

use vstd::prelude::*;
use vstd::string::*;

verus! {

/// True when character sequence `p` is a prefix of `s`.
pub open spec fn starts_with(s: Seq<char>, p: Seq<char>) -> bool {
    p.len() <= s.len() && s.subrange(0, p.len() as int) == p
}

/// Prefix test on string slices, character by character.
pub fn str_starts_with(s: &str, p: &str) -> (r: bool)
    ensures
        r == starts_with(s@, p@),
{
    let n = p.unicode_len();
    let m = s.unicode_len();
    if n > m {
        return false;
    }
    let mut i: usize = 0;
    while i < n
        invariant
            i <= n,
            n == p@.len(),
            n <= s@.len(),
            m == s@.len(),
            forall|j: int| 0 <= j < i ==> p@[j] == s@[j],
        decreases n - i,
    {
        if s.get_char(i) != p.get_char(i) {
            assert(!starts_with(s@, p@)) by {
                if starts_with(s@, p@) {
                    assert(s@.subrange(0, p@.len() as int)[i as int] == p@[i as int]);
                }
            }
            return false;
        }
        i += 1;
    }
    assert(s@.subrange(0, p@.len() as int) =~= p@);
    true
}

/// Character-wise equality of two string slices.
pub fn str_eq(a: &str, b: &str) -> (r: bool)
    ensures
        r == (a@ == b@),
{
    let n = a.unicode_len();
    let m = b.unicode_len();
    if n != m {
        return false;
    }
    let mut i: usize = 0;
    while i < n
        invariant
            i <= n,
            n == a@.len(),
            n == b@.len(),
            forall|j: int| 0 <= j < i ==> a@[j] == b@[j],
        decreases n - i,
    {
        if a.get_char(i) != b.get_char(i) {
            assert(a@ != b@) by {
                if a@ == b@ {
                    assert(a@[i as int] == b@[i as int]);
                }
            }
            return false;
        }
        i += 1;
    }
    assert(a@ =~= b@);
    true
}

/// The character for a single decimal digit.
pub open spec fn digit_char(d: nat) -> char {
    if d == 0 {
        '0'
    } else if d == 1 {
        '1'
    } else if d == 2 {
        '2'
    } else if d == 3 {
        '3'
    } else if d == 4 {
        '4'
    } else if d == 5 {
        '5'
    } else if d == 6 {
        '6'
    } else if d == 7 {
        '7'
    } else if d == 8 {
        '8'
    } else {
        '9'
    }
}

/// Decimal rendering of a natural number, most significant digit first.
pub open spec fn dec_digits(n: nat) -> Seq<char>
    decreases n,
{
    if n < 10 {
        seq![digit_char(n)]
    } else {
        dec_digits(n / 10).push(digit_char(n % 10))
    }
}

/// One-character string slice for a decimal digit.
pub fn digit_str(d: u64) -> (r: &'static str)
    requires
        d < 10,
    ensures
        r@ =~= seq![digit_char(d as nat)],
{
    proof {
        reveal_strlit("0");
        reveal_strlit("1");
        reveal_strlit("2");
        reveal_strlit("3");
        reveal_strlit("4");
        reveal_strlit("5");
        reveal_strlit("6");
        reveal_strlit("7");
        reveal_strlit("8");
        reveal_strlit("9");
    }
    if d == 0 {
        "0"
    } else if d == 1 {
        "1"
    } else if d == 2 {
        "2"
    } else if d == 3 {
        "3"
    } else if d == 4 {
        "4"
    } else if d == 5 {
        "5"
    } else if d == 6 {
        "6"
    } else if d == 7 {
        "7"
    } else if d == 8 {
        "8"
    } else {
        "9"
    }
}

/// Appends the decimal rendering of `n` to `s`.
pub fn push_decimal(s: &mut String, n: u64)
    ensures
        final(s)@ == old(s)@ + dec_digits(n as nat),
    decreases n,
{
    if n < 10 {
        s.append(digit_str(n));
    } else {
        push_decimal(s, n / 10);
        s.append(digit_str(n % 10));
        assert(s@ == old(s)@ + dec_digits(n as nat));
    }
}

/// Decimal rendering of `n` as an owned string.
pub fn decimal_string(n: u64) -> (r: String)
    ensures
        r@ == dec_digits(n as nat),
{
    let mut s = String::new();
    push_decimal(&mut s, n);
    assert(s@ =~= dec_digits(n as nat));
    s
}

/// The character for a single hexadecimal digit, lower case.
pub open spec fn hex_digit(d: nat) -> char {
    if d == 0 {
        '0'
    } else if d == 1 {
        '1'
    } else if d == 2 {
        '2'
    } else if d == 3 {
        '3'
    } else if d == 4 {
        '4'
    } else if d == 5 {
        '5'
    } else if d == 6 {
        '6'
    } else if d == 7 {
        '7'
    } else if d == 8 {
        '8'
    } else if d == 9 {
        '9'
    } else if d == 10 {
        'a'
    } else if d == 11 {
        'b'
    } else if d == 12 {
        'c'
    } else if d == 13 {
        'd'
    } else if d == 14 {
        'e'
    } else {
        'f'
    }
}

/// Lower-case hexadecimal rendering of a byte string, two digits a byte.
pub open spec fn hex_chars(b: Seq<u8>) -> Seq<char>
    decreases b.len(),
{
    if b.len() == 0 {
        Seq::empty()
    } else {
        hex_chars(b.drop_last()) + seq![
            hex_digit((b.last() / 16) as nat),
            hex_digit((b.last() % 16) as nat),
        ]
    }
}

/// One-character string slice for a hexadecimal digit.
pub fn hex_digit_str(d: u8) -> (r: &'static str)
    requires
        d < 16,
    ensures
        r@ =~= seq![hex_digit(d as nat)],
{
    proof {
        reveal_strlit("a");
        reveal_strlit("b");
        reveal_strlit("c");
        reveal_strlit("d");
        reveal_strlit("e");
        reveal_strlit("f");
    }
    if d < 10 {
        digit_str(d as u64)
    } else if d == 10 {
        "a"
    } else if d == 11 {
        "b"
    } else if d == 12 {
        "c"
    } else if d == 13 {
        "d"
    } else if d == 14 {
        "e"
    } else {
        "f"
    }
}

/// Appends the hexadecimal rendering of `bytes` to `s`.
pub fn push_hex(s: &mut String, bytes: &[u8])
    ensures
        final(s)@ == old(s)@ + hex_chars(bytes@),
{
    let n = bytes.len();
    proof {
        assert(bytes@.take(0) =~= Seq::<u8>::empty());
        assert(s@ =~= s@ + hex_chars(bytes@.take(0)));
    }
    let mut i: usize = 0;
    while i < n
        invariant
            i <= n,
            n == bytes@.len(),
            s@ == old(s)@ + hex_chars(bytes@.take(i as int)),
        decreases n - i,
    {
        proof {
            assert(bytes@.take(i + 1).drop_last() =~= bytes@.take(i as int));
            assert(bytes@.take(i + 1).last() == bytes@[i as int]);
        }
        let b = bytes[i];
        s.append(hex_digit_str(b / 16));
        s.append(hex_digit_str(b % 16));
        assert(s@ =~= old(s)@ + hex_chars(bytes@.take(i + 1)));
        i += 1;
    }
    assert(bytes@.take(n as int) =~= bytes@);
}

/// Whether a character is a hexadecimal digit, either case.
pub open spec fn is_hex_digit(c: char) -> bool {
    (48 <= c as u32 && c as u32 <= 57) || (97 <= c as u32 && c as u32 <= 102) || (65
        <= c as u32 && c as u32 <= 70)
}

/// The value of a hexadecimal digit character.
pub open spec fn hex_val(c: char) -> nat {
    if 48 <= c as u32 && c as u32 <= 57 {
        (c as u32 - 48) as nat
    } else if 97 <= c as u32 && c as u32 <= 102 {
        (c as u32 - 87) as nat
    } else {
        (c as u32 - 55) as nat
    }
}

/// The bytes a hexadecimal text denotes, two digits a byte.
pub open spec fn hex_byte_seq(t: Seq<char>) -> Seq<u8> {
    Seq::new((t.len() / 2) as nat, |i: int| (16 * hex_val(t[2 * i]) + hex_val(t[2 * i + 1])) as u8)
}

/// Decodes a hexadecimal text; fails on odd length or a stray character.
pub fn decode_hex(s: &str) -> (r: Option<Vec<u8>>)
    ensures
        match r {
            Some(v) => s@.len() % 2 == 0 && (forall|i: int|
                0 <= i < s@.len() ==> is_hex_digit(s@[i])) && v@ == hex_byte_seq(s@),
            None => s@.len() % 2 != 0 || exists|i: int|
                0 <= i < s@.len() && !is_hex_digit(s@[i]),
        },
{
    let n = s.unicode_len();
    if n % 2 != 0 {
        return None;
    }
    let mut v: Vec<u8> = Vec::new();
    let mut i: usize = 0;
    while i < n
        invariant
            i <= n,
            i % 2 == 0,
            n % 2 == 0,
            n == s@.len(),
            v@.len() == i / 2,
            forall|j: int| 0 <= j < i ==> is_hex_digit(s@[j]),
            forall|j: int| 0 <= j < i / 2 ==> v@[j] == hex_byte_seq(s@)[j],
        decreases n - i,
    {
        let a = s.get_char(i);
        let b = s.get_char(i + 1);
        let av = hex_char_val(a);
        let bv = hex_char_val(b);
        match (av, bv) {
            (Some(x), Some(y)) => {
                v.push(16 * x + y);
            }
            _ => {
                return None;
            }
        }
        i += 2;
    }
    assert(v@ =~= hex_byte_seq(s@));
    Some(v)
}

/// The value of one hexadecimal digit character, if it is one.
pub fn hex_char_val(c: char) -> (r: Option<u8>)
    ensures
        match r {
            Some(x) => is_hex_digit(c) && x == hex_val(c) && x < 16,
            None => !is_hex_digit(c),
        },
{
    let x = c as u32;
    if 48 <= x && x <= 57 {
        Some((x - 48) as u8)
    } else if 97 <= x && x <= 102 {
        Some((x - 87) as u8)
    } else if 65 <= x && x <= 70 {
        Some((x - 55) as u8)
    } else {
        None
    }
}

/// The text up to the first dot, or the whole text without one.
pub open spec fn prefix_before_dot(s: Seq<char>) -> Seq<char>
    decreases s.len(),
{
    if s.len() == 0 {
        s
    } else if s[0] == '.' {
        Seq::empty()
    } else {
        seq![s[0]] + prefix_before_dot(s.skip(1))
    }
}

proof fn lemma_prefix_before_dot(s: Seq<char>, k: int)
    requires
        0 <= k <= s.len(),
        forall|j: int| 0 <= j < k ==> s[j] != '.',
        k < s.len() ==> s[k] == '.',
    ensures
        prefix_before_dot(s) == s.take(k),
    decreases s.len(),
{
    if s.len() == 0 {
        assert(prefix_before_dot(s) =~= s.take(k));
    } else if k == 0 {
        assert(s[0] == '.');
        assert(prefix_before_dot(s) =~= s.take(0));
    } else {
        assert(s[0] != '.');
        lemma_prefix_before_dot(s.skip(1), k - 1);
        assert(seq![s[0]] + s.skip(1).take(k - 1) =~= s.take(k));
    }
}

/// The text up to the first dot, as an owned string.
pub fn split_before_dot(s: &str) -> (r: String)
    ensures
        r@ == prefix_before_dot(s@),
{
    let n = s.unicode_len();
    let mut k: usize = 0;
    while k < n
        invariant
            k <= n,
            n == s@.len(),
            forall|j: int| 0 <= j < k ==> s@[j] != '.',
        decreases n - k,
    {
        if s.get_char(k) == '.' {
            let r = s.substring_char(0, k);
            proof {
                lemma_prefix_before_dot(s@, k as int);
            }
            return r.to_owned();
        }
        k += 1;
    }
    proof {
        lemma_prefix_before_dot(s@, n as int);
        assert(s@.take(n as int) =~= s@);
    }
    s.to_owned()
}

/// Whether the text holds the character.
pub open spec fn has_char(s: Seq<char>, c: char) -> bool {
    exists|i: int| 0 <= i < s.len() && s[i] == c
}

/// The text before the first occurrence of `c`; the whole text without one.
pub open spec fn before_char(s: Seq<char>, c: char) -> Seq<char>
    decreases s.len(),
{
    if s.len() == 0 {
        s
    } else if s[0] == c {
        Seq::empty()
    } else {
        seq![s[0]] + before_char(s.skip(1), c)
    }
}

/// The text after the first occurrence of `c`; empty without one.
pub open spec fn after_char(s: Seq<char>, c: char) -> Seq<char>
    decreases s.len(),
{
    if s.len() == 0 {
        Seq::empty()
    } else if s[0] == c {
        s.skip(1)
    } else {
        after_char(s.skip(1), c)
    }
}

proof fn lemma_split_at(s: Seq<char>, c: char, k: int)
    requires
        0 <= k <= s.len(),
        forall|j: int| 0 <= j < k ==> s[j] != c,
        k < s.len() ==> s[k] == c,
    ensures
        before_char(s, c) == s.take(k),
        k < s.len() ==> has_char(s, c) && after_char(s, c) == s.skip(k + 1),
        k == s.len() ==> !has_char(s, c),
    decreases s.len(),
{
    if s.len() == 0 {
        assert(before_char(s, c) =~= s.take(k));
    } else if k == 0 {
        if s[0] == c {
            assert(before_char(s, c) =~= s.take(0));
            assert(after_char(s, c) =~= s.skip(1));
        }
    } else {
        lemma_split_at(s.skip(1), c, k - 1);
        assert(seq![s[0]] + s.skip(1).take(k - 1) =~= s.take(k));
        if k < s.len() {
            assert(s.skip(1)[k - 1] == s[k as int]);
            assert(s.skip(1).skip(k) =~= s.skip(k + 1));
        } else {
            if has_char(s, c) {
                let j = choose|j: int| 0 <= j < s.len() && s[j] == c;
            }
        }
    }
}

/// Splits at the first occurrence of `c`: the part before it, and the part
/// after it when it occurs.
pub fn split_once_char<'a>(s: &'a str, c: char) -> (r: (&'a str, Option<&'a str>))
    ensures
        r.0@ == before_char(s@, c),
        match r.1 {
            Some(t) => has_char(s@, c) && t@ == after_char(s@, c),
            None => !has_char(s@, c),
        },
{
    let n = s.unicode_len();
    let mut k: usize = 0;
    while k < n
        invariant
            k <= n,
            n == s@.len(),
            forall|j: int| 0 <= j < k ==> s@[j] != c,
        decreases n - k,
    {
        if s.get_char(k) == c {
            let before = s.substring_char(0, k);
            let after = s.substring_char(k + 1, n);
            proof {
                lemma_split_at(s@, c, k as int);
            }
            return (before, Some(after));
        }
        k += 1;
    }
    proof {
        lemma_split_at(s@, c, n as int);
        assert(s@.take(n as int) =~= s@);
    }
    (s, None)
}

/// The value of an unsigned decimal text: zero unless the text is nothing
/// but digits, is not empty, and fits a 32-bit signed integer, as a lax
/// reading of a count in tool output.
pub open spec fn lax_decimal_value(s: Seq<char>) -> int {
    if s.len() > 0 && (forall|i: int| 0 <= i < s.len() ==> '0' <= #[trigger] s[i] <= '9')
        && dec_value(s) <= 0x7fffffff {
        dec_value(s)
    } else {
        0
    }
}

/// The number a digit text denotes.
pub open spec fn dec_value(s: Seq<char>) -> int
    decreases s.len(),
{
    if s.len() == 0 {
        0
    } else {
        dec_value(s.drop_last()) * 10 + (s.last() as int - '0' as int)
    }
}

/// Reads an unsigned decimal laxly: zero on anything but digits that fit.
pub fn parse_lax_decimal(s: &str) -> (r: i32)
    ensures
        r as int == lax_decimal_value(s@),
{
    let n = s.unicode_len();
    if n == 0 {
        return 0;
    }
    let mut i: usize = 0;
    let mut value: u64 = 0;
    while i < n
        invariant
            i <= n,
            n == s@.len(),
            n > 0,
            forall|j: int| 0 <= j < i ==> '0' <= #[trigger] s@[j] <= '9',
            value == dec_value(s@.take(i as int)),
        decreases n - i,
    {
        proof {
            assert(s@.take(i + 1).drop_last() =~= s@.take(i as int));
            assert(s@.take(i + 1).last() == s@[i as int]);
        }
        let c = s.get_char(i);
        if !('0' <= c && c <= '9') {
            return 0;
        }
        if value > 0x7fffffff {
            // the value cannot come back under the cap: scan the rest only
            // to learn whether every character is a digit
            let mut j: usize = i;
            while j < n
                invariant
                    i <= j <= n,
                    n == s@.len(),
                    forall|k: int| i <= k < j ==> '0' <= #[trigger] s@[k] <= '9',
                decreases n - j,
            {
                if !('0' <= s.get_char(j) && s.get_char(j) <= '9') {
                    return 0;
                }
                j += 1;
            }
            proof {
                lemma_dec_value_grows(s@, i as int);
            }
            return 0;
        }
        value = value * 10 + ((c as u32 - 48) as u64);
        i += 1;
    }
    proof {
        assert(s@.take(n as int) =~= s@);
    }
    if value > 0x7fffffff {
        0
    } else {
        value as i32
    }
}

proof fn lemma_dec_value_grows(s: Seq<char>, i: int)
    requires
        0 <= i <= s.len(),
        forall|j: int| 0 <= j < s.len() ==> '0' <= #[trigger] s[j] <= '9',
        dec_value(s.take(i)) > 0x7fffffff,
    ensures
        dec_value(s) > 0x7fffffff,
    decreases s.len() - i,
{
    if i < s.len() {
        assert(s.take(i + 1).drop_last() =~= s.take(i));
        assert(s.take(i + 1).last() == s[i]);
        assert(dec_value(s.take(i + 1)) == dec_value(s.take(i)) * 10 + (s[i] as int
            - '0' as int));
        lemma_dec_value_grows(s, i + 1);
    } else {
        assert(s.take(i) =~= s);
    }
}

} // verus!
