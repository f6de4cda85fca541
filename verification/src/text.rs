//! Strings: comparison, trimming, splitting and numerals.

use vstd::prelude::*;
use vstd::string::*;
use vstd::utf8::*;

verus! {

/// The characters with the Unicode property `White_Space`.
pub open spec fn is_white_space(c: char) -> bool {
    let n = c as u32;
    ||| 0x9 <= n <= 0xd
    ||| n == 0x20
    ||| n == 0x85
    ||| n == 0xa0
    ||| n == 0x1680
    ||| 0x2000 <= n <= 0x200a
    ||| n == 0x2028
    ||| n == 0x2029
    ||| n == 0x202f
    ||| n == 0x205f
    ||| n == 0x3000
}

/// `s` without its leading white space.
pub open spec fn trim_start(s: Seq<char>) -> Seq<char>
    decreases s.len(),
{
    if s.len() > 0 && is_white_space(s[0]) {
        trim_start(s.drop_first())
    } else {
        s
    }
}

/// `s` without its trailing white space.
pub open spec fn trim_end(s: Seq<char>) -> Seq<char>
    decreases s.len(),
{
    if s.len() > 0 && is_white_space(s.last()) {
        trim_end(s.drop_last())
    } else {
        s
    }
}

/// `s` without white space at either end.
pub open spec fn trimmed(s: Seq<char>) -> Seq<char> {
    trim_end(trim_start(s))
}

/// `str::trim` of the standard library: the string without leading and
/// trailing white space, where white space is the Unicode property
/// `White_Space`.
pub assume_specification[ str::trim ](s: &str) -> (r: &str)
    ensures
        r@ == trimmed(s@),
;

/// Whether `a` and `b` hold the same characters.
pub fn str_eq(a: &str, b: &str) -> (r: bool)
    ensures
        r == (a@ == b@),
{
    let x: &[u8] = a.as_bytes();
    let y: &[u8] = b.as_bytes();
    proof {
        encode_utf8_decode_utf8(a@);
        encode_utf8_decode_utf8(b@);
    }
    if x.len() != y.len() {
        return false;
    }
    let mut i: usize = 0;
    while i < x.len()
        invariant
            x@ == encode_utf8(a@),
            y@ == encode_utf8(b@),
            x@.len() == y@.len(),
            i <= x@.len(),
            x@.take(i as int) =~= y@.take(i as int),
        decreases x@.len() - i,
    {
        if x[i] != y[i] {
            return false;
        }
        assert(x@.take(i + 1) =~= x@.take(i as int).push(x@[i as int]));
        assert(y@.take(i + 1) =~= y@.take(i as int).push(y@[i as int]));
        i += 1;
    }
    assert(x@ =~= x@.take(i as int));
    assert(y@ =~= y@.take(i as int));
    true
}

/// The text before and after the first `c` in `s`, where there is one.
pub open spec fn split_at_first(s: Seq<char>, c: char) -> Option<(Seq<char>, Seq<char>)> {
    if s.contains(c) {
        let i = s.index_of_first(c)->0;
        Some((s.take(i), s.skip(i + 1)))
    } else {
        None
    }
}

/// `str::split_once` of the standard library with a `char` as delimiter: the
/// text before and after the first occurrence, or `None` without one.
#[verifier::external_body]
pub(crate) fn split_once<'a>(s: &'a str, c: char) -> (r: Option<(&'a str, &'a str)>)
    ensures
        match r {
            Some(parts) => split_at_first(s@, c) == Some((parts.0@, parts.1@)),
            None => split_at_first(s@, c) is None,
        },
{
    s.split_once(c)
}

/// What `{:?}` prints for a string that holds `s`: `s` in double quotes, with
/// escapes.
pub uninterp spec fn debug_text(s: Seq<char>) -> Seq<char>;

/// The `Debug` text of a string, as the standard library formats it. Which
/// characters are escaped, and how, is left unsaid.
#[verifier::external_body]
pub(crate) fn debug_quoted(s: &str) -> (r: String)
    ensures
        r@ == debug_text(s@),
{
    format!("{s:?}")
}

/// The text that stands for `bytes` where they need not be UTF-8.
pub uninterp spec fn lossy_text(bytes: Seq<u8>) -> Seq<char>;

/// `String::from_utf8_lossy` of the standard library: the text that `bytes`
/// encode, if they are UTF-8. What replaces the parts that are not UTF-8 is
/// left unsaid.
#[verifier::external_body]
pub(crate) fn display_bytes(bytes: &[u8]) -> (r: String)
    ensures
        r@ == lossy_text(bytes@),
        valid_utf8(bytes@) ==> r@ == decode_utf8(bytes@),
{
    String::from_utf8_lossy(bytes).into_owned()
}

/// The digit with the value `n`.
pub open spec fn digit(n: int) -> char {
    "0123456789abcdef"@[n]
}

/// `v` written in `base`, without leading zeros.
pub open spec fn numeral(v: nat, base: nat) -> Seq<char>
    decreases v,
{
    if base < 2 || v < base {
        seq![digit(v as int)]
    } else {
        proof {
            vstd::arithmetic::div_mod::lemma_div_decreases(v as int, base as int);
        }
        numeral(v / base, base) + seq![digit((v % base) as int)]
    }
}

/// Appends the digit with the value `n`.
fn push_digit(out: &mut String, n: usize)
    requires
        n < 16,
    ensures
        final(out)@ == old(out)@ + seq![digit(n as int)],
{
    let digits: &str = "0123456789abcdef";
    proof {
        reveal_strlit("0123456789abcdef");
    }
    let one: &str = digits.substring_ascii(n, n + 1);
    assert(one@ =~= seq![digit(n as int)]);
    out.append(one);
}

/// Writes `v` in `base`, without leading zeros.
pub fn numeral_text(v: u64, base: u64) -> (r: String)
    requires
        2 <= base <= 16,
    ensures
        r@ == numeral(v as nat, base as nat),
    decreases v,
{
    if v < base {
        let mut out = String::new();
        push_digit(&mut out, v as usize);
        assert(out@ =~= seq![digit(v as int)]);
        out
    } else {
        proof {
            vstd::arithmetic::div_mod::lemma_div_decreases(v as int, base as int);
            vstd::arithmetic::div_mod::lemma_mod_bound(v as int, base as int);
        }
        let mut out = numeral_text(v / base, base);
        push_digit(&mut out, (v % base) as usize);
        out
    }
}

/// Two lowercase hexadecimal digits for each byte.
pub open spec fn hex(bytes: Seq<u8>) -> Seq<char> {
    Seq::new(
        2 * bytes.len(),
        |i: int| digit(if i % 2 == 0 { bytes[i / 2] / 16 } else { bytes[i / 2] % 16 } as int),
    )
}

/// Hex-encodes `bytes` into a lowercase string.
pub fn hex_encode(bytes: &[u8]) -> (r: String)
    ensures
        r@ == hex(bytes@),
{
    let mut out = String::new();
    let mut i: usize = 0;
    assert(out@ =~= hex(bytes@.take(0)));
    while i < bytes.len()
        invariant
            i <= bytes@.len(),
            out@ == hex(bytes@.take(i as int)),
        decreases bytes@.len() - i,
    {
        let byte: u8 = bytes[i];
        push_digit(&mut out, (byte / 16) as usize);
        push_digit(&mut out, (byte % 16) as usize);
        i += 1;
        assert(out@ =~= hex(bytes@.take(i as int)));
    }
    assert(bytes@.take(i as int) =~= bytes@);
    out
}

/// A digit is one of `0` to `9` and `a` to `f`.
pub proof fn lemma_digit(n: int)
    requires
        0 <= n < 16,
    ensures
        digit(n) as int == if n < 10 { 0x30 + n } else { 0x57 + n },
{
    reveal_strlit("0123456789abcdef");
}

/// Hexadecimal digits are ASCII characters, and no path separator is among
/// them.
pub proof fn lemma_hex_is_plain(bytes: Seq<u8>)
    ensures
        is_ascii_chars(hex(bytes)),
        !hex(bytes).contains('/'),
{
    assert forall|i: int| 0 <= i < hex(bytes).len() implies '\0' <= #[trigger] hex(bytes)[i]
        <= '\u{7f}' && hex(bytes)[i] != '/' by {
        lemma_digit(if i % 2 == 0 { bytes[i / 2] / 16 } else { bytes[i / 2] % 16 } as int);
    }
}

/// Different bytes have different hexadecimal texts.
pub proof fn law_hex_injective(a: Seq<u8>, b: Seq<u8>)
    requires
        hex(a) == hex(b),
    ensures
        a == b,
{
    assert(hex(a).len() == 2 * a.len() && hex(b).len() == 2 * b.len());
    assert forall|i: int| 0 <= i < a.len() implies a[i] == b[i] by {
        assert((2 * i) % 2 == 0 && (2 * i) / 2 == i);
        assert((2 * i + 1) % 2 == 1 && (2 * i + 1) / 2 == i);
        assert(hex(a)[2 * i] == digit((a[i] / 16) as int));
        assert(hex(b)[2 * i] == digit((b[i] / 16) as int));
        assert(hex(a)[2 * i + 1] == digit((a[i] % 16) as int));
        assert(hex(b)[2 * i + 1] == digit((b[i] % 16) as int));
        lemma_digit((a[i] / 16) as int);
        lemma_digit((b[i] / 16) as int);
        lemma_digit((a[i] % 16) as int);
        lemma_digit((b[i] % 16) as int);
        assert(a[i] as int == 16 * (a[i] / 16) as int + (a[i] % 16) as int);
        assert(b[i] as int == 16 * (b[i] / 16) as int + (b[i] % 16) as int);
    }
    assert(a =~= b);
}

/// A numeral is not empty, and each of its characters is a hexadecimal digit.
pub proof fn lemma_numeral_digits(v: nat, base: nat)
    requires
        2 <= base <= 16,
    ensures
        numeral(v, base).len() > 0,
        forall|i: int|
            0 <= i < numeral(v, base).len() ==> '0' <= #[trigger] numeral(v, base)[i] <= '9'
                || 'a' <= numeral(v, base)[i] <= 'f',
    decreases v,
{
    if v < base {
        lemma_digit(v as int);
    } else {
        vstd::arithmetic::div_mod::lemma_div_decreases(v as int, base as int);
        vstd::arithmetic::div_mod::lemma_mod_bound(v as int, base as int);
        lemma_numeral_digits(v / base, base);
        lemma_digit((v % base) as int);
    }
}

/// The value of a hexadecimal digit.
pub open spec fn digit_value(c: char) -> int {
    if '0' <= c <= '9' {
        c as int - 0x30
    } else {
        c as int - 0x57
    }
}

/// Whether `c` is one of `0` to `9` and `a` to `f`.
pub open spec fn is_hex_digit(c: char) -> bool {
    '0' <= c <= '9' || 'a' <= c <= 'f'
}

/// The hexadecimal text of bytes spells them out: two lowercase digits for each
/// byte, the higher one first.
pub proof fn law_hex_spells_bytes(bytes: Seq<u8>)
    ensures
        hex(bytes).len() == 2 * bytes.len(),
        forall|i: int| 0 <= i < hex(bytes).len() ==> is_hex_digit(#[trigger] hex(bytes)[i]),
        forall|i: int|
            0 <= i < bytes.len() ==> #[trigger] bytes[i] as int == 16 * digit_value(
                hex(bytes)[2 * i],
            ) + digit_value(hex(bytes)[2 * i + 1]),
{
    assert forall|i: int| 0 <= i < hex(bytes).len() implies is_hex_digit(
        #[trigger] hex(bytes)[i],
    ) by {
        lemma_digit(if i % 2 == 0 { bytes[i / 2] / 16 } else { bytes[i / 2] % 16 } as int);
    }
    assert forall|i: int| 0 <= i < bytes.len() implies #[trigger] bytes[i] as int == 16
        * digit_value(hex(bytes)[2 * i]) + digit_value(hex(bytes)[2 * i + 1]) by {
        assert((2 * i) % 2 == 0 && (2 * i) / 2 == i);
        assert((2 * i + 1) % 2 == 1 && (2 * i + 1) / 2 == i);
        assert(hex(bytes)[2 * i] == digit((bytes[i] / 16) as int));
        assert(hex(bytes)[2 * i + 1] == digit((bytes[i] % 16) as int));
        lemma_digit((bytes[i] / 16) as int);
        lemma_digit((bytes[i] % 16) as int);
    }
}

/// The number that `digits` stand for in `base`.
pub open spec fn numeral_value(digits: Seq<char>, base: nat) -> int
    decreases digits.len(),
{
    if digits.len() == 0 {
        0
    } else {
        base * numeral_value(digits.drop_last(), base) + digit_value(digits.last())
    }
}

/// A numeral stands for the number that it writes out, with digits below the
/// base and no leading zero.
pub proof fn law_numeral_spells_number(v: nat, base: nat)
    requires
        2 <= base <= 16,
    ensures
        numeral_value(numeral(v, base), base) == v,
        numeral(v, base).len() > 0,
        numeral(v, base).len() > 1 ==> numeral(v, base)[0] != '0',
        v > 0 ==> numeral(v, base)[0] != '0',
        forall|i: int|
            0 <= i < numeral(v, base).len() ==> is_hex_digit(#[trigger] numeral(v, base)[i])
                && digit_value(numeral(v, base)[i]) < base,
    decreases v,
{
    let text = numeral(v, base);
    if v < base {
        lemma_digit(v as int);
        reveal_with_fuel(numeral_value, 2);
        assert(text.drop_last() =~= Seq::empty());
        assert(text.last() == digit(v as int));
        assert(base * 0 == 0) by (nonlinear_arith);
    } else {
        vstd::arithmetic::div_mod::lemma_div_decreases(v as int, base as int);
        vstd::arithmetic::div_mod::lemma_mod_bound(v as int, base as int);
        vstd::arithmetic::div_mod::lemma_fundamental_div_mod(v as int, base as int);
        assert(v / base > 0) by (nonlinear_arith)
            requires
                v >= base,
                base > 0,
        ;
        law_numeral_spells_number(v / base, base);
        lemma_digit((v % base) as int);
        let front = numeral(v / base, base);
        assert(text.drop_last() =~= front);
        assert(text.last() == digit((v % base) as int));
        assert forall|i: int| 0 <= i < text.len() implies is_hex_digit(#[trigger] text[i])
            && digit_value(text[i]) < base by {
            if i < front.len() {
                assert(text[i] == front[i]);
            }
        }
    }
}

/// Different numbers have different numerals.
pub proof fn law_numeral_injective(a: nat, b: nat, base: nat)
    requires
        2 <= base <= 16,
        numeral(a, base) == numeral(b, base),
    ensures
        a == b,
{
    law_numeral_spells_number(a, base);
    law_numeral_spells_number(b, base);
}

proof fn lemma_trim_start_blank(s: Seq<char>)
    ensures
        trim_start(s).len() == 0 <==> forall|i: int|
            0 <= i < s.len() ==> is_white_space(#[trigger] s[i]),
    decreases s.len(),
{
    if s.len() > 0 && is_white_space(s[0]) {
        let rest = s.drop_first();
        lemma_trim_start_blank(rest);
        if forall|i: int| 0 <= i < rest.len() ==> is_white_space(#[trigger] rest[i]) {
            assert forall|i: int| 0 <= i < s.len() implies is_white_space(#[trigger] s[i]) by {
                if i > 0 {
                    assert(s[i] == rest[i - 1]);
                }
            }
        } else {
            let i = choose|i: int| 0 <= i < rest.len() && !is_white_space(#[trigger] rest[i]);
            assert(s[i + 1] == rest[i]);
        }
    }
}

proof fn lemma_trim_start_first(s: Seq<char>)
    ensures
        trim_start(s).len() > 0 ==> !is_white_space(trim_start(s)[0]),
    decreases s.len(),
{
    if s.len() > 0 && is_white_space(s[0]) {
        lemma_trim_start_first(s.drop_first());
    }
}

proof fn lemma_trim_end_keeps(s: Seq<char>)
    requires
        s.len() > 0,
        !is_white_space(s[0]),
    ensures
        trim_end(s).len() > 0,
    decreases s.len(),
{
    if is_white_space(s.last()) {
        lemma_trim_end_keeps(s.drop_last());
    }
}

/// Trimming leaves nothing of a text exactly if it is all white space.
pub proof fn law_trimmed_blank(s: Seq<char>)
    ensures
        trimmed(s).len() == 0 <==> forall|i: int|
            0 <= i < s.len() ==> is_white_space(#[trigger] s[i]),
{
    lemma_trim_start_blank(s);
    lemma_trim_start_first(s);
    if trim_start(s).len() > 0 {
        lemma_trim_end_keeps(trim_start(s));
    }
}

proof fn lemma_trim_start_padding(left: Seq<char>, s: Seq<char>)
    requires
        forall|i: int| 0 <= i < left.len() ==> is_white_space(#[trigger] left[i]),
    ensures
        trim_start(left + s) == trim_start(s),
    decreases left.len(),
{
    if left.len() == 0 {
        assert(left + s =~= s);
    } else {
        let rest = left.drop_first();
        assert((left + s).drop_first() =~= rest + s);
        assert((left + s)[0] == left[0]);
        assert forall|i: int| 0 <= i < rest.len() implies is_white_space(#[trigger] rest[i]) by {
            assert(rest[i] == left[i + 1]);
        }
        lemma_trim_start_padding(rest, s);
    }
}

proof fn lemma_trim_end_padding(s: Seq<char>, right: Seq<char>)
    requires
        forall|i: int| 0 <= i < right.len() ==> is_white_space(#[trigger] right[i]),
    ensures
        trim_end(s + right) == trim_end(s),
    decreases right.len(),
{
    if right.len() == 0 {
        assert(s + right =~= s);
    } else {
        let rest = right.drop_last();
        assert((s + right).drop_last() =~= s + rest);
        assert((s + right).last() == right.last());
        assert(is_white_space(right[right.len() - 1]));
        assert forall|i: int| 0 <= i < rest.len() implies is_white_space(#[trigger] rest[i]) by {
            assert(rest[i] == right[i]);
        }
        lemma_trim_end_padding(s, rest);
    }
}

/// White space put around a text that has none at its ends is trimmed away.
pub proof fn law_trimmed_padding(left: Seq<char>, s: Seq<char>, right: Seq<char>)
    requires
        forall|i: int| 0 <= i < left.len() ==> is_white_space(#[trigger] left[i]),
        forall|i: int| 0 <= i < right.len() ==> is_white_space(#[trigger] right[i]),
        s.len() > 0 ==> !is_white_space(s[0]) && !is_white_space(s.last()),
    ensures
        trimmed(left + s + right) == s,
{
    assert(left + s + right =~= left + (s + right));
    lemma_trim_start_padding(left, s + right);
    if s.len() > 0 {
        assert((s + right)[0] == s[0]);
        lemma_trim_end_padding(s, right);
    } else {
        assert(s + right =~= right);
        lemma_trim_start_blank(right);
        assert(trim_start(right) =~= Seq::empty());
        assert(s =~= Seq::empty());
    }
}

/// Whether `s` is made of white space alone.
pub open spec fn is_blank(s: Seq<char>) -> bool {
    forall|i: int| 0 <= i < s.len() ==> is_white_space(#[trigger] s[i])
}

proof fn lemma_trim_start_cuts(s: Seq<char>) -> (left: Seq<char>)
    ensures
        is_blank(left),
        s == left + trim_start(s),
    decreases s.len(),
{
    if s.len() > 0 && is_white_space(s[0]) {
        let rest = lemma_trim_start_cuts(s.drop_first());
        let left = seq![s[0]] + rest;
        assert(s =~= seq![s[0]] + s.drop_first());
        assert(s =~= left + trim_start(s));
        left
    } else {
        assert(s =~= Seq::<char>::empty() + s);
        Seq::empty()
    }
}

proof fn lemma_trim_end_cuts(s: Seq<char>) -> (right: Seq<char>)
    ensures
        is_blank(right),
        s == trim_end(s) + right,
        trim_end(s).len() > 0 ==> !is_white_space(trim_end(s).last()),
    decreases s.len(),
{
    if s.len() > 0 && is_white_space(s.last()) {
        let rest = lemma_trim_end_cuts(s.drop_last());
        let right = rest + seq![s.last()];
        assert(s =~= s.drop_last() + seq![s.last()]);
        assert(s =~= trim_end(s) + right);
        right
    } else {
        assert(s =~= s + Seq::<char>::empty());
        Seq::empty()
    }
}

/// Trimming cuts white space off, and nothing else, until neither end of what is
/// left is white space.
pub proof fn law_trimmed_cuts(s: Seq<char>)
    ensures
        exists|left: Seq<char>, right: Seq<char>|
            is_blank(left) && is_blank(right) && s == #[trigger] (left + trimmed(s) + right),
        trimmed(s).len() > 0 ==> !is_white_space(trimmed(s)[0]) && !is_white_space(
            trimmed(s).last(),
        ),
{
    let left = lemma_trim_start_cuts(s);
    let right = lemma_trim_end_cuts(trim_start(s));
    lemma_trim_start_first(s);
    assert(s =~= left + trimmed(s) + right);
    if trimmed(s).len() > 0 {
        assert(trim_start(s)[0] == trimmed(s)[0]);
    }
}

} // verus!
