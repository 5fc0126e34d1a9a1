//! Small text helpers: comparison, decimal numerals and UTF-8.

use vstd::prelude::*;
use vstd::string::*;
use vstd::utf8::*;

verus! {

/// Two texts with the same UTF-8 bytes hold the same characters.
pub proof fn lemma_same_bytes_same_text(a: Seq<char>, b: Seq<char>)
    requires
        encode_utf8(a) == encode_utf8(b),
    ensures
        a == b,
{
    encode_utf8_decode_utf8(a);
    encode_utf8_decode_utf8(b);
}

/// Whether `a` and `b` are the same text.
pub fn text_eq(a: &str, b: &str) -> (same: bool)
    ensures
        same == (a@ == b@),
{
    let x = a.as_bytes();
    let y = b.as_bytes();
    if x.len() != y.len() {
        return false;
    }
    let n: usize = x.len();
    let mut i: usize = 0;
    while i < n
        invariant
            i <= n,
            n == x@.len(),
            n == y@.len(),
            x@ == encode_utf8(a@),
            y@ == encode_utf8(b@),
            forall|j: int| 0 <= j < i ==> x@[j] == y@[j],
        decreases n - i,
    {
        if x[i] != y[i] {
            return false;
        }
        i = i + 1;
    }
    proof {
        assert(x@ =~= y@);
        lemma_same_bytes_same_text(a@, b@);
    }
    true
}

/// The digit character of `d`.
pub open spec fn digit(d: nat) -> char {
    (('0' as nat) + d) as char
}

/// `n` written in decimal, without leading zeros.
pub open spec fn decimal(n: nat) -> Seq<char>
    decreases n,
{
    if n < 10 {
        seq![digit(n)]
    } else {
        decimal(n / 10).push(digit(n % 10))
    }
}

/// Different numbers have different digits.
pub proof fn lemma_decimal_is_injective(a: nat, b: nat)
    requires
        decimal(a) == decimal(b),
    ensures
        a == b,
    decreases a,
{
    lemma_decimal_shape(a);
    lemma_decimal_shape(b);
    assert(digit(a % 10) == decimal(a).last());
    assert(digit(b % 10) == decimal(b).last());
    assert(a % 10 == b % 10);
    if a >= 10 && b >= 10 {
        assert(decimal(a / 10) =~= decimal(a).drop_last());
        assert(decimal(b / 10) =~= decimal(b).drop_last());
        lemma_decimal_is_injective(a / 10, b / 10);
    }
}

/// A number ends with its last digit, and only a number below ten has just that.
proof fn lemma_decimal_shape(n: nat)
    ensures
        decimal(n).len() >= 1,
        decimal(n).last() == digit(n % 10),
        decimal(n).len() == 1 <==> n < 10,
    decreases n,
{
    if n >= 10 {
        lemma_decimal_shape(n / 10);
    }
}

/// One digit as text.
fn digit_text(d: u64) -> (t: &'static str)
    requires
        d < 10,
    ensures
        t@ == seq![digit(d as nat)],
{
    proof {
        reveal_strlit("0");
        reveal_strlit("1");
        reveal_strlit("2");
        reveal_strlit("3");
        reveal_strlit("4");
        reveal_strlit("5");
        reveal_strlit("6");
        reveal_strlit("7");
        reveal_strlit("8");
        reveal_strlit("9");
    }
    match d {
        0 => "0",
        1 => "1",
        2 => "2",
        3 => "3",
        4 => "4",
        5 => "5",
        6 => "6",
        7 => "7",
        8 => "8",
        _ => "9",
    }
}

/// `n` written in decimal.
pub fn decimal_text(n: u64) -> (t: String)
    ensures
        t@ == decimal(n as nat),
    decreases n,
{
    if n < 10 {
        digit_text(n).to_owned()
    } else {
        let mut head = decimal_text(n / 10);
        head.append(digit_text(n % 10));
        proof {
            assert(head@ =~= decimal(n as nat / 10).push(digit(n as nat % 10)));
        }
        head
    }
}

/// Whether a character has the Unicode property White_Space.
pub open spec fn is_white(c: char) -> bool {
    let n = c as int;
    ||| 0x9 <= n <= 0xd
    ||| n == 0x20
    ||| n == 0x85
    ||| n == 0xa0
    ||| n == 0x1680
    ||| 0x2000 <= n <= 0x200a
    ||| n == 0x2028
    ||| n == 0x2029
    ||| n == 0x202f
    ||| n == 0x205f
    ||| n == 0x3000
}

/// `text` without the whitespace at its end.
pub open spec fn trimmed_end(text: Seq<char>) -> Seq<char>
    decreases text.len(),
{
    if text.len() > 0 && is_white(text.last()) {
        trimmed_end(text.drop_last())
    } else {
        text
    }
}

fn white(c: char) -> (yes: bool)
    ensures
        yes == is_white(c),
{
    let n: u32 = c as u32;
    (0x9 <= n && n <= 0xd) || n == 0x20 || n == 0x85 || n == 0xa0 || n == 0x1680 || (0x2000 <= n
        && n <= 0x200a) || n == 0x2028 || n == 0x2029 || n == 0x202f || n == 0x205f || n == 0x3000
}

/// `text` without the whitespace at its end.
pub fn trim_end<'a>(text: &'a str) -> (t: &'a str)
    ensures
        t@ == trimmed_end(text@),
{
    let mut n: usize = text.unicode_len();
    proof {
        assert(text@.take(n as int) =~= text@);
    }
    while n > 0 && white(text.get_char(n - 1))
        invariant
            n <= text@.len(),
            trimmed_end(text@) == trimmed_end(text@.take(n as int)),
        decreases n,
    {
        proof {
            assert(text@.take(n as int).last() == text@[n - 1]);
            assert(text@.take(n as int).drop_last() =~= text@.take(n - 1));
        }
        n = n - 1;
    }
    proof {
        assert(n > 0 ==> text@.take(n as int).last() == text@[n - 1]);
        assert(text@.subrange(0, n as int) =~= text@.take(n as int));
    }
    text.substring_char(0, n)
}

/// Whether `text` ends with `c`.
pub fn ends_with_char(text: &str, c: char) -> (r: bool)
    ensures
        r == (text@.len() > 0 && text@.last() == c),
{
    let n: usize = text.unicode_len();
    n > 0 && text.get_char(n - 1) == c
}

/// What `std` says of bytes that are not UTF-8.
pub uninterp spec fn utf8_error_text(bytes: Seq<u8>) -> Seq<char>;

/// `String::from_utf8`: the text that these bytes encode, or the text of the error when
/// they are not UTF-8.
#[verifier::external_body]
pub(crate) fn utf8_text(bytes: Vec<u8>) -> (t: Result<String, String>)
    ensures
        t is Ok <==> valid_utf8(bytes@),
        match t {
            Ok(s) => s@ == decode_utf8(bytes@),
            Err(e) => e@ == utf8_error_text(bytes@),
        },
{
    String::from_utf8(bytes).map_err(|e| e.to_string())
}

/// Bytes below 128 are valid UTF-8, one character each.
pub proof fn lemma_ascii_bytes(bytes: Seq<u8>)
    requires
        forall|i: int| 0 <= i < bytes.len() ==> #[trigger] bytes[i] < 128,
    ensures
        valid_utf8(bytes),
        decode_utf8(bytes) == Seq::new(bytes.len(), |i: int| bytes[i] as char),
    decreases bytes.len(),
{
    let chars = Seq::new(bytes.len(), |i: int| bytes[i] as char);
    if bytes.len() > 0 {
        let b = bytes[0];
        let rest = pop_first_scalar(bytes);
        assert(b < 128);
        assert((b & 0x7fu8) as u32 == b as u32) by (bit_vector)
            requires
                b < 128u8,
        ;
        assert(rest.len() == bytes.len() - 1);
        assert forall|i: int| 0 <= i < rest.len() implies #[trigger] rest[i] < 128 by {
            assert(rest[i] == bytes[i + 1]);
        }
        lemma_ascii_bytes(rest);
        assert(decode_utf8(bytes) == seq![b as char] + decode_utf8(rest));
        assert(decode_utf8(bytes) =~= chars);
    } else {
        assert(decode_utf8(bytes) =~= chars);
    }
}

// ----------------------------------------------------------------------- laws

/// Two texts are taken for the same exactly if they hold the same characters.
pub proof fn law_texts_are_compared_whole(a: &str, b: &str, same: bool)
    requires
        call_ensures(text_eq, (a, b), same),
    ensures
        same <==> a@.len() == b@.len() && forall|i: int|
            0 <= i < a@.len() ==> #[trigger] a@[i] == b@[i],
{
    if a@.len() == b@.len() && forall|i: int| 0 <= i < a@.len() ==> #[trigger] a@[i] == b@[i] {
        assert(a@ =~= b@);
    }
}

/// A number is written digit by digit, the highest first and never a leading zero: one
/// below ten is its digit, and any other is what stands for its tenth, followed by its
/// last digit.
pub proof fn law_a_number_is_written_digit_by_digit(n: u64, t: String, head: String)
    requires
        call_ensures(decimal_text, (n,), t),
        call_ensures(decimal_text, (n / 10,), head),
    ensures
        t@.len() > 0,
        t@[t@.len() - 1] as int == '0' as int + n % 10,
        n < 10 ==> t@.len() == 1,
        n >= 10 ==> t@.drop_last() == head@,
{
    lemma_decimal_shape(n as nat);
    if n >= 10 {
        assert(decimal(n as nat).drop_last() =~= decimal(n as nat / 10));
    }
}

/// Trimming takes whitespace from the end and nothing else: what is left is the beginning
/// of the text, does not end with whitespace, and only whitespace is gone.
pub proof fn law_only_whitespace_at_the_end_is_trimmed(text: &str, t: &str)
    requires
        call_ensures(trim_end, (text,), t),
    ensures
        t@.len() <= text@.len(),
        t@ == text@.take(t@.len() as int),
        t@.len() > 0 ==> !is_white(t@[t@.len() - 1]),
        forall|i: int| t@.len() <= i < text@.len() ==> is_white(#[trigger] text@[i]),
{
    lemma_trimmed_end(text@);
}

proof fn lemma_trimmed_end(text: Seq<char>)
    ensures
        ({
            let n = trimmed_end(text).len() as int;
            &&& n <= text.len()
            &&& trimmed_end(text) == text.take(n)
            &&& n > 0 ==> !is_white(text[n - 1])
            &&& forall|i: int| n <= i < text.len() ==> is_white(#[trigger] text[i])
        }),
    decreases text.len(),
{
    if text.len() > 0 && is_white(text.last()) {
        let init = text.drop_last();
        lemma_trimmed_end(init);
        let n = trimmed_end(text).len() as int;
        assert(init.take(n) =~= text.take(n));
        assert forall|i: int| n <= i < text.len() implies is_white(#[trigger] text[i]) by {
            if i < init.len() {
                assert(init[i] == text[i]);
            }
        }
        if n > 0 {
            assert(init[n - 1] == text[n - 1]);
        }
    } else {
        assert(text.take(text.len() as int) =~= text);
    }
}

/// Of the characters of ASCII, whitespace is the space and the five that move the carriage:
/// tab, line feed, vertical tab, form feed and carriage return. Beyond ASCII it is what
/// Unicode calls so, the ideographic space the last of it.
pub proof fn law_what_whitespace_is(c: char)
    ensures
        (c as int) < 128 ==> (is_white(c) <==> c == ' ' || c == '\t' || c == '\n' || c == '\r'
            || c as int == 11 || c as int == 12),
        is_white(c) ==> (c as int) <= 0x3000,
        c as int == 0x85 || c as int == 0xa0 || c as int == 0x1680 || c as int == 0x2028
            || c as int == 0x2029 || c as int == 0x202f || c as int == 0x205f || c as int
            == 0x3000 ==> is_white(c),
        0x2000 <= (c as int) <= 0x200a ==> is_white(c),
        128 <= (c as int) < 0x2000 && is_white(c) ==> c as int == 0x85 || c as int == 0xa0
            || c as int == 0x1680,
        0x200a < (c as int) < 0x2028 || 0x2029 < (c as int) < 0x202f || 0x202f < (c as int) < 0x205f
            || 0x205f < (c as int) < 0x3000 ==> !is_white(c),
{
}

/// A text ends with a character exactly if that is its last one.
pub proof fn law_the_last_character_ends_a_text(text: &str, c: char, yes: bool)
    requires
        call_ensures(ends_with_char, (text, c), yes),
    ensures
        text@.len() == 0 ==> !yes,
        text@.len() > 0 ==> (yes <==> text@[text@.len() - 1] == c),
{
}

} // verus!
