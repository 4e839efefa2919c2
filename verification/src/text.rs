//! Text as a terminal receives it: UTF-8 bytes, and numbers in decimal notation.

use vstd::prelude::*;
use vstd::string::StringExecFns;

verus! {

/// The UTF-8 bytes of a text.
#[verifier::opaque]
pub open spec fn utf8(text: Seq<char>) -> Seq<u8> {
    vstd::utf8::encode_utf8(text)
}

/// The character of a decimal digit.
pub open spec fn digit(d: nat) -> char {
    (48 + d) as char
}

/// A number in decimal notation, without leading zeros.
pub open spec fn decimal(n: nat) -> Seq<char>
    decreases n,
{
    if n < 10 {
        seq![digit(n)]
    } else {
        decimal(n / 10).push(digit(n % 10))
    }
}

/// A number in decimal notation, set to the right in a field of `width` columns.
pub open spec fn padded(n: nat, width: nat) -> Seq<char> {
    let blanks = if decimal(n).len() < width {
        (width - decimal(n).len()) as nat
    } else {
        0
    };
    Seq::new(blanks, |i: int| ' ') + decimal(n)
}

/// Whether a text consists of decimal digits only.
pub open spec fn all_digits(s: Seq<char>) -> bool {
    forall|i: int| 0 <= i < s.len() ==> '0' <= #[trigger] s[i] <= '9'
}

/// The number that a row of decimal digits denotes.
pub open spec fn digits_value(s: Seq<char>) -> nat
    decreases s.len(),
{
    if s.len() == 0 {
        0
    } else {
        digits_value(s.drop_last()) * 10 + (s.last() as nat - 48) as nat
    }
}

/// The number that a text denotes: at least one digit, after at most one `+`.
pub open spec fn unsigned_value(s: Seq<char>) -> Option<nat> {
    let digits = if s.len() > 0 && s[0] == '+' {
        s.drop_first()
    } else {
        s
    };
    if digits.len() > 0 && all_digits(digits) {
        Some(digits_value(digits))
    } else {
        None
    }
}

/// Whether a text is made up of what numbers and their units are written with: letters, digits,
/// points, blanks and minus signs.
pub open spec fn number_text(s: Seq<char>) -> bool {
    forall|i: int|
        0 <= i < s.len() ==> {
            ||| 'a' <= #[trigger] s[i] <= 'z'
            ||| 'A' <= s[i] <= 'Z'
            ||| '0' <= s[i] <= '9'
            ||| s[i] == '.' || s[i] == ' ' || s[i] == '-'
        }
}

/// Encoding a concatenation concatenates the encodings.
pub broadcast proof fn lemma_utf8_concat(a: Seq<char>, b: Seq<char>)
    ensures
        #[trigger] utf8(a + b) == utf8(a) + utf8(b),
    decreases a.len(),
{
    reveal(utf8);
    if a.len() == 0 {
        assert(a + b =~= b);
    } else {
        lemma_utf8_concat(a.drop_first(), b);
        assert((a + b).drop_first() =~= a.drop_first() + b);
        assert((a + b).first() == a.first());
    }
}

/// Concatenation is associative; read from left to right it nests to the left.
pub broadcast proof fn lemma_concat_assoc<T>(a: Seq<T>, b: Seq<T>, c: Seq<T>)
    ensures
        #[trigger] (a + (b + c)) == (a + b) + c,
{
    assert(a + (b + c) =~= (a + b) + c);
}

pub broadcast group group_text {
    lemma_utf8_concat,
    lemma_concat_assoc,
}

/// The empty text has no bytes, and adds nothing.
pub proof fn lemma_utf8_empty()
    ensures
        utf8(Seq::<char>::empty()) == Seq::<u8>::empty(),
        forall|b: Seq<u8>| #[trigger] (b + Seq::<u8>::empty()) == b,
{
    reveal(utf8);
    assert forall|b: Seq<u8>| #[trigger] (b + Seq::<u8>::empty()) == b by {
        assert(b + Seq::<u8>::empty() =~= b);
    }
}

/// An ASCII text has one byte for each character.
pub proof fn lemma_utf8_ascii(s: Seq<char>)
    requires
        vstd::utf8::is_ascii_chars(s),
    ensures
        utf8(s).len() == s.len(),
        forall|i: int| 0 <= i < s.len() ==> #[trigger] utf8(s)[i] == s[i] as u8,
{
    reveal(utf8);
    vstd::utf8::is_ascii_chars_encode_utf8(s);
}

/// Every encoded text is valid UTF-8, and decodes to the text.
pub proof fn lemma_utf8_valid(s: Seq<char>)
    ensures
        vstd::utf8::valid_utf8(utf8(s)),
        vstd::utf8::decode_utf8(utf8(s)) == s,
{
    reveal(utf8);
    vstd::utf8::encode_utf8_valid_utf8(s);
    vstd::utf8::encode_utf8_decode_utf8(s);
}

/// A number in decimal notation is at least one ASCII digit.
pub proof fn lemma_decimal_digits(n: nat)
    ensures
        decimal(n).len() > 0,
        all_digits(decimal(n)),
        digits_value(decimal(n)) == n,
    decreases n,
{
    if n >= 10 {
        lemma_decimal_digits(n / 10);
        assert(decimal(n).drop_last() =~= decimal(n / 10));
    } else {
        assert(decimal(n).drop_last() =~= Seq::<char>::empty());
        reveal_with_fuel(digits_value, 2);
    }
}

/// Reading a number's decimal notation gives the number back.
pub proof fn law_decimal_reads_back(n: nat)
    ensures
        unsigned_value(decimal(n)) == Some(n),
{
    lemma_decimal_digits(n);
    assert(decimal(n)[0] != '+');
}

/// Appends bytes to a buffer.
pub fn push_bytes(buf: &mut Vec<u8>, bytes: &[u8])
    ensures
        final(buf)@ == old(buf)@ + bytes@,
{
    buf.extend_from_slice(bytes);
    assert(buf@ =~= old(buf)@ + bytes@);
}

/// Appends a text to a buffer.
pub fn push_str(buf: &mut Vec<u8>, s: &str)
    ensures
        final(buf)@ == old(buf)@ + utf8(s@),
{
    push_bytes(buf, s.as_bytes());
    proof {
        reveal(utf8);
    }
}

/// The digit `d` as a text.
pub fn digit_str(d: usize) -> (s: &'static str)
    requires
        d < 10,
    ensures
        s@ == seq![digit(d as nat)],
{
    proof {
        reveal_strlit("0");
        reveal_strlit("1");
        reveal_strlit("2");
        reveal_strlit("3");
        reveal_strlit("4");
        reveal_strlit("5");
        reveal_strlit("6");
        reveal_strlit("7");
        reveal_strlit("8");
        reveal_strlit("9");
    }
    match d {
        0 => "0",
        1 => "1",
        2 => "2",
        3 => "3",
        4 => "4",
        5 => "5",
        6 => "6",
        7 => "7",
        8 => "8",
        _ => "9",
    }
}

/// Appends a number in decimal notation to a string.
pub fn append_decimal(s: &mut String, n: usize)
    ensures
        final(s)@ == old(s)@ + decimal(n as nat),
    decreases n,
{
    if n >= 10 {
        append_decimal(s, n / 10);
    }
    s.append(digit_str(n % 10));
    assert(s@ =~= old(s)@ + decimal(n as nat));
}

/// Appends a number in decimal notation to a buffer.
pub fn push_decimal(buf: &mut Vec<u8>, n: usize)
    ensures
        final(buf)@ == old(buf)@ + utf8(decimal(n as nat)),
    decreases n,
{
    broadcast use group_text;

    if n >= 10 {
        push_decimal(buf, n / 10);
        assert(decimal(n as nat) =~= decimal(n as nat / 10) + seq![digit(n as nat % 10)]);
    }
    push_str(buf, digit_str(n % 10));
}

/// The number of decimal digits of `n`.
pub fn decimal_len(n: usize) -> (len: usize)
    ensures
        len == decimal(n as nat).len(),
        1 <= len <= n + 1,
    decreases n,
{
    if n < 10 {
        1
    } else {
        decimal_len(n / 10) + 1
    }
}

/// Appends a number, set to the right in a field of `width` columns, to a buffer.
pub fn push_padded(buf: &mut Vec<u8>, n: usize, width: usize)
    ensures
        final(buf)@ == old(buf)@ + utf8(padded(n as nat, width as nat)),
{
    broadcast use group_text;

    let digits: usize = decimal_len(n);
    let mut column: usize = digits;
    let ghost mut blanks: Seq<char> = Seq::empty();
    proof {
        lemma_utf8_empty();
        reveal_strlit(" ");
        assert(blanks =~= Seq::new(0, |i: int| ' '));
    }
    while column < width
        invariant
            digits == decimal(n as nat).len(),
            digits <= column,
            column <= width || column == digits,
            blanks == Seq::new((column - digits) as nat, |i: int| ' '),
            buf@ == old(buf)@ + utf8(blanks),
            " "@ == seq![' '],
        decreases width - column,
    {
        push_str(buf, " ");
        column = column + 1;
        proof {
            lemma_utf8_concat(blanks, " "@);
            lemma_concat_assoc(old(buf)@, utf8(blanks), utf8(" "@));
            blanks = blanks + " "@;
            assert(blanks =~= Seq::new((column - digits) as nat, |i: int| ' '));
        }
    }
    push_decimal(buf, n);
}

/// Whether two texts are the same.
pub fn str_eq(a: &str, b: &str) -> (same: bool)
    ensures
        same == (a@ == b@),
{
    proof {
        vstd::utf8::encode_utf8_decode_utf8(a@);
        vstd::utf8::encode_utf8_decode_utf8(b@);
    }
    let x = a.as_bytes();
    let y = b.as_bytes();
    if x.len() != y.len() {
        return false;
    }
    let mut i: usize = 0;
    while i < x.len()
        invariant
            i <= x.len(),
            x@.len() == y@.len(),
            x@ == vstd::utf8::encode_utf8(a@),
            y@ == vstd::utf8::encode_utf8(b@),
            forall|j: int| 0 <= j < i ==> x@[j] == y@[j],
        decreases x.len() - i,
    {
        if x[i] != y[i] {
            return false;
        }
        i = i + 1;
    }
    assert(x@ =~= y@);
    true
}

/// Whether a text is made up of what numbers and their units are written with; see
/// [`number_text`].
pub fn is_number_text(s: &str) -> (yes: bool)
    ensures
        yes == number_text(s@),
{
    let ghost text = s@;
    if !s.is_ascii() {
        proof {
            if number_text(text) {
                assert(vstd::utf8::is_ascii_chars(text));
            }
        }
        return false;
    }
    let bytes = s.as_bytes();
    proof {
        vstd::utf8::is_ascii_chars_encode_utf8(text);
    }
    let mut i: usize = 0;
    while i < bytes.len()
        invariant
            i <= bytes.len(),
            text == s@,
            bytes@.len() == text.len(),
            forall|j: int| 0 <= j < text.len() ==> #[trigger] bytes@[j] == text[j] as u8,
            vstd::utf8::is_ascii_chars(text),
            number_text(text.take(i as int)),
        decreases bytes.len() - i,
    {
        let b: u8 = bytes[i];
        assert(0 <= text[i as int] as nat <= 127);
        let letter = 97 <= b && b <= 122 || 65 <= b && b <= 90;
        let digit = 48 <= b && b <= 57;
        if !letter && !digit && b != 46 && b != 32 && b != 45 {
            return false;
        }
        i = i + 1;
        assert(text.take(i as int) =~= text.take(i - 1).push(text[i - 1]));
    }
    assert(text.take(i as int) =~= text);
    true
}

/// A longer row of digits never denotes a smaller number.
proof fn lemma_digits_value_grows(s: Seq<char>, n: int)
    requires
        0 <= n <= s.len(),
    ensures
        digits_value(s.take(n)) <= digits_value(s),
    decreases s.len() - n,
{
    if n < s.len() {
        assert(s.take(n + 1).drop_last() =~= s.take(n));
        lemma_digits_value_grows(s, n + 1);
    } else {
        assert(s.take(n) =~= s);
    }
}

/// Reads an unsigned decimal number, which may have a `+` in front.
pub fn parse_usize(s: &str) -> (value: Option<usize>)
    ensures
        value == (match unsigned_value(s@) {
            Some(v) if v <= usize::MAX => Some(v as usize),
            _ => None,
        }),
{
    let ghost text = s@;
    let ghost digits = if text.len() > 0 && text[0] == '+' {
        text.drop_first()
    } else {
        text
    };
    if !s.is_ascii() {
        proof {
            if all_digits(digits) {
                assert forall|i: int| 0 <= i < text.len() implies '\0' <= #[trigger] text[i]
                    <= '\u{7f}' by {
                    if digits != text && i > 0 {
                        assert(digits[i - 1] == text[i]);
                    }
                }
            }
        }
        return None;
    }
    let bytes = s.as_bytes();
    proof {
        vstd::utf8::is_ascii_chars_encode_utf8(text);
    }
    let start: usize = if bytes.len() > 0 && bytes[0] == 43 {
        1
    } else {
        0
    };
    if start == bytes.len() {
        return None;
    }
    let mut value: usize = 0;
    let mut i: usize = start;
    while i < bytes.len()
        invariant
            start <= i <= bytes.len(),
            text == s@,
            bytes@.len() == text.len(),
            forall|j: int| 0 <= j < text.len() ==> #[trigger] bytes@[j] == text[j] as u8,
            vstd::utf8::is_ascii_chars(text),
            digits == text.skip(start as int),
            digits.len() > 0,
            unsigned_value(text) == (if all_digits(digits) {
                Some(digits_value(digits))
            } else {
                None
            }),
            all_digits(digits.take(i - start)),
            value == digits_value(digits.take(i - start)),
        decreases bytes.len() - i,
    {
        let b: u8 = bytes[i];
        assert(text[i as int] == digits[i - start]);
        assert(0 <= text[i as int] as nat <= 127);
        if b < 48 || b > 57 {
            return None;
        }
        let d: usize = (b - 48) as usize;
        proof {
            assert(digits.take(i - start + 1).drop_last() =~= digits.take(i - start));
            lemma_digits_value_grows(digits, i - start + 1);
        }
        if value > (usize::MAX - d) / 10 {
            return None;
        }
        value = value * 10 + d;
        i = i + 1;
    }
    assert(digits.take(i - start) =~= digits);
    Some(value)
}

/// A number is written with digits only, without a leading zero (but for zero itself), and each
/// further digit multiplies by ten.
pub proof fn law_decimal_has_no_leading_zero(n: nat)
    ensures
        n < 10 ==> decimal(n).len() == 1 && decimal(n)[0] as nat == 48 + n,
        n >= 10 ==> decimal(n)[0] != '0',
        n >= 10 ==> decimal(n).len() == decimal(n / 10).len() + 1,
        n >= 10 ==> decimal(n).drop_last() == decimal(n / 10) && decimal(n).last() as nat == 48 + n
            % 10,
    decreases n,
{
    if n >= 10 {
        law_decimal_has_no_leading_zero(n / 10);
        assert(decimal(n).drop_last() =~= decimal(n / 10));
        assert(decimal(n)[0] == decimal(n / 10)[0]) by {
            lemma_decimal_digits(n / 10);
        }
    }
}

/// A padded number fills its field with blanks in front of it, and is never cut.
pub proof fn law_padding_fills_the_field(n: nat, width: nat)
    ensures
        ({
            let t = padded(n, width);
            let d = decimal(n);
            &&& d.len() >= width ==> t == d
            &&& d.len() < width ==> t.len() == width
            &&& t.skip(t.len() - d.len()) == d
            &&& forall|i: int| 0 <= i < t.len() - d.len() ==> #[trigger] t[i] == ' '
        }),
{
    let t = padded(n, width);
    let d = decimal(n);
    assert(t.skip(t.len() - d.len()) =~= d);
    if d.len() >= width {
        assert(t =~= d);
    }
}

} // verus!
