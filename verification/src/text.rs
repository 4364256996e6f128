//! Text building blocks: decimal numerals, quoting, and slicing text by
//! byte offsets that fall between characters.

use vstd::prelude::*;
use vstd::string::StringSliceAdditionalSpecFns;
use vstd::utf8::*;

verus! {

/// The character that writes the decimal digit `d`.
pub open spec fn digit_char(d: int) -> char {
    if d == 0 {
        '0'
    } else if d == 1 {
        '1'
    } else if d == 2 {
        '2'
    } else if d == 3 {
        '3'
    } else if d == 4 {
        '4'
    } else if d == 5 {
        '5'
    } else if d == 6 {
        '6'
    } else if d == 7 {
        '7'
    } else if d == 8 {
        '8'
    } else {
        '9'
    }
}

/// The decimal numeral of `n`, without sign or leading zeros.
pub open spec fn decimal(n: nat) -> Seq<char>
    decreases n,
{
    if n < 10 {
        seq![digit_char(n as int)]
    } else {
        decimal(n / 10) + seq![digit_char((n % 10) as int)]
    }
}

/// The decimal numeral of `i`, with a leading minus sign when negative.
pub open spec fn signed_decimal(i: int) -> Seq<char> {
    if i < 0 {
        seq!['-'] + decimal((-i) as nat)
    } else {
        decimal(i as nat)
    }
}

/// `text` between double quotes, nothing escaped.
pub open spec fn quoted(text: Seq<char>) -> Seq<char> {
    seq!['"'] + text + seq!['"']
}

fn digit_text(d: u64) -> (r: &'static str)
    requires
        d < 10,
    ensures
        r@ == seq![digit_char(d as int)],
{
    proof {
        reveal_strlit("0");
        reveal_strlit("1");
        reveal_strlit("2");
        reveal_strlit("3");
        reveal_strlit("4");
        reveal_strlit("5");
        reveal_strlit("6");
        reveal_strlit("7");
        reveal_strlit("8");
        reveal_strlit("9");
    }
    let r: &'static str = if d == 0 {
        "0"
    } else if d == 1 {
        "1"
    } else if d == 2 {
        "2"
    } else if d == 3 {
        "3"
    } else if d == 4 {
        "4"
    } else if d == 5 {
        "5"
    } else if d == 6 {
        "6"
    } else if d == 7 {
        "7"
    } else if d == 8 {
        "8"
    } else {
        "9"
    };
    r
}

/// Appends the decimal numeral of `n` to `out`.
pub fn push_decimal(out: &mut String, n: u64)
    ensures
        final(out)@ == old(out)@ + decimal(n as nat),
    decreases n,
{
    if n >= 10 {
        push_decimal(out, n / 10);
    }
    out.append(digit_text(n % 10));
}

/// The decimal numeral of `n`.
pub fn unsigned_to_string(n: u64) -> (r: String)
    ensures
        r@ == decimal(n as nat),
{
    let mut out = String::new();
    push_decimal(&mut out, n);
    out
}

/// The decimal numeral of `i`, as integer formatting writes it.
pub fn signed_to_string(i: i64) -> (r: String)
    ensures
        r@ == signed_decimal(i as int),
{
    let mut out = String::new();
    if i < 0 {
        proof {
            reveal_strlit("-");
        }
        out.append("-");
        let magnitude: u64 = if i == i64::MIN {
            9223372036854775808u64
        } else {
            (-i) as u64
        };
        push_decimal(&mut out, magnitude);
    } else {
        push_decimal(&mut out, i as u64);
    }
    out
}

/// `text` between double quotes.
pub fn quote(text: &str) -> (r: String)
    ensures
        r@ == quoted(text@),
{
    proof {
        reveal_strlit("\"");
    }
    let mut out = String::from_str("\"");
    out.append(text);
    out.append("\"");
    out
}

/// The text of a string that may be missing.
pub open spec fn text_of(text: Option<String>) -> Option<Seq<char>> {
    match text {
        Some(text) => Some(text@),
        None => None,
    }
}

/// The views of a list of texts.
pub open spec fn texts(list: Seq<String>) -> Seq<Seq<char>> {
    Seq::new(list.len(), |i: int| list[i]@)
}

/// The number of bytes that `text` takes in UTF-8.
pub open spec fn byte_len(text: Seq<char>) -> nat {
    encode_utf8(text).len()
}

/// Whether byte offset `at` of `text` lies between two characters, or at
/// either end.
pub open spec fn on_boundary(text: Seq<char>, at: int) -> bool {
    0 <= at <= byte_len(text) && is_char_boundary(encode_utf8(text), at)
}

/// The characters of `text` that its bytes `from..to` encode.
pub open spec fn byte_slice(text: Seq<char>, from: int, to: int) -> Seq<char> {
    decode_utf8(encode_utf8(text).subrange(from, to))
}

/// A boundary of a text is a boundary of each prefix that reaches it.
pub proof fn lemma_boundary_in_prefix(text: Seq<char>, at: int, end: int)
    requires
        on_boundary(text, at),
        on_boundary(text, end),
        at <= end,
    ensures
        valid_utf8(encode_utf8(text).subrange(0, end)),
        is_char_boundary(encode_utf8(text).subrange(0, end), at),
{
    let bytes = encode_utf8(text);
    let prefix = bytes.subrange(0, end);
    encode_utf8_valid_utf8(text);
    valid_utf8_split(bytes, end);
    if at == end {
        is_char_boundary_start_end_of_seq(prefix);
    } else if at != 0 {
        is_char_boundary_iff_not_is_continuation_byte(bytes, at);
        is_char_boundary_iff_not_is_continuation_byte(prefix, at);
    }
}

/// Two adjoining slices make up the slice that spans both.
pub proof fn lemma_slices_join(text: Seq<char>, from: int, mid: int, to: int)
    requires
        on_boundary(text, from),
        on_boundary(text, mid),
        on_boundary(text, to),
        from <= mid <= to,
    ensures
        byte_slice(text, from, mid) + byte_slice(text, mid, to) == byte_slice(text, from, to),
{
    let bytes = encode_utf8(text);
    let prefix = bytes.subrange(0, to);
    lemma_boundary_in_prefix(text, from, to);
    lemma_boundary_in_prefix(text, mid, to);
    // inside the prefix that ends at `to`, split the part from `from` on at `mid`
    valid_utf8_split(prefix, from);
    let tail = prefix.subrange(from, prefix.len() as int);
    assert(tail =~= bytes.subrange(from, to));
    if from < mid < to {
        is_char_boundary_iff_not_is_continuation_byte(prefix, mid);
        is_char_boundary_iff_not_is_continuation_byte(tail, mid - from);
        decode_utf8_split(tail, mid - from);
        assert(tail.subrange(0, mid - from) =~= bytes.subrange(from, mid));
        assert(tail.subrange(mid - from, tail.len() as int) =~= bytes.subrange(mid, to));
    }
}

/// The slice from the first byte to the last is the whole text.
pub proof fn lemma_whole_slice(text: Seq<char>)
    ensures
        byte_slice(text, 0, byte_len(text) as int) == text,
        on_boundary(text, 0),
        on_boundary(text, byte_len(text) as int),
{
    let bytes = encode_utf8(text);
    encode_utf8_valid_utf8(text);
    encode_utf8_decode_utf8(text);
    is_char_boundary_start_end_of_seq(bytes);
    assert(bytes.subrange(0, bytes.len() as int) =~= bytes);
}

/// The bytes of two texts in a row are the bytes of the first, then those of
/// the second.
pub proof fn lemma_bytes_of_join(first: Seq<char>, second: Seq<char>)
    ensures
        encode_utf8(first + second) == encode_utf8(first) + encode_utf8(second),
    decreases first.len(),
{
    if first.len() > 0 {
        lemma_bytes_of_join(first.drop_first(), second);
        assert((first + second).drop_first() =~= first.drop_first() + second);
    }
}

/// A slice, taken as a text of its own, has as many bytes as it spans.
pub proof fn lemma_slice_len(text: Seq<char>, from: int, to: int)
    requires
        on_boundary(text, from),
        on_boundary(text, to),
        from <= to,
    ensures
        encode_utf8(byte_slice(text, from, to)) == encode_utf8(text).subrange(from, to),
        byte_len(byte_slice(text, from, to)) == to - from,
{
    let bytes = encode_utf8(text);
    let prefix = bytes.subrange(0, to);
    lemma_boundary_in_prefix(text, from, to);
    valid_utf8_split(prefix, from);
    assert(prefix.subrange(from, prefix.len() as int) =~= bytes.subrange(from, to));
    decode_utf8_encode_utf8(bytes.subrange(from, to));
}

/// In two texts in a row, the bytes of the first give back the first and
/// the bytes after them the second.
pub proof fn lemma_slices_of_join(first: Seq<char>, second: Seq<char>)
    ensures
        byte_slice(first + second, 0, byte_len(first) as int) == first,
        byte_slice(first + second, byte_len(first) as int, byte_len(first + second) as int)
            == second,
        byte_len(first + second) == byte_len(first) + byte_len(second),
{
    lemma_bytes_of_join(first, second);
    let bytes = encode_utf8(first + second);
    assert(bytes.subrange(0, byte_len(first) as int) =~= encode_utf8(first));
    assert(bytes.subrange(byte_len(first) as int, bytes.len() as int) =~= encode_utf8(second));
    encode_utf8_decode_utf8(first);
    encode_utf8_decode_utf8(second);
}

/// In a text of ASCII characters every character is one byte: every offset
/// up to the length lies between characters, and a slice is the characters
/// at those offsets.
pub proof fn lemma_ascii_slice(text: Seq<char>, from: int, to: int)
    requires
        is_ascii_chars(text),
        0 <= from <= to <= text.len(),
    ensures
        byte_len(text) == text.len(),
        on_boundary(text, from),
        on_boundary(text, to),
        byte_slice(text, from, to) == text.subrange(from, to),
{
    let bytes = encode_utf8(text);
    let part = text.subrange(from, to);
    is_ascii_chars_encode_utf8(text);
    is_ascii_chars_encode_utf8(part);
    encode_utf8_valid_utf8(text);
    is_char_boundary_start_end_of_seq(bytes);
    if 0 < from < bytes.len() {
        is_char_boundary_iff_not_is_continuation_byte(bytes, from);
    }
    if 0 < to < bytes.len() {
        is_char_boundary_iff_not_is_continuation_byte(bytes, to);
    }
    assert(encode_utf8(part) =~= bytes.subrange(from, to));
    encode_utf8_decode_utf8(part);
}

/// The number of bytes of `text`.
pub fn byte_length(text: &str) -> (n: usize)
    ensures
        n == byte_len(text@),
        on_boundary(text@, n as int),
        on_boundary(text@, 0),
{
    proof {
        lemma_whole_slice(text@);
    }
    text.as_bytes().len()
}

/// The part of `text` between two byte offsets.
pub fn slice_between<'a>(text: &'a str, from: usize, to: usize) -> (r: &'a str)
    requires
        on_boundary(text@, from as int),
        on_boundary(text@, to as int),
        from <= to,
    ensures
        r@ == byte_slice(text@, from as int, to as int),
{
    proof {
        lemma_boundary_in_prefix(text@, from as int, to as int);
    }
    let (head, _) = text.split_at(to);
    proof {
        encode_utf8_valid_utf8(text@);
        valid_utf8_split(encode_utf8(text@), to as int);
    }
    let (_, r) = head.split_at(from);
    proof {
        assert(r.spec_bytes() =~= encode_utf8(text@).subrange(from as int, to as int));
        encode_utf8_decode_utf8(r@);
    }
    r
}

} // verus!
