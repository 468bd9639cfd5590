//! Text building blocks: decimal and hexadecimal numerals, padding, and the
//! character-wise construction of strings, each with its meaning as a
//! sequence of characters.

use vstd::prelude::*;
use vstd::string::{StrSliceExecFns, StringExecFns};

verus! {

/// `String::push` appends exactly one character to the text.
pub assume_specification[ String::push ](s: &mut String, ch: char)
    ensures
        final(s)@ == old(s)@.push(ch),
;

/// The character that writes the digit `d` in bases up to sixteen, letters in
/// lower case.
pub open spec fn digit_char(d: int) -> char {
    if d == 0 {
        '0'
    } else if d == 1 {
        '1'
    } else if d == 2 {
        '2'
    } else if d == 3 {
        '3'
    } else if d == 4 {
        '4'
    } else if d == 5 {
        '5'
    } else if d == 6 {
        '6'
    } else if d == 7 {
        '7'
    } else if d == 8 {
        '8'
    } else if d == 9 {
        '9'
    } else if d == 10 {
        'a'
    } else if d == 11 {
        'b'
    } else if d == 12 {
        'c'
    } else if d == 13 {
        'd'
    } else if d == 14 {
        'e'
    } else {
        'f'
    }
}

/// The decimal numeral of `n`, most significant digit first, padded with
/// leading zeros to at least `width` digits. Every number has at least one
/// digit.
pub open spec fn decimal_padded(n: nat, width: nat) -> Seq<char>
    decreases n, width,
{
    if n < 10 && width <= 1 {
        seq![digit_char(n as int)]
    } else {
        decimal_padded(n / 10, if width > 0 { (width - 1) as nat } else { 0 }).push(
            digit_char((n % 10) as int),
        )
    }
}

/// The decimal numeral of `n`, without padding.
pub open spec fn decimal_text(n: nat) -> Seq<char> {
    decimal_padded(n, 1)
}

/// The lower-case hexadecimal numeral of `n`, most significant digit first,
/// padded with leading zeros to at least `width` digits.
pub open spec fn hex_text(n: nat, width: nat) -> Seq<char>
    decreases n, width,
{
    if n < 16 && width <= 1 {
        seq![digit_char(n as int)]
    } else {
        hex_text(n / 16, if width > 0 { (width - 1) as nat } else { 0 }).push(
            digit_char((n % 16) as int),
        )
    }
}

/// `count` copies of the character `c`.
pub open spec fn repeated(c: char, count: nat) -> Seq<char> {
    Seq::new(count, |i: int| c)
}

/// `text` followed by as many spaces as bring it to `width` characters; a
/// text that is already that long stays as it is.
pub open spec fn pad_right(text: Seq<char>, width: nat) -> Seq<char> {
    if text.len() >= width {
        text
    } else {
        text + repeated(' ', (width - text.len()) as nat)
    }
}

/// The first `count` characters of `text`, or all of it when it is shorter.
pub open spec fn prefix(text: Seq<char>, count: nat) -> Seq<char> {
    if text.len() <= count {
        text
    } else {
        text.subrange(0, count as int)
    }
}

/// The number of characters in `text`.
pub fn char_count(text: &String) -> (count: usize)
    ensures
        count == text@.len(),
{
    text.as_str().unicode_len()
}

/// The digit character for `d`.
fn digit_to_char(d: u8) -> (c: char)
    requires
        d < 16,
    ensures
        c == digit_char(d as int),
{
    match d {
        0 => '0',
        1 => '1',
        2 => '2',
        3 => '3',
        4 => '4',
        5 => '5',
        6 => '6',
        7 => '7',
        8 => '8',
        9 => '9',
        10 => 'a',
        11 => 'b',
        12 => 'c',
        13 => 'd',
        14 => 'e',
        _ => 'f',
    }
}

/// Appends the decimal numeral of `n`, at least `width` digits wide.
pub fn push_decimal_padded(out: &mut String, n: u128, width: usize)
    ensures
        final(out)@ == old(out)@ + decimal_padded(n as nat, width as nat),
    decreases n, width,
{
    if n < 10 && width <= 1 {
        out.push(digit_to_char(n as u8));
    } else {
        let rest: usize = if width > 0 {
            width - 1
        } else {
            0
        };
        push_decimal_padded(out, n / 10, rest);
        out.push(digit_to_char((n % 10) as u8));
    }
}

/// Appends the decimal numeral of `n`.
pub fn push_decimal(out: &mut String, n: u64)
    ensures
        final(out)@ == old(out)@ + decimal_text(n as nat),
{
    push_decimal_padded(out, n as u128, 1);
}

/// Appends the decimal numeral of a count or an index.
pub fn push_count(out: &mut String, n: usize)
    ensures
        final(out)@ == old(out)@ + decimal_text(n as nat),
{
    push_decimal_padded(out, n as u128, 1);
}

/// Appends the hexadecimal numeral of `n`, at least `width` digits wide.
pub fn push_hex(out: &mut String, n: u128, width: usize)
    ensures
        final(out)@ == old(out)@ + hex_text(n as nat, width as nat),
    decreases n, width,
{
    if n < 16 && width <= 1 {
        out.push(digit_to_char(n as u8));
    } else {
        let rest: usize = if width > 0 {
            width - 1
        } else {
            0
        };
        push_hex(out, n / 16, rest);
        out.push(digit_to_char((n % 16) as u8));
    }
}

/// Appends `count` copies of `c`.
pub fn push_repeated(out: &mut String, c: char, count: usize)
    ensures
        final(out)@ == old(out)@ + repeated(c, count as nat),
{
    let mut i: usize = 0;
    while i < count
        invariant
            i <= count,
            out@ == old(out)@ + repeated(c, i as nat),
        decreases count - i,
    {
        out.push(c);
        i += 1;
    }
}

/// Appends `text`, then spaces up to `width` characters in all.
pub fn push_padded(out: &mut String, text: &str, width: usize)
    ensures
        final(out)@ == old(out)@ + pad_right(text@, width as nat),
{
    out.append(text);
    let length = text.unicode_len();
    if length < width {
        push_repeated(out, ' ', width - length);
    }
}

/// `text` padded with spaces to `width` characters.
pub fn padded(text: &str, width: usize) -> (cell: String)
    ensures
        cell@ == pad_right(text@, width as nat),
{
    let mut cell = String::new();
    push_padded(&mut cell, text, width);
    cell
}

/// The first `count` characters of `text`.
pub fn leading<'a>(text: &'a str, count: usize) -> (head: &'a str)
    ensures
        head@ == prefix(text@, count as nat),
{
    let length = text.unicode_len();
    if length <= count {
        text
    } else {
        text.substring_char(0, count)
    }
}

/// The number of bytes that `c` takes in UTF-8.
pub open spec fn utf8_len(c: char) -> int {
    let v = c as u32;
    if v < 0x80 {
        1
    } else if v < 0x800 {
        2
    } else if v < 0x10000 {
        3
    } else {
        4
    }
}

/// The number of bytes that `text` takes in UTF-8.
pub open spec fn byte_len(text: Seq<char>) -> int
    decreases text.len(),
{
    if text.len() == 0 {
        0
    } else {
        byte_len(text.drop_last()) + utf8_len(text.last())
    }
}

/// The byte position at which character `k` of `text` begins; for `k` the
/// number of characters, the byte length of the text.
pub open spec fn byte_offset(text: Seq<char>, k: int) -> int {
    byte_len(text.subrange(0, k))
}

/// Whether `k` is the character position that belongs to the byte position
/// `cursor`: character `k` begins at or before it and the next one after it.
/// A position past the text belongs to its end.
pub open spec fn is_char_position(text: Seq<char>, cursor: int, k: int) -> bool {
    &&& 0 <= k <= text.len()
    &&& byte_offset(text, k) <= cursor
    &&& k < text.len() ==> cursor < byte_offset(text, k + 1)
}

/// The character position that belongs to the byte position `cursor`.
pub open spec fn char_position(text: Seq<char>, cursor: int) -> int {
    choose|k: int| is_char_position(text, cursor, k)
}

/// Whether the byte position `cursor` is where a character of `text` begins,
/// or its end.
pub open spec fn on_char_boundary(text: Seq<char>, cursor: int) -> bool {
    byte_offset(text, char_position(text, cursor)) == cursor
}

/// Each character begins where the one before it ends.
pub proof fn lemma_byte_offset_step(text: Seq<char>, k: int)
    requires
        0 <= k < text.len(),
    ensures
        byte_offset(text, k + 1) == byte_offset(text, k) + utf8_len(text[k]),
        byte_offset(text, 0) == 0,
        byte_offset(text, text.len() as int) == byte_len(text),
{
    assert(text.subrange(0, k + 1).drop_last() =~= text.subrange(0, k));
    assert(text.subrange(0, k + 1).last() == text[k]);
    assert(text.subrange(0, text.len() as int) =~= text);
    assert(text.subrange(0, 0) =~= Seq::<char>::empty());
}

/// The ends of a text: it begins at byte 0 and ends at its byte length.
pub proof fn lemma_byte_offset_ends(text: Seq<char>)
    ensures
        byte_offset(text, 0) == 0,
        byte_offset(text, text.len() as int) == byte_len(text),
{
    assert(text.subrange(0, text.len() as int) =~= text);
    assert(text.subrange(0, 0) =~= Seq::<char>::empty());
}

/// Later characters begin at later bytes.
pub proof fn lemma_byte_offset_rises(text: Seq<char>, i: int, j: int)
    requires
        0 <= i <= j <= text.len(),
    ensures
        byte_offset(text, i) <= byte_offset(text, j),
        i < j ==> byte_offset(text, i) < byte_offset(text, j),
    decreases j - i,
{
    if i < j {
        lemma_byte_offset_rises(text, i, j - 1);
        lemma_byte_offset_step(text, j - 1);
    }
}

/// Only one character position belongs to a byte position.
pub proof fn lemma_char_position_unique(text: Seq<char>, cursor: int, k: int)
    requires
        is_char_position(text, cursor, k),
    ensures
        char_position(text, cursor) == k,
{
    let chosen = char_position(text, cursor);
    assert(is_char_position(text, cursor, chosen));
    if chosen < k {
        lemma_byte_offset_rises(text, chosen + 1, k);
    }
    if k < chosen {
        lemma_byte_offset_rises(text, k + 1, chosen);
    }
}

/// The character position of a byte position at which character `k` begins is `k`.
pub proof fn lemma_char_position_of_offset(text: Seq<char>, k: int)
    requires
        0 <= k <= text.len(),
    ensures
        char_position(text, byte_offset(text, k)) == k,
        on_char_boundary(text, byte_offset(text, k)),
{
    if k < text.len() {
        lemma_byte_offset_rises(text, k, k + 1);
    }
    lemma_char_position_unique(text, byte_offset(text, k), k);
}

/// The character position of a cursor lies within the text.
pub proof fn lemma_char_position_in_text(text: Seq<char>, cursor: int)
    requires
        cursor >= 0,
    ensures
        0 <= char_position(text, cursor) <= text.len(),
        is_char_position_of(text, cursor),
    decreases text.len(),
{
    lemma_byte_offset_ends(text);
    if byte_len(text) <= cursor {
        assert(is_char_position(text, cursor, text.len() as int));
    } else {
        let shorter = text.drop_last();
        lemma_char_position_in_text(shorter, cursor);
        let k = char_position(shorter, cursor);
        assert(is_char_position(shorter, cursor, k));
        assert(shorter.subrange(0, k) =~= text.subrange(0, k));
        if k < shorter.len() {
            assert(shorter.subrange(0, k + 1) =~= text.subrange(0, k + 1));
        } else {
            assert(text.subrange(0, k + 1) =~= text);
            assert(shorter.subrange(0, k) =~= shorter);
        }
        assert(is_char_position(text, cursor, k));
    }
}

/// Whether the chosen character position is one that belongs to the cursor.
pub open spec fn is_char_position_of(text: Seq<char>, cursor: int) -> bool {
    is_char_position(text, cursor, char_position(text, cursor))
}

/// The bytes of a text with one more character at its end.
proof fn lemma_encoded_push(text: Seq<char>, c: char)
    ensures
        vstd::utf8::encode_utf8(text.push(c)).len() == vstd::utf8::encode_utf8(text).len()
            + utf8_len(c),
    decreases text.len(),
{
    vstd::utf8::char_is_scalar(c);
    if text.len() == 0 {
        assert(text.push(c).drop_first() =~= Seq::<char>::empty());
        assert(vstd::utf8::encode_utf8(text.push(c).drop_first()).len() == 0);
    } else {
        assert(text.push(c).drop_first() =~= text.drop_first().push(c));
        lemma_encoded_push(text.drop_first(), c);
    }
}

/// The byte length of a text is the length of its UTF-8 encoding.
pub proof fn lemma_byte_len_is_encoded_len(text: Seq<char>)
    ensures
        vstd::utf8::encode_utf8(text).len() == byte_len(text),
    decreases text.len(),
{
    if text.len() > 0 {
        lemma_byte_len_is_encoded_len(text.drop_last());
        lemma_encoded_push(text.drop_last(), text.last());
        assert(text.drop_last().push(text.last()) =~= text);
    }
}

/// The number of bytes that `c` takes in UTF-8.
pub fn utf8_width(c: char) -> (width: usize)
    ensures
        width == utf8_len(c),
{
    let v: u32 = c as u32;
    if v < 0x80 {
        1
    } else if v < 0x800 {
        2
    } else if v < 0x10000 {
        3
    } else {
        4
    }
}

/// The number of bytes that `text` takes in UTF-8.
pub fn byte_length(text: &str) -> (length: usize)
    ensures
        length == byte_len(text@),
{
    proof {
        lemma_byte_len_is_encoded_len(text@);
    }
    text.as_bytes().len()
}

/// The byte position at which character `k` of `text` begins.
pub fn byte_offset_at(text: &str, k: usize) -> (offset: usize)
    requires
        k <= text@.len(),
    ensures
        offset == byte_offset(text@, k as int),
{
    let total = byte_length(text);
    let mut offset: usize = 0;
    let mut i: usize = 0;
    proof {
        lemma_byte_offset_ends(text@);
    }
    while i < k
        invariant
            i <= k <= text@.len(),
            offset == byte_offset(text@, i as int),
            total == byte_len(text@),
        decreases k - i,
    {
        proof {
            lemma_byte_offset_step(text@, i as int);
            lemma_byte_offset_rises(text@, i + 1, text@.len() as int);
            lemma_byte_offset_ends(text@);
        }
        offset += utf8_width(text.get_char(i));
        i += 1;
    }
    offset
}

/// The character position that belongs to the byte position `cursor`.
pub fn char_position_at(text: &str, cursor: usize) -> (k: usize)
    ensures
        k == char_position(text@, cursor as int),
        k <= text@.len(),
{
    let length = text.unicode_len();
    let total = byte_length(text);
    let mut offset: usize = 0;
    let mut k: usize = 0;
    proof {
        lemma_byte_offset_ends(text@);
    }
    while k < length
        invariant
            k <= length == text@.len(),
            offset == byte_offset(text@, k as int),
            offset <= cursor,
            total == byte_len(text@),
        ensures
            k < length ==> cursor < byte_offset(text@, k + 1),
        decreases length - k,
    {
        proof {
            lemma_byte_offset_step(text@, k as int);
            lemma_byte_offset_rises(text@, k + 1, text@.len() as int);
            lemma_byte_offset_ends(text@);
        }
        let next = offset + utf8_width(text.get_char(k));
        if next > cursor {
            break;
        }
        offset = next;
        k += 1;
    }
    proof {
        lemma_char_position_unique(text@, cursor as int, k as int);
    }
    k
}

/// `text` with `c` put in before character `k`.
pub fn inserted(text: &str, k: usize, c: char) -> (longer: String)
    requires
        k <= text@.len(),
    ensures
        longer@ == text@.insert(k as int, c),
{
    let length = text.unicode_len();
    let mut longer = String::new();
    let mut i: usize = 0;
    while i < k
        invariant
            i <= k <= length == text@.len(),
            longer@ == text@.subrange(0, i as int),
        decreases k - i,
    {
        longer.push(text.get_char(i));
        i += 1;
    }
    longer.push(c);
    while i < length
        invariant
            k <= i <= length == text@.len(),
            longer@ == text@.subrange(0, k as int).push(c) + text@.subrange(k as int, i as int),
        decreases length - i,
    {
        longer.push(text.get_char(i));
        i += 1;
    }
    assert(longer@ =~= text@.insert(k as int, c));
    longer
}

/// `text` without its character `k`.
pub fn removed(text: &str, k: usize) -> (shorter: String)
    requires
        k < text@.len(),
    ensures
        shorter@ == text@.remove(k as int),
{
    let length = text.unicode_len();
    let mut shorter = String::new();
    let mut i: usize = 0;
    while i < length
        invariant
            i <= length == text@.len(),
            k < length,
            shorter@ == (if i <= k {
                text@.subrange(0, i as int)
            } else {
                text@.subrange(0, k as int) + text@.subrange(k + 1, i as int)
            }),
        decreases length - i,
    {
        if i != k {
            shorter.push(text.get_char(i));
        }
        i += 1;
    }
    assert(shorter@ =~= text@.remove(k as int));
    shorter
}

/// `a`, `b` and `c` in a row.
pub fn concat3(a: &str, b: &str, c: &str) -> (text: String)
    ensures
        text@ == a@ + b@ + c@,
{
    let mut text = String::from_str(a);
    text.append(b);
    text.append(c);
    text
}

/// `a`, `b`, `c`, `d` and `e` in a row.
pub fn concat5(a: &str, b: &str, c: &str, d: &str, e: &str) -> (text: String)
    ensures
        text@ == a@ + b@ + c@ + d@ + e@,
{
    let mut text = String::from_str(a);
    text.append(b);
    text.append(c);
    text.append(d);
    text.append(e);
    text
}

/// Whether `index` is where the first dot of `text` stands, or its length
/// where it holds no dot.
pub open spec fn is_first_dot(text: Seq<char>, index: int) -> bool {
    &&& 0 <= index <= text.len()
    &&& forall|k: int| 0 <= k < index ==> text[k] != '.'
    &&& index < text.len() ==> text[index] == '.'
}

/// What stands before the first dot of `text`: all of it where it has none.
pub open spec fn before_dot(text: Seq<char>) -> Seq<char> {
    text.subrange(0, choose|index: int| is_first_dot(text, index))
}

/// The part of `text` before its first dot.
pub fn leading_until_dot<'a>(text: &'a str) -> (head: &'a str)
    ensures
        head@ == before_dot(text@),
{
    let length = text.unicode_len();
    let mut i: usize = 0;
    while i < length && text.get_char(i) != '.'
        invariant
            i <= length,
            length == text@.len(),
            forall|k: int| 0 <= k < i ==> text@[k] != '.',
        decreases length - i,
    {
        i += 1;
    }
    proof {
        let chosen = choose|index: int| is_first_dot(text@, index);
        assert(is_first_dot(text@, i as int));
        assert(is_first_dot(text@, chosen));
        if chosen < i {
            assert(text@[chosen] != '.');
        }
        if i < chosen {
            assert(text@[i as int] != '.');
        }
    }
    text.substring_char(0, i)
}

} // verus!
