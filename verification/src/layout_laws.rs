use vstd::prelude::*;
use crate::{BYTES_PER_CHUNK, BYTES_PER_LINE};
use crate::buffer::{Buffer, spec_nybble_from_hex};
use crate::hex_view::{interleaved, spaces, spec_address};
use crate::render::{spec_hex_for_byte, spec_screen_column};
use crate::widget::{Style, hex_digit, hex_digits, plain};

verus! {

/// The number of characters of all the spans together.
pub open spec fn text_width(spans: Seq<(Seq<char>, Style)>) -> int
    decreases spans.len(),
{
    if spans.len() == 0 {
        0
    } else {
        text_width(spans.drop_last()) + spans.last().0.len()
    }
}

proof fn lemma_width_concat(a: Seq<(Seq<char>, Style)>, b: Seq<(Seq<char>, Style)>)
    ensures
        text_width(a + b) == text_width(a) + text_width(b),
    decreases b.len(),
{
    if b.len() > 0 {
        lemma_width_concat(a, b.drop_last());
        assert((a + b).drop_last() =~= a + b.drop_last());
    } else {
        assert(a + b =~= a);
    }
}

proof fn lemma_width_single(span: (Seq<char>, Style))
    ensures
        text_width(seq![span]) == span.0.len(),
{
    assert(seq![span].drop_last() =~= Seq::<(Seq<char>, Style)>::empty());
    reveal_with_fuel(text_width, 2);
}

proof fn lemma_width_first(spans: Seq<(Seq<char>, Style)>)
    requires
        spans.len() > 0,
    ensures
        text_width(spans) == spans[0].0.len() + text_width(spans.drop_first()),
{
    lemma_width_concat(seq![spans[0]], spans.drop_first());
    assert(seq![spans[0]] + spans.drop_first() =~= spans);
    lemma_width_single(spans[0]);
}

proof fn lemma_width_interleaved(a: Seq<(Seq<char>, Style)>, b: Seq<(Seq<char>, Style)>)
    ensures
        text_width(interleaved(a, b)) == text_width(a) + text_width(b),
    decreases a.len() + b.len(),
{
    if a.len() > 0 {
        lemma_width_interleaved(b, a.drop_first());
        lemma_width_concat(seq![a[0]], interleaved(b, a.drop_first()));
        lemma_width_single(a[0]);
        lemma_width_first(a);
    }
}

proof fn lemma_width_uniform(spans: Seq<(Seq<char>, Style)>, width: int)
    requires
        forall|i: int| 0 <= i < spans.len() ==> (#[trigger] spans[i]).0.len() == width,
    ensures
        text_width(spans) == spans.len() * width,
    decreases spans.len(),
{
    if spans.len() > 0 {
        lemma_width_uniform(spans.drop_last(), width);
        assert(spans.last() == spans[spans.len() - 1]);
        assert((spans.len() - 1) * width + width == spans.len() * width) by (nonlinear_arith);
    }
}

/// A chunk of `count` bytes is `2 * count + 5` characters wide: two digits
/// a byte, the wide gap before it and three narrow gaps.
proof fn lemma_chunk_width(buffer: &Buffer, address: int, bytes: Seq<u8>)
    ensures
        text_width(buffer.spec_chunk(address, bytes)) == 2 * bytes.len() + 5,
{
    reveal_strlit(" →");
    reveal_strlit("  ");
    reveal_strlit("→");
    reveal_strlit(" ");
    let byte_spans = Seq::new(bytes.len(), |i: int| buffer.spec_byte_at(address + i, bytes[i]));
    let space_spans = Seq::new(
        (BYTES_PER_CHUNK - 1) as nat,
        |i: int| buffer.spec_space_before(address + i + 1),
    );
    lemma_width_uniform(byte_spans, 2);
    lemma_width_uniform(space_spans, 1);
    lemma_width_interleaved(byte_spans, space_spans);
    let large = buffer.spec_large_space_before(address);
    assert(large.0.len() == 2);
    lemma_width_concat(seq![large], interleaved(byte_spans, space_spans));
    lemma_width_single(large);
}

proof fn lemma_chunks_width(buffer: &Buffer, address: int, bytes: Seq<u8>)
    ensures
        text_width(buffer.spec_chunks(address, bytes)) == 13 * (bytes.len() / 4) + if bytes.len() % 4
            != 0 {
            2 * (bytes.len() % 4) + 5
        } else {
            0
        },
    decreases bytes.len(),
{
    if bytes.len() == 0 {
    } else if bytes.len() <= BYTES_PER_CHUNK {
        lemma_chunk_width(buffer, address, bytes);
    } else {
        let first = bytes.take(BYTES_PER_CHUNK as int);
        let rest = bytes.skip(BYTES_PER_CHUNK as int);
        lemma_chunk_width(buffer, address, first);
        lemma_chunks_width(buffer, address + BYTES_PER_CHUNK, rest);
        lemma_width_concat(
            buffer.spec_chunk(address, first),
            buffer.spec_chunks(address + BYTES_PER_CHUNK, rest),
        );
        assert(rest.len() == bytes.len() - 4);
        assert((bytes.len() - 4) / 4 == bytes.len() / 4 - 1);
        assert((bytes.len() - 4) % 4 == bytes.len() % 4);
    }
}

/// Every line of the hex view puts its character panel in the same column:
/// the chunks of a full line are 52 characters wide, and so are the chunks
/// of a short line together with their padding.
pub proof fn lemma_lines_align(buffer: &Buffer, address: int, bytes: Seq<u8>)
    requires
        bytes.len() <= BYTES_PER_LINE,
    ensures
        text_width(buffer.spec_partial_chunks(address, bytes)) == 52,
        bytes.len() == BYTES_PER_LINE ==> text_width(buffer.spec_chunks(address, bytes)) == 52,
{
    lemma_chunks_width(buffer, address, bytes);
    reveal_strlit(" ");
    let padding = spaces(Buffer::padding_width(bytes.len() as int) as nat);
    lemma_width_uniform(padding, 1);
    lemma_width_concat(buffer.spec_chunks(address, bytes), padding);
    let n = bytes.len() as int;
    assert(n == 4 * (n / 4) + n % 4);
    assert(0 <= n / 4 <= 4);
    assert(0 <= Buffer::padding_width(n));
    let q = n / 4;
    let r = n % 4;
    let extra: int = if r != 0 { 1 } else { 0 };
    assert(Buffer::padding_width(n) == 2 * (16 - n) + 5 * (4 - q - extra));
    assert(text_width(buffer.spec_chunks(address, bytes)) == 13 * q + if r != 0 { 2 * r + 5 } else { 0 });
    assert(text_width(buffer.spec_chunks(address, bytes)) + Buffer::padding_width(n) == 52);
}

} // verus!

verus! {

/// `16` to the power `exponent`.
pub open spec fn power16(exponent: nat) -> nat
    decreases exponent,
{
    if exponent == 0 {
        1
    } else {
        16 * power16((exponent - 1) as nat)
    }
}

/// A value below `16 ^ width` is written with exactly `width` digits.
proof fn lemma_hex_digits_len(value: nat, width: nat)
    requires
        width >= 1,
        value < power16(width),
    ensures
        hex_digits(value, width).len() == width,
    decreases value + width,
{
    if !(value < 16 && width <= 1) {
        assert(width >= 2) by {
            if width == 1 {
                assert(power16(0) == 1);
            }
        }
        let w = (width - 1) as nat;
        assert(power16(width) == 16 * power16(w));
        assert(value / 16 < power16(w));
        lemma_hex_digits_len(value / 16, w);
    }
}

proof fn lemma_width_step(spans: Seq<(Seq<char>, Style)>, k: int)
    requires
        0 <= k < spans.len(),
    ensures
        text_width(spans.take(k + 1)) == text_width(spans.take(k)) + spans[k].0.len(),
{
    assert(spans.take(k + 1).drop_last() =~= spans.take(k));
}

/// A chunk of four bytes, span by span.
proof fn lemma_chunk_spans(buffer: &Buffer, address: int, bytes: Seq<u8>)
    requires
        bytes.len() == BYTES_PER_CHUNK,
    ensures
        buffer.spec_chunk(address, bytes) == seq![
            buffer.spec_large_space_before(address),
            buffer.spec_byte_at(address, bytes[0]),
            buffer.spec_space_before(address + 1),
            buffer.spec_byte_at(address + 1, bytes[1]),
            buffer.spec_space_before(address + 2),
            buffer.spec_byte_at(address + 2, bytes[2]),
            buffer.spec_space_before(address + 3),
            buffer.spec_byte_at(address + 3, bytes[3]),
        ],
{
    let byte_spans = Seq::new(bytes.len(), |i: int| buffer.spec_byte_at(address + i, bytes[i]));
    let space_spans = Seq::new(
        (BYTES_PER_CHUNK - 1) as nat,
        |i: int| buffer.spec_space_before(address + i + 1),
    );
    reveal_with_fuel(interleaved, 8);
    assert(byte_spans.drop_first().drop_first().drop_first().drop_first() =~= Seq::<
        (Seq<char>, Style),
    >::empty());
    assert(space_spans.drop_first().drop_first().drop_first() =~= Seq::<(Seq<char>, Style)>::empty());
    assert(interleaved(byte_spans, space_spans) =~= seq![
        byte_spans[0],
        space_spans[0],
        byte_spans[1],
        space_spans[1],
        byte_spans[2],
        space_spans[2],
        byte_spans[3],
    ]);
    assert(buffer.spec_chunk(address, bytes) =~= seq![buffer.spec_large_space_before(address)]
        + interleaved(byte_spans, space_spans));
}

/// The widths of the starts of a chunk of four bytes: the digits of its
/// byte `r` start after `2 + 3 * r` characters.
proof fn lemma_chunk_prefix_width(buffer: &Buffer, address: int, bytes: Seq<u8>, r: int)
    requires
        bytes.len() == BYTES_PER_CHUNK,
        0 <= r < BYTES_PER_CHUNK,
    ensures
        text_width(buffer.spec_chunk(address, bytes).take(1 + 2 * r)) == 2 + 3 * r,
        buffer.spec_chunk(address, bytes)[1 + 2 * r] == buffer.spec_byte_at(address + r, bytes[r]),
        text_width(buffer.spec_chunk(address, bytes)) == 13,
        buffer.spec_chunk(address, bytes).len() == 8,
{
    reveal_strlit(" →");
    reveal_strlit("  ");
    reveal_strlit("→");
    reveal_strlit(" ");
    lemma_chunk_spans(buffer, address, bytes);
    lemma_chunk_width(buffer, address, bytes);
    let chunk = buffer.spec_chunk(address, bytes);
    assert(chunk.take(0) =~= Seq::<(Seq<char>, Style)>::empty());
    lemma_width_step(chunk, 0);
    lemma_width_step(chunk, 1);
    lemma_width_step(chunk, 2);
    lemma_width_step(chunk, 3);
    lemma_width_step(chunk, 4);
    lemma_width_step(chunk, 5);
    lemma_width_step(chunk, 6);
}

/// The chunks of a full line, chunk by chunk.
proof fn lemma_line_chunks(buffer: &Buffer, address: int, bytes: Seq<u8>)
    requires
        bytes.len() == BYTES_PER_LINE,
    ensures
        buffer.spec_chunks(address, bytes) == buffer.spec_chunk(address, bytes.subrange(0, 4))
            + buffer.spec_chunk(address + 4, bytes.subrange(4, 8)) + buffer.spec_chunk(
            address + 8,
            bytes.subrange(8, 12),
        ) + buffer.spec_chunk(address + 12, bytes.subrange(12, 16)),
{
    let s1 = bytes.skip(4);
    let s2 = s1.skip(4);
    let s3 = s2.skip(4);
    assert(bytes.take(4) =~= bytes.subrange(0, 4));
    assert(s1.take(4) =~= bytes.subrange(4, 8));
    assert(s2.take(4) =~= bytes.subrange(8, 12));
    assert(s3 =~= bytes.subrange(12, 16));
    assert(buffer.spec_chunks(address, bytes) == buffer.spec_chunk(address, bytes.take(4))
        + buffer.spec_chunks(address + 4, s1));
    assert(buffer.spec_chunks(address + 4, s1) == buffer.spec_chunk(address + 4, s1.take(4))
        + buffer.spec_chunks(address + 8, s2));
    assert(buffer.spec_chunks(address + 8, s2) == buffer.spec_chunk(address + 8, s2.take(4))
        + buffer.spec_chunks(address + 12, s3));
    assert(buffer.spec_chunks(address + 12, s3) == buffer.spec_chunk(address + 12, s3));
}

/// The position, in the spans of a full line, of the digits of the byte in
/// column `byte_column`.
pub open spec fn line_index(byte_column: int) -> int {
    2 + 8 * (byte_column / BYTES_PER_CHUNK as int) + 2 * (byte_column % BYTES_PER_CHUNK as int)
}

proof fn lemma_take_concat(a: Seq<(Seq<char>, Style)>, b: Seq<(Seq<char>, Style)>, m: int)
    requires
        0 <= m <= b.len(),
    ensures
        (a + b).take(a.len() + m) == a + b.take(m),
{
    assert((a + b).take(a.len() + m) =~= a + b.take(m));
}

proof fn lemma_position_in(
    before: Seq<(Seq<char>, Style)>,
    chunk: Seq<(Seq<char>, Style)>,
    tail: Seq<(Seq<char>, Style)>,
    m: int,
)
    requires
        0 <= m < chunk.len(),
    ensures
        (before + (chunk + tail))[before.len() + m] == chunk[m],
        text_width((before + (chunk + tail)).take(before.len() + m)) == text_width(before)
            + text_width(chunk.take(m)),
{
    lemma_take_concat(before, chunk + tail, m);
    assert((chunk + tail).take(m) =~= chunk.take(m));
    lemma_width_concat(before, chunk.take(m));
}

proof fn lemma_address_width(address: int)
    requires
        0 <= address < 0x1_0000_0000,
    ensures
        spec_address(address).0.len() == 8,
{
    reveal_with_fuel(power16, 9);
    lemma_hex_digits_len(address as nat, 8);
}

/// Where a full line draws its bytes is where a click selects them: on a
/// line whose address has eight digits, the digits of the byte in column
/// `byte_column` take the two screen columns from
/// `spec_screen_column(byte_column)` on, the columns that `click_at` maps
/// back to that byte.
pub proof fn lemma_bytes_drawn_where_clicked(buffer: &Buffer, address: int, bytes: Seq<u8>, byte_column: int)
    requires
        bytes.len() == BYTES_PER_LINE,
        0 <= byte_column < BYTES_PER_LINE,
        0 <= address < 0x1_0000_0000,
    ensures
        buffer.spec_line(address, bytes)[line_index(byte_column)] == buffer.spec_byte_at(
            address + byte_column,
            bytes[byte_column],
        ),
        text_width(buffer.spec_line(address, bytes).take(line_index(byte_column))) == spec_screen_column(
            byte_column,
        ),
        buffer.spec_line(address, bytes)[line_index(byte_column)].0.len() == 2,
{
    let q = byte_column / 4;
    let r = byte_column % 4;
    let b0 = bytes.subrange(0, 4);
    let b1 = bytes.subrange(4, 8);
    let b2 = bytes.subrange(8, 12);
    let b3 = bytes.subrange(12, 16);
    let c0 = buffer.spec_chunk(address, b0);
    let c1 = buffer.spec_chunk(address + 4, b1);
    let c2 = buffer.spec_chunk(address + 8, b2);
    let c3 = buffer.spec_chunk(address + 12, b3);
    lemma_line_chunks(buffer, address, bytes);
    lemma_address_width(address);
    let head = seq![spec_address(address)];
    lemma_width_single(spec_address(address));
    let rest = seq![plain("  "@)] + buffer.spec_character_panel(address, bytes);
    let line = buffer.spec_line(address, bytes);
    assert(line =~= head + (c0 + c1 + c2 + c3) + rest);
    if q == 0 {
        lemma_chunk_prefix_width(buffer, address, b0, r);
        assert(line =~= head + (c0 + (c1 + c2 + c3 + rest)));
        lemma_position_in(head, c0, c1 + c2 + c3 + rest, 1 + 2 * r);
        assert(b0[r] == bytes[byte_column]);
    } else if q == 1 {
        lemma_chunk_prefix_width(buffer, address, b0, 0);
        lemma_chunk_prefix_width(buffer, address + 4, b1, r);
        lemma_width_concat(head, c0);
        assert(line =~= (head + c0) + (c1 + (c2 + c3 + rest)));
        lemma_position_in(head + c0, c1, c2 + c3 + rest, 1 + 2 * r);
        assert(b1[r] == bytes[byte_column]);
    } else if q == 2 {
        lemma_chunk_prefix_width(buffer, address, b0, 0);
        lemma_chunk_prefix_width(buffer, address + 4, b1, 0);
        lemma_chunk_prefix_width(buffer, address + 8, b2, r);
        lemma_width_concat(head, c0);
        lemma_width_concat(head + c0, c1);
        assert(line =~= (head + c0 + c1) + (c2 + (c3 + rest)));
        lemma_position_in(head + c0 + c1, c2, c3 + rest, 1 + 2 * r);
        assert(b2[r] == bytes[byte_column]);
    } else {
        lemma_chunk_prefix_width(buffer, address, b0, 0);
        lemma_chunk_prefix_width(buffer, address + 4, b1, 0);
        lemma_chunk_prefix_width(buffer, address + 8, b2, 0);
        lemma_chunk_prefix_width(buffer, address + 12, b3, r);
        lemma_width_concat(head, c0);
        lemma_width_concat(head + c0, c1);
        lemma_width_concat(head + c0 + c1, c2);
        assert(line =~= (head + c0 + c1 + c2) + (c3 + rest));
        lemma_position_in(head + c0 + c1 + c2, c3, rest, 1 + 2 * r);
        assert(b3[r] == bytes[byte_column]);
    }
}

} // verus!

verus! {

/// Typing the two digits that the hex view shows for a byte, as a
/// replacement, gives back that byte: each digit reads back as its value,
/// the first as the high half and the second as the low half.
pub proof fn lemma_shown_digits_read_back(byte: u8)
    ensures
        spec_nybble_from_hex(spec_hex_for_byte(byte)[0]) == Some((byte / 16) as u8),
        spec_nybble_from_hex(spec_hex_for_byte(byte)[1]) == Some((byte % 16) as u8),
        (byte / 16) * 16 + byte % 16 == byte,
{
    lemma_digit_reads_back((byte / 16) as int);
    lemma_digit_reads_back((byte % 16) as int);
}

proof fn lemma_digit_reads_back(value: int)
    requires
        0 <= value < 16,
    ensures
        spec_nybble_from_hex(hex_digit(value)) == Some(value as u8),
{
    if value < 10 {
        assert(hex_digit(value) as int == 48 + value);
    } else {
        assert(hex_digit(value) as int == 97 + value - 10);
    }
}

/// The number that a run of hexadecimal digits writes.
pub open spec fn hex_value(digits: Seq<char>) -> int
    decreases digits.len(),
{
    if digits.len() == 0 {
        0
    } else {
        16 * hex_value(digits.drop_last()) + match spec_nybble_from_hex(digits.last()) {
            Some(nybble) => nybble as int,
            None => 0,
        }
    }
}

/// The digits written for an address read back as the address.
pub proof fn lemma_address_digits_read_back(address: nat, width: nat)
    ensures
        hex_value(hex_digits(address, width)) == address,
    decreases address + width,
{
    if address < 16 && width <= 1 {
        lemma_digit_reads_back(address as int);
        assert(seq![hex_digit(address as int)].drop_last() =~= Seq::<char>::empty());
        reveal_with_fuel(hex_value, 2);
    } else {
        let next_width: nat = if width > 0 { (width - 1) as nat } else { 0 };
        lemma_address_digits_read_back(address / 16, next_width);
        lemma_digit_reads_back((address % 16) as int);
        let digits = hex_digits(address, width);
        assert(digits.drop_last() =~= hex_digits(address / 16, next_width));
        assert(digits.last() == hex_digit((address % 16) as int));
        assert(address == 16 * (address / 16) + address % 16);
    }
}

} // verus!
