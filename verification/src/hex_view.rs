use vstd::prelude::*;
use crate::{BYTES_PER_CHUNK, BYTES_PER_LINE, CHUNKS_PER_LINE};
use crate::buffer::{Buffer, Mode, PartialAction};
use crate::cursor::{Cursor, InCursor};
use crate::render::{
    Color,
    CustomGreys,
    content_for_byte,
    content_for_character,
    secondary_head_grey,
    spec_character_for_byte,
    spec_fg_for_byte,
    spec_fg_for_character,
    spec_hex_for_byte,
    spec_style_for_address,
    style_for_address,
    style_for_byte,
    style_for_character,
    tail_grey,
};
use crate::widget::{Line, Span, Style, hex_digits, plain, push_hex_digits, span_views, with_bg, with_fg};
use itertools::Itertools;

verus! {

broadcast use vstd::std_specs::hash::group_hash_axioms;

/// The items of `first` and `second` taken in turn, starting with `first`;
/// once one of them runs out, the rest of the other.
pub open spec fn interleaved<T>(first: Seq<T>, second: Seq<T>) -> Seq<T>
    decreases first.len() + second.len(),
{
    if first.len() == 0 {
        second
    } else {
        seq![first[0]] + interleaved(second, first.drop_first())
    }
}

/// Calls `Itertools::interleave` on the two vectors and collects the
/// result. Its source takes an item from each iterator in turn, starting
/// with the first, and once one of them is exhausted yields the rest of the
/// other: the contract states that order.
#[verifier::external_body]
fn interleave_spans(first: Vec<Span>, second: Vec<Span>) -> (result: Vec<Span>)
    ensures
        result@ == interleaved(first@, second@),
{
    first.into_iter().interleave(second).collect()
}

proof fn lemma_views_interleaved(first: Seq<Span>, second: Seq<Span>)
    ensures
        span_views(interleaved(first, second)) == interleaved(span_views(first), span_views(second)),
    decreases first.len() + second.len(),
{
    if first.len() > 0 {
        lemma_views_interleaved(second, first.drop_first());
        assert(span_views(first).drop_first() =~= span_views(first.drop_first()));
        assert(span_views(interleaved(first, second)) =~= seq![first[0]@] + span_views(
            interleaved(second, first.drop_first()),
        ));
    }
}

pub(crate) proof fn lemma_views_push(spans: Seq<Span>, span: Span)
    ensures
        span_views(spans.push(span)) == span_views(spans).push(span@),
{
    assert(span_views(spans.push(span)) =~= span_views(spans).push(span@));
}

/// Appends `tail` to `spans`.
fn append_spans(spans: &mut Vec<Span>, tail: Vec<Span>)
    ensures
        span_views(final(spans)@) == span_views(old(spans)@) + span_views(tail@),
{
    let ghost appended = tail@;
    let mut tail = tail;
    spans.append(&mut tail);
    assert(span_views(spans@) =~= span_views(old(spans)@) + span_views(appended));
}

/// Where `address` falls in the first of `cursors` that holds it.
pub open spec fn first_place(cursors: Seq<Cursor>, address: int) -> Option<InCursor>
    decreases cursors.len(),
{
    if cursors.len() == 0 {
        None
    } else {
        match cursors[0].place_of(address) {
            Some(place) => Some(place),
            None => first_place(cursors.drop_first(), address),
        }
    }
}

fn first_place_in(cursors: &[Cursor], address: usize) -> (result: Option<InCursor>)
    ensures
        result == first_place(cursors@, address as int),
{
    let mut i: usize = 0;
    assert(cursors@.skip(0) =~= cursors@);
    while i < cursors.len()
        invariant
            i <= cursors@.len(),
            first_place(cursors@, address as int) == first_place(
                cursors@.skip(i as int),
                address as int,
            ),
        decreases cursors.len() - i,
    {
        let place = cursors[i].contains(address);
        assert(cursors@.skip(i as int).drop_first() =~= cursors@.skip(i + 1));
        if place.is_some() {
            return place;
        }
        i += 1;
    }
    assert(cursors@.skip(i as int) =~= Seq::<Cursor>::empty());
    None
}

impl Buffer {
    /// The primary cursor followed by the others.
    pub open spec fn all_cursors(&self) -> Seq<Cursor> {
        seq![self.primary_cursor] + self.cursors@
    }

    /// Whether some cursor selects the byte at `address`.
    pub open spec fn selects(&self, address: int) -> bool {
        exists|i: int| 0 <= i < self.all_cursors().len() && #[trigger] self.all_cursors()[i].covers(address)
    }

    /// Whether some cursor selects the gap just before `address`.
    pub open spec fn selects_space_before(&self, address: int) -> bool {
        exists|i: int|
            0 <= i < self.all_cursors().len() && #[trigger] self.all_cursors()[i].lo() < address
                <= self.all_cursors()[i].hi()
    }

    fn any_cursor_contains(&self, address: usize) -> (result: bool)
        ensures
            result == self.selects(address as int),
    {
        if self.primary_cursor.contains(address).is_some() {
            assert(self.all_cursors()[0] == self.primary_cursor);
            return true;
        }
        let mut i: usize = 0;
        while i < self.cursors.len()
            invariant
                i <= self.cursors@.len(),
                !self.primary_cursor.covers(address as int),
                forall|j: int| 0 <= j < i ==> !#[trigger] self.cursors@[j].covers(address as int),
            decreases self.cursors.len() - i,
        {
            if self.cursors[i].contains(address).is_some() {
                assert(self.all_cursors()[i + 1] == self.cursors@[i as int]);
                assert(self.all_cursors()[i + 1].covers(address as int));
                return true;
            }
            i += 1;
        }
        assert forall|k: int| 0 <= k < self.all_cursors().len() implies !#[trigger] self.all_cursors()[k].covers(
            address as int,
        ) by {
            if k > 0 {
                assert(self.all_cursors()[k] == self.cursors@[k - 1]);
            }
        }
        false
    }

    fn any_cursor_contains_space_before(&self, address: usize) -> (result: bool)
        ensures
            result == self.selects_space_before(address as int),
    {
        if self.primary_cursor.contains_space_before(address) {
            assert(self.all_cursors()[0] == self.primary_cursor);
            return true;
        }
        let mut i: usize = 0;
        while i < self.cursors.len()
            invariant
                i <= self.cursors@.len(),
                !(self.primary_cursor.lo() < address <= self.primary_cursor.hi()),
                forall|j: int|
                    0 <= j < i ==> !(#[trigger] self.cursors@[j].lo() < address
                        <= self.cursors@[j].hi()),
            decreases self.cursors.len() - i,
        {
            if self.cursors[i].contains_space_before(address) {
                assert(self.all_cursors()[i + 1] == self.cursors@[i as int]);
                return true;
            }
            i += 1;
        }
        assert forall|k: int| 0 <= k < self.all_cursors().len() implies !(
        #[trigger] self.all_cursors()[k].lo() < address <= self.all_cursors()[k].hi()) by {
            if k > 0 {
                assert(self.all_cursors()[k] == self.cursors@[k - 1]);
            }
        }
        false
    }

    /// A byte in the hex view: its two digits in its color, on the
    /// highlight of the cursor that holds it. The primary cursor's head is
    /// yellow in select mode and grey otherwise; the heads of the other
    /// cursors are a lighter grey; the rest of every selection is darker.
    pub open spec fn spec_byte_span(&self, address: int, byte: u8) -> (Seq<char>, Style) {
        let span = (spec_hex_for_byte(byte), Style { fg: Some(spec_fg_for_byte(byte)), bg: None });
        match self.primary_cursor.place_of(address) {
            Some(InCursor::Head) => with_bg(
                span,
                if self.mode == Mode::Select {
                    Color::Yellow
                } else {
                    Color::Gray
                },
            ),
            Some(InCursor::Rest) => with_bg(span, tail_grey()),
            None => match first_place(self.cursors@, address) {
                Some(InCursor::Head) => with_bg(span, secondary_head_grey()),
                Some(InCursor::Rest) => with_bg(span, tail_grey()),
                None => span,
            },
        }
    }

    pub fn render_byte_without_replace_preview(&self, address: usize, byte: u8) -> (result: Span)
        ensures
            result@ == self.spec_byte_span(address as int, byte),
    {
        let span = Span { content: content_for_byte(byte), style: style_for_byte(byte) };
        match self.primary_cursor.contains(address) {
            Some(InCursor::Head) => {
                let head_color = match self.mode {
                    Mode::Select => Color::Yellow,
                    _ => Color::Gray,
                };
                span.bg(head_color)
            },
            Some(InCursor::Rest) => span.bg(Color::selection_tail_grey()),
            None => match first_place_in(self.cursors.as_slice(), address) {
                Some(InCursor::Head) => span.bg(Color::secondary_selection_head_grey()),
                Some(InCursor::Rest) => span.bg(Color::selection_tail_grey()),
                None => span,
            },
        }
    }

    /// The byte that a replacement shows while only its first digit is
    /// typed: that digit in the high half, zero in the low half.
    pub open spec fn replace_preview_byte(&self) -> u8 {
        match self.partial_replace {
            Some(nybble) => ((nybble % 16) * 16) as u8,
            None => 0,
        }
    }

    /// A byte in the hex view. While a replacement is being typed, every
    /// selected byte shows what it will become, in black.
    pub open spec fn spec_byte_at(&self, address: int, byte: u8) -> (Seq<char>, Style) {
        if self.partial_action == Some(PartialAction::Replace) && self.selects(address) {
            with_fg(self.spec_byte_span(address, self.replace_preview_byte()), Color::Black)
        } else {
            self.spec_byte_span(address, byte)
        }
    }

    pub fn render_byte_at(&self, address: usize, byte: u8) -> (result: Span)
        ensures
            result@ == self.spec_byte_at(address as int, byte),
    {
        if self.partial_action == Some(PartialAction::Replace) && self.any_cursor_contains(address) {
            let replaced_byte = match self.partial_replace {
                Some(nybble) => (nybble % 16) * 16,
                None => 0,
            };
            self.render_byte_without_replace_preview(address, replaced_byte).fg(Color::Black)
        } else {
            self.render_byte_without_replace_preview(address, byte)
        }
    }

    /// The two columns before a chunk: an arrow when the byte after them is
    /// marked, highlighted when a selection spans them (never at the start
    /// of a line).
    pub open spec fn spec_large_space_before(&self, address: int) -> (Seq<char>, Style) {
        let text = if self.marks@.contains(address as usize) {
            " →"@
        } else {
            "  "@
        };
        if address % BYTES_PER_LINE as int != 0 && self.selects_space_before(address) {
            with_bg(plain(text), tail_grey())
        } else {
            plain(text)
        }
    }

    pub fn render_large_space_before(&self, address: usize) -> (result: Span)
        ensures
            result@ == self.spec_large_space_before(address as int),
    {
        let span = if self.marks.contains(&address) {
            Span::from_str(" →")
        } else {
            Span::from_str("  ")
        };
        if address % BYTES_PER_LINE != 0 && self.any_cursor_contains_space_before(address) {
            span.bg(Color::selection_tail_grey())
        } else {
            span
        }
    }

    /// The column between two bytes of a chunk: an arrow when the byte after
    /// it is marked, highlighted when a selection spans it.
    pub open spec fn spec_space_before(&self, address: int) -> (Seq<char>, Style) {
        let text = if self.marks@.contains(address as usize) {
            "→"@
        } else {
            " "@
        };
        if self.selects_space_before(address) {
            with_bg(plain(text), tail_grey())
        } else {
            plain(text)
        }
    }

    pub fn render_space_before(&self, address: usize) -> (result: Span)
        ensures
            result@ == self.spec_space_before(address as int),
    {
        let span = if self.marks.contains(&address) {
            Span::from_str("→")
        } else {
            Span::from_str(" ")
        };
        if self.any_cursor_contains_space_before(address) {
            span.bg(Color::selection_tail_grey())
        } else {
            span
        }
    }
}


impl Buffer {
    /// A chunk of the hex view: the wide gap before it, then its bytes with
    /// the narrow gaps between them. The three narrow gaps are always
    /// there, also after the last byte of a short chunk.
    pub open spec fn spec_chunk(&self, address: int, bytes: Seq<u8>) -> Seq<(Seq<char>, Style)> {
        seq![self.spec_large_space_before(address)] + interleaved(
            Seq::new(bytes.len(), |i: int| self.spec_byte_at(address + i, bytes[i])),
            Seq::new((BYTES_PER_CHUNK - 1) as nat, |i: int| self.spec_space_before(address + i + 1)),
        )
    }

    /// A chunk of fewer than four bytes, at the end of the file.
    pub fn render_partial_chunk(&self, address: usize, bytes: &[u8]) -> (result: Vec<Span>)
        requires
            address + BYTES_PER_LINE <= usize::MAX,
            bytes@.len() <= BYTES_PER_CHUNK,
        ensures
            span_views(result@) == self.spec_chunk(address as int, bytes@),
    {
        let mut byte_spans: Vec<Span> = Vec::new();
        let mut i: usize = 0;
        while i < bytes.len()
            invariant
                i <= bytes@.len() <= BYTES_PER_CHUNK,
                address + BYTES_PER_LINE <= usize::MAX,
                span_views(byte_spans@) == Seq::new(
                    i as nat,
                    |k: int| self.spec_byte_at(address + k, bytes@[k]),
                ),
            decreases bytes.len() - i,
        {
            let span = self.render_byte_at(address + i, bytes[i]);
            proof {
                lemma_views_push(byte_spans@, span);
            }
            byte_spans.push(span);
            i += 1;
            assert(span_views(byte_spans@) =~= Seq::new(
                i as nat,
                |k: int| self.spec_byte_at(address + k, bytes@[k]),
            ));
        }
        let mut space_spans: Vec<Span> = Vec::new();
        let mut j: usize = 1;
        while j < BYTES_PER_CHUNK
            invariant
                1 <= j <= BYTES_PER_CHUNK,
                address + BYTES_PER_LINE <= usize::MAX,
                span_views(space_spans@) == Seq::new(
                    (j - 1) as nat,
                    |k: int| self.spec_space_before(address + k + 1),
                ),
            decreases BYTES_PER_CHUNK - j,
        {
            let span = self.render_space_before(address + j);
            proof {
                lemma_views_push(space_spans@, span);
            }
            space_spans.push(span);
            j += 1;
            assert(span_views(space_spans@) =~= Seq::new(
                (j - 1) as nat,
                |k: int| self.spec_space_before(address + k + 1),
            ));
        }
        proof {
            lemma_views_interleaved(byte_spans@, space_spans@);
        }
        let mut result: Vec<Span> = Vec::new();
        result.push(self.render_large_space_before(address));
        append_spans(&mut result, interleave_spans(byte_spans, space_spans));
        result
    }

    /// A chunk of four bytes.
    pub fn render_chunk(&self, address: usize, bytes: &[u8]) -> (result: Vec<Span>)
        requires
            address + BYTES_PER_LINE <= usize::MAX,
            bytes@.len() == BYTES_PER_CHUNK,
        ensures
            span_views(result@) == self.spec_chunk(address as int, bytes@),
    {
        self.render_partial_chunk(address, bytes)
    }

    /// The chunks of a run of bytes, four bytes each, the last one possibly
    /// shorter.
    pub open spec fn spec_chunks(&self, address: int, bytes: Seq<u8>) -> Seq<(Seq<char>, Style)>
        decreases bytes.len(),
    {
        if bytes.len() == 0 {
            seq![]
        } else if bytes.len() <= BYTES_PER_CHUNK {
            self.spec_chunk(address, bytes)
        } else {
            self.spec_chunk(address, bytes.take(BYTES_PER_CHUNK as int)) + self.spec_chunks(
                address + BYTES_PER_CHUNK,
                bytes.skip(BYTES_PER_CHUNK as int),
            )
        }
    }

    fn render_chunks_of(&self, address: usize, bytes: &[u8]) -> (result: Vec<Span>)
        requires
            address + bytes@.len() + BYTES_PER_LINE <= usize::MAX,
        ensures
            span_views(result@) == self.spec_chunks(address as int, bytes@),
    {
        let mut result: Vec<Span> = Vec::new();
        let mut position: usize = 0;
        assert(bytes@.skip(0) =~= bytes@);
        while position < bytes.len()
            invariant
                position <= bytes@.len(),
                address + bytes@.len() + BYTES_PER_LINE <= usize::MAX,
                span_views(result@) + self.spec_chunks(
                    address + position,
                    bytes@.skip(position as int),
                ) == self.spec_chunks(address as int, bytes@),
            decreases bytes.len() - position,
        {
            let ghost rest = bytes@.skip(position as int);
            if bytes.len() - position <= BYTES_PER_CHUNK {
                let chunk = self.render_partial_chunk(address + position, &bytes[position..bytes.len()]);
                assert(bytes@.subrange(position as int, bytes@.len() as int) =~= rest);
                append_spans(&mut result, chunk);
                assert(bytes@.skip(bytes@.len() as int) =~= Seq::<u8>::empty());
                position = bytes.len();
            } else {
                let end = position + BYTES_PER_CHUNK;
                let chunk = self.render_partial_chunk(address + position, &bytes[position..end]);
                assert(bytes@.subrange(position as int, end as int) =~= rest.take(BYTES_PER_CHUNK as int));
                assert(rest.skip(BYTES_PER_CHUNK as int) =~= bytes@.skip(end as int));
                append_spans(&mut result, chunk);
                position = end;
            }
        }
        assert(bytes@.skip(bytes@.len() as int) =~= Seq::<u8>::empty());
        assert(span_views(result@) + seq![] =~= span_views(result@));
        result
    }

    /// The four chunks of a full line.
    pub fn render_chunks(&self, address: usize, bytes: &[u8]) -> (result: Vec<Span>)
        requires
            address + 2 * BYTES_PER_LINE <= usize::MAX,
            bytes@.len() == BYTES_PER_LINE,
        ensures
            span_views(result@) == self.spec_chunks(address as int, bytes@),
    {
        self.render_chunks_of(address, bytes)
    }

    /// Number of columns of filler after the chunks of a short line: two
    /// for each missing byte, and five for each missing chunk (its wide
    /// gap and its three narrow gaps).
    pub open spec fn padding_width(byte_count: int) -> int {
        let chunks_rendered = byte_count / BYTES_PER_CHUNK as int + if byte_count
            % BYTES_PER_CHUNK as int != 0 {
            1int
        } else {
            0int
        };
        2 * (BYTES_PER_LINE - byte_count) + (BYTES_PER_CHUNK - 1 + 2) * (CHUNKS_PER_LINE
            - chunks_rendered)
    }

    /// The chunks of the last, short line, padded with single spaces to the
    /// width of a full line.
    pub open spec fn spec_partial_chunks(&self, address: int, bytes: Seq<u8>) -> Seq<
        (Seq<char>, Style),
    > {
        self.spec_chunks(address, bytes) + spaces(Self::padding_width(bytes.len() as int) as nat)
    }

    pub fn render_partial_chunks(&self, address: usize, bytes: &[u8]) -> (result: Vec<Span>)
        requires
            address + 2 * BYTES_PER_LINE <= usize::MAX,
            bytes@.len() <= BYTES_PER_LINE,
        ensures
            span_views(result@) == self.spec_partial_chunks(address as int, bytes@),
    {
        let mut result = self.render_chunks_of(address, bytes);
        let full_chunks = bytes.len() / BYTES_PER_CHUNK;
        let chunks_rendered = full_chunks + if bytes.len() % BYTES_PER_CHUNK != 0 {
            1usize
        } else {
            0usize
        };
        let chunks_not_rendered = CHUNKS_PER_LINE - chunks_rendered;
        let spaces_per_chunk = BYTES_PER_CHUNK - 1 + 2;
        let bytes_not_rendered = BYTES_PER_LINE - bytes.len();
        assert(spaces_per_chunk * chunks_not_rendered <= 20) by (nonlinear_arith)
            requires
                spaces_per_chunk == 5,
                chunks_not_rendered <= 4,
        ;
        let padding_width = 2 * bytes_not_rendered + spaces_per_chunk * chunks_not_rendered;
        assert(padding_width == Self::padding_width(bytes@.len() as int));
        let ghost before = span_views(result@);
        let mut k: usize = 0;
        while k < padding_width
            invariant
                k <= padding_width,
                span_views(result@) == before + spaces(k as nat),
            decreases padding_width - k,
        {
            let space = Span::from_str(" ");
            proof {
                lemma_views_push(result@, space);
            }
            result.push(space);
            k += 1;
            assert(span_views(result@) =~= before + spaces(k as nat));
        }
        result
    }

    /// A byte in the character panel: its character in its color, on grey
    /// where the first cursor that holds it has its head, and on dark grey
    /// elsewhere in a selection.
    pub open spec fn spec_character_at(&self, address: int, byte: u8) -> (Seq<char>, Style) {
        let span = (
            seq![spec_character_for_byte(byte)],
            Style { fg: Some(spec_fg_for_character(byte)), bg: None },
        );
        match first_place(self.all_cursors(), address) {
            Some(InCursor::Head) => with_bg(span, tail_grey()),
            Some(InCursor::Rest) => with_bg(span, Color::DarkGray),
            None => span,
        }
    }

    fn render_character_at(&self, address: usize, byte: u8) -> (result: Span)
        ensures
            result@ == self.spec_character_at(address as int, byte),
    {
        let span = Span { content: content_for_character(byte), style: style_for_character(byte) };
        let place = match self.primary_cursor.contains(address) {
            Some(place) => Some(place),
            None => first_place_in(self.cursors.as_slice(), address),
        };
        assert(self.all_cursors().drop_first() =~= self.cursors@);
        match place {
            Some(InCursor::Head) => span.bg(Color::selection_tail_grey()),
            Some(InCursor::Rest) => span.bg(Color::DarkGray),
            None => span,
        }
    }

    /// The character panel of a line: one character for each byte.
    pub open spec fn spec_character_panel(&self, address: int, bytes: Seq<u8>) -> Seq<
        (Seq<char>, Style),
    > {
        Seq::new(bytes.len(), |i: int| self.spec_character_at(address + i, bytes[i]))
    }

    pub fn render_character_panel(&self, address: usize, bytes: &[u8]) -> (result: Vec<Span>)
        requires
            address + bytes@.len() <= usize::MAX,
        ensures
            span_views(result@) == self.spec_character_panel(address as int, bytes@),
    {
        let mut result: Vec<Span> = Vec::new();
        let mut i: usize = 0;
        while i < bytes.len()
            invariant
                i <= bytes@.len(),
                address + bytes@.len() <= usize::MAX,
                span_views(result@) == Seq::new(
                    i as nat,
                    |k: int| self.spec_character_at(address + k, bytes@[k]),
                ),
            decreases bytes.len() - i,
        {
            let span = self.render_character_at(address + i, bytes[i]);
            proof {
                lemma_views_push(result@, span);
            }
            result.push(span);
            i += 1;
            assert(span_views(result@) =~= Seq::new(
                i as nat,
                |k: int| self.spec_character_at(address + k, bytes@[k]),
            ));
        }
        result
    }
}


/// `count` single spaces.
pub open spec fn spaces(count: nat) -> Seq<(Seq<char>, Style)> {
    Seq::new(count, |i: int| plain(" "@))
}

/// The address at the start of a line: eight or more lowercase hex digits,
/// darker at the start of each 256-byte block.
pub open spec fn spec_address(address: int) -> (Seq<char>, Style) {
    (hex_digits(address as nat, 8), Style { fg: Some(spec_style_for_address(address)), bg: None })
}

pub fn render_address(address: usize) -> (result: Span)
    ensures
        result@ == spec_address(address as int),
{
    let mut content = String::new();
    push_hex_digits(address, 8, &mut content);
    Span { content, style: Style { fg: Some(style_for_address(address)), bg: None } }
}

/// The spans of each line.
pub open spec fn line_views(lines: Seq<Line>) -> Seq<Seq<(Seq<char>, Style)>> {
    lines.map_values(|line: Line| span_views(line.spans@))
}

impl Buffer {
    /// A full line of the hex view: the address, the four chunks, a gap and
    /// the character panel.
    pub open spec fn spec_line(&self, address: int, bytes: Seq<u8>) -> Seq<(Seq<char>, Style)> {
        seq![spec_address(address)] + self.spec_chunks(address, bytes) + seq![plain("  "@)]
            + self.spec_character_panel(address, bytes)
    }

    /// The last line when it is short: its chunks are padded to the width
    /// of a full line.
    pub open spec fn spec_partial_line(&self, address: int, bytes: Seq<u8>) -> Seq<
        (Seq<char>, Style),
    > {
        seq![spec_address(address)] + self.spec_partial_chunks(address, bytes) + seq![plain("  "@)]
            + self.spec_character_panel(address, bytes)
    }

    pub fn render_line(&self, address: usize, bytes: &[u8]) -> (result: Line)
        requires
            address + 2 * BYTES_PER_LINE <= usize::MAX,
            bytes@.len() == BYTES_PER_LINE,
        ensures
            span_views(result.spans@) == self.spec_line(address as int, bytes@),
            result.style == (Style { fg: None, bg: None }),
    {
        let mut spans: Vec<Span> = Vec::new();
        spans.push(render_address(address));
        append_spans(&mut spans, self.render_chunks(address, bytes));
        let gap = Span::from_str("  ");
        proof {
            lemma_views_push(spans@, gap);
        }
        spans.push(gap);
        append_spans(&mut spans, self.render_character_panel(address, bytes));
        Line { spans, style: Style::new() }
    }

    pub fn render_partial_line(&self, address: usize, bytes: &[u8]) -> (result: Line)
        requires
            address + 2 * BYTES_PER_LINE <= usize::MAX,
            bytes@.len() <= BYTES_PER_LINE,
        ensures
            span_views(result.spans@) == self.spec_partial_line(address as int, bytes@),
            result.style == (Style { fg: None, bg: None }),
    {
        let mut spans: Vec<Span> = Vec::new();
        spans.push(render_address(address));
        append_spans(&mut spans, self.render_partial_chunks(address, bytes));
        let gap = Span::from_str("  ");
        proof {
            lemma_views_push(spans@, gap);
        }
        spans.push(gap);
        append_spans(&mut spans, self.render_character_panel(address, bytes));
        Line { spans, style: Style::new() }
    }

    /// Where the bytes shown in a hex view of `height` rows (one of them
    /// taken by the status line) end.
    pub open spec fn visible_end(&self, height: int) -> int {
        let screen_end = self.scroll_position + BYTES_PER_LINE * (height - 1);
        if screen_end <= self.contents@.len() {
            screen_end
        } else {
            self.contents@.len() as int
        }
    }

    /// `count` full lines of the contents from `start` on.
    pub open spec fn spec_full_lines(&self, start: int, count: nat) -> Seq<Seq<(Seq<char>, Style)>> {
        Seq::new(
            count,
            |k: int|
                self.spec_line(
                    start + BYTES_PER_LINE * k,
                    self.contents@.subrange(
                        start + BYTES_PER_LINE * k,
                        start + BYTES_PER_LINE * k + BYTES_PER_LINE,
                    ),
                ),
        )
    }

    /// The lines of the hex view: a full line for each sixteen bytes from
    /// the scroll position, then a short line for what is left, if
    /// anything.
    pub open spec fn spec_hex_lines(&self, height: int) -> Seq<Seq<(Seq<char>, Style)>> {
        let start = self.scroll_position as int;
        let end = self.visible_end(height);
        let full = (end - start) / BYTES_PER_LINE as int;
        let remainder = (end - start) % BYTES_PER_LINE as int;
        self.spec_full_lines(start, full as nat) + if remainder != 0 {
            seq![
                self.spec_partial_line(
                    end - remainder,
                    self.contents@.subrange(end - remainder, end),
                ),
            ]
        } else {
            seq![]
        }
    }

    pub fn hex_lines(&self, height: u16) -> (result: Vec<Line>)
        requires
            height >= 1,
            self.scroll_position <= self.contents@.len(),
            self.scroll_position + BYTES_PER_LINE * height <= usize::MAX,
            self.contents@.len() + 2 * BYTES_PER_LINE <= usize::MAX,
        ensures
            line_views(result@) == self.spec_hex_lines(height as int),
            forall|k: int| 0 <= k < result@.len() ==> (#[trigger] result@[k]).style == (Style {
                fg: None,
                bg: None,
            }),
    {
        let screen_end = self.scroll_position + BYTES_PER_LINE * (height as usize - 1);
        let bytes_end = if screen_end <= self.contents.len() {
            screen_end
        } else {
            self.contents.len()
        };
        let start = self.scroll_position;
        let full = (bytes_end - start) / BYTES_PER_LINE;
        let remainder = (bytes_end - start) % BYTES_PER_LINE;
        let ghost wanted = self.spec_hex_lines(height as int);
        let ghost full_lines = self.spec_full_lines(start as int, full as nat);
        let mut result: Vec<Line> = Vec::new();
        let mut k: usize = 0;
        while k < full
            invariant
                k <= full,
                full == (bytes_end - start) / BYTES_PER_LINE as int,
                start == self.scroll_position,
                start <= bytes_end <= self.contents@.len(),
                self.contents@.len() + 2 * BYTES_PER_LINE <= usize::MAX,
                full_lines == self.spec_full_lines(start as int, full as nat),
                line_views(result@) == full_lines.take(k as int),
                forall|j: int| 0 <= j < result@.len() ==> (#[trigger] result@[j]).style == (Style {
                    fg: None,
                    bg: None,
                }),
            decreases full - k,
        {
            let address = start + BYTES_PER_LINE * k;
            let line = self.render_line(address, &self.contents.as_slice()[address..address + BYTES_PER_LINE]);
            let ghost before = result@;
            assert(span_views(line.spans@) == full_lines[k as int]);
            result.push(line);
            assert(line_views(result@) =~= line_views(before).push(full_lines[k as int]));
            k += 1;
            assert(line_views(result@) =~= full_lines.take(k as int));
        }
        assert(full_lines.take(full as int) =~= full_lines);
        if remainder != 0 {
            let address = bytes_end - remainder;
            let line = self.render_partial_line(address, &self.contents.as_slice()[address..bytes_end]);
            result.push(line);
            assert(line_views(result@) =~= wanted);
        } else {
            assert(line_views(result@) =~= wanted);
        }
        result
    }
}

} // verus!
