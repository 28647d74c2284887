use vstd::prelude::*;
use vstd::string::StringExecFns;
use crate::BYTES_PER_LINE;
use crate::buffer::{Buffer, Popup};
use crate::hex_view::{lemma_views_push, line_views};
use crate::render::{Color, CustomGreys, byte_column_to_screen_column, spec_screen_column, status_grey};
use crate::widget::{Line, Rect, Span, Style, plain, saturating_sub_u16, span_views, with_bg, with_fg};

verus! {

/// Where a popup of the buffer is drawn.
#[derive(Clone, Copy, Debug, PartialEq, Eq, Structural)]
pub struct PopupPlacement {
    /// The position of the popup among the buffer's popups.
    pub index: usize,
    pub area: Rect,
}

/// What a buffer shows in an area of the terminal.
pub struct Rendered {
    /// The rows of the hex view: all but the last.
    pub hex_area: Rect,
    pub hex_lines: Vec<Line>,
    /// Whether to write "empty file" over the hex view.
    pub empty_file: bool,
    /// The last row.
    pub status_area: Rect,
    pub status_line: Line,
    /// The label of the pending partial action, shown at the right of the
    /// status line.
    pub partial_action_label: String,
    /// The popups that are shown, in the order they are drawn.
    pub popups: Vec<PopupPlacement>,
    /// The popup at the start of the primary selection, drawn again on top.
    pub primary_popup: Option<usize>,
}

impl Buffer {
    /// The status line: the mode, the file name, a mark when there are
    /// unsaved changes, and the alert message, over the status grey.
    pub open spec fn spec_status_line(&self) -> Seq<(Seq<char>, Style)> {
        seq![
            with_bg(with_fg(plain(self.mode.spec_label()), Color::Black), self.mode.spec_color()),
            plain(" "@),
            plain(self.file_name@),
            plain(
                if self.spec_all_changes_saved() {
                    ""@
                } else {
                    " [+]"@
                },
            ),
            plain("  "@),
            self.alert_message@,
        ]
    }

    pub fn render_status_line(&self) -> (result: Line)
        ensures
            span_views(result.spans@) == self.spec_status_line(),
            result.style == (Style { fg: None, bg: Some(status_grey()) }),
    {
        let mut spans: Vec<Span> = Vec::new();
        let parts = [
            self.render_mode(),
            Span::from_str(" "),
            self.render_file_name(),
            self.modified_indicator(),
            Span::from_str("  "),
            Span { content: self.alert_message.content.clone(), style: self.alert_message.style },
        ];
        let mut i: usize = 0;
        while i < 6
            invariant
                i <= 6,
                span_views(spans@) == span_views(parts@).take(i as int),
                span_views(parts@) == self.spec_status_line(),
            decreases 6 - i,
        {
            let ghost before = spans@;
            let part = Span { content: parts[i].content.clone(), style: parts[i].style };
            proof {
                lemma_views_push(spans@, part);
            }
            spans.push(part);
            i += 1;
            assert(span_views(spans@) =~= span_views(parts@).take(i as int));
        }
        assert(span_views(parts@).take(6) =~= span_views(parts@));
        Line { spans, style: Style { fg: None, bg: Some(Color::ui_grey()) } }
    }

    /// The label of the mode, in black on the color of the mode.
    fn render_mode(&self) -> (result: Span)
        ensures
            result@ == with_bg(with_fg(plain(self.mode.spec_label()), Color::Black), self.mode.spec_color()),
    {
        Span::from_str(self.mode.label()).fg(Color::Black).bg(self.mode.color())
    }

    fn render_file_name(&self) -> (result: Span)
        ensures
            result@ == plain(self.file_name@),
    {
        Span::raw(self.file_name.clone())
    }

    /// " [+]" when there are unsaved changes.
    fn modified_indicator(&self) -> (result: Span)
        ensures
            result@ == plain(
                if self.spec_all_changes_saved() {
                    ""@
                } else {
                    " [+]"@
                },
            ),
    {
        if self.has_unsaved_changes() {
            Span::from_str(" [+]")
        } else {
            Span::from_str("")
        }
    }

    /// The label of the pending partial action, or nothing.
    pub open spec fn spec_partial_action_label(&self) -> Seq<char> {
        match self.partial_action {
            Some(partial_action) => partial_action.spec_label(),
            None => ""@,
        }
    }

    pub fn partial_action_label(&self) -> (result: String)
        ensures
            result@ == self.spec_partial_action_label(),
    {
        match self.partial_action {
            Some(partial_action) => String::from_str(partial_action.label()),
            None => String::from_str(""),
        }
    }

    /// Whether the byte of a popup lies on the screen, above the last row
    /// of a hex view of `hex_height` rows.
    pub open spec fn popup_shown(&self, popup: Popup, hex_height: u16) -> bool {
        self.scroll_position <= popup.at < self.scroll_position + saturating_sub_u16(hex_height, 1)
            * BYTES_PER_LINE
    }

    /// The box of a shown popup: its top left corner is below the first
    /// digit of its byte, and it is then moved and shrunk into the hex view.
    pub open spec fn spec_popup_area(&self, popup: Popup, area: Rect, hex_area: Rect) -> Rect {
        let position = popup.at - self.scroll_position;
        Rect {
            x: (area.x + spec_screen_column(position % BYTES_PER_LINE as int)) as u16,
            y: (area.y + position / BYTES_PER_LINE as int + 1) as u16,
            width: (popup.width + 2) as u16,
            height: popup.lines@.len() as u16,
        }.spec_clamp(hex_area)
    }

    /// Whether the box of a shown popup can be computed without leaving
    /// the range of a `u16`.
    pub open spec fn popup_fits(&self, popup: Popup, area: Rect) -> bool {
        let position = popup.at - self.scroll_position;
        &&& popup.width + 2 <= u16::MAX
        &&& area.x + spec_screen_column(position % BYTES_PER_LINE as int) <= u16::MAX
        &&& area.y + position / BYTES_PER_LINE as int + 1 <= u16::MAX
    }

    /// The rows of the hex view in `area`: all but the last.
    pub open spec fn spec_hex_area(area: Rect) -> Rect {
        Rect::spec_new(area.x, area.y, area.width, (area.height - 1) as u16)
    }

    /// The placements of the shown popups among the first `count`, in
    /// order.
    pub open spec fn spec_popup_placements(&self, area: Rect, count: int) -> Seq<PopupPlacement>
        decreases count,
    {
        if count <= 0 {
            seq![]
        } else {
            let before = self.spec_popup_placements(area, count - 1);
            let popup = self.popups@[count - 1];
            let hex_area = Self::spec_hex_area(area);
            if self.popup_shown(popup, hex_area.height) {
                before.push(
                    PopupPlacement {
                        index: (count - 1) as usize,
                        area: self.spec_popup_area(popup, area, hex_area),
                    },
                )
            } else {
                before
            }
        }
    }

    /// The last of the first `count` popups that is shown and belongs to
    /// the start of the primary selection.
    pub open spec fn spec_primary_popup(&self, area: Rect, count: int) -> Option<usize>
        decreases count,
    {
        if count <= 0 {
            None
        } else {
            let popup = self.popups@[count - 1];
            if self.popup_shown(popup, Self::spec_hex_area(area).height) && popup.at
                == self.primary_cursor.lo() {
                Some((count - 1) as usize)
            } else {
                self.spec_primary_popup(area, count - 1)
            }
        }
    }

    /// Where the shown popups go, and which of them is the primary one.
    pub fn popup_placements(&self, area: Rect) -> (result: (Vec<PopupPlacement>, Option<usize>))
        requires
            area.height >= 1,
            self.scroll_position + BYTES_PER_LINE * area.height <= usize::MAX,
            forall|i: int|
                0 <= i < self.popups@.len() && self.popup_shown(
                    #[trigger] self.popups@[i],
                    Self::spec_hex_area(area).height,
                ) ==> self.popup_fits(self.popups@[i], area),
        ensures
            result.0@ == self.spec_popup_placements(area, self.popups@.len() as int),
            result.1 == self.spec_primary_popup(area, self.popups@.len() as int),
    {
        let hex_area = Rect::new(area.x, area.y, area.width, area.height - 1);
        let lower_bound = self.primary_cursor.lower_bound();
        let mut placements: Vec<PopupPlacement> = Vec::new();
        let mut primary: Option<usize> = None;
        let mut i: usize = 0;
        while i < self.popups.len()
            invariant
                i <= self.popups@.len(),
                hex_area == Self::spec_hex_area(area),
                lower_bound == self.primary_cursor.lo(),
                area.height >= 1,
                self.scroll_position + BYTES_PER_LINE * area.height <= usize::MAX,
                forall|j: int|
                    0 <= j < self.popups@.len() && self.popup_shown(
                        #[trigger] self.popups@[j],
                        Self::spec_hex_area(area).height,
                    ) ==> self.popup_fits(self.popups@[j], area),
                placements@ == self.spec_popup_placements(area, i as int),
                primary == self.spec_primary_popup(area, i as int),
            decreases self.popups.len() - i,
        {
            let popup = &self.popups[i];
            let rows = hex_area.height.saturating_sub(1) as usize;
            if self.scroll_position <= popup.at && popup.at < self.scroll_position + rows
                * BYTES_PER_LINE {
                assert(self.popup_fits(self.popups@[i as int], area));
                let position = popup.at - self.scroll_position;
                let column = position % BYTES_PER_LINE;
                let x = area.x + byte_column_to_screen_column(column) as u16;
                let y = area.y + (position / BYTES_PER_LINE) as u16 + 1;
                let popup_area = popup.area_at(x, y).clamp(hex_area);
                placements.push(PopupPlacement { index: i, area: popup_area });
                if popup.at == lower_bound {
                    primary = Some(i);
                }
            }
            i += 1;
        }
        (placements, primary)
    }

    /// Whether the buffer can be drawn in `area`: the area has a row for the
    /// status line, the scroll position lies within the bytes, and the
    /// offsets and screen positions involved fit their integer types.
    pub open spec fn renders_in(&self, area: Rect) -> bool {
        &&& area.height >= 1
        &&& self.scroll_position <= self.contents@.len()
        &&& self.scroll_position + BYTES_PER_LINE * area.height <= usize::MAX
        &&& self.contents@.len() + 2 * BYTES_PER_LINE <= usize::MAX
        &&& forall|i: int|
            0 <= i < self.popups@.len() && self.popup_shown(
                #[trigger] self.popups@[i],
                Self::spec_hex_area(area).height,
            ) ==> self.popup_fits(self.popups@[i], area)
    }

    /// Whether the buffer can be drawn in `area`.
    pub fn can_render_in(&self, area: Rect) -> (result: bool)
        ensures
            result == self.renders_in(area),
    {
        if area.height < 1 || self.scroll_position > self.contents.len() {
            return false;
        }
        if self.scroll_position > usize::MAX - BYTES_PER_LINE * (area.height as usize) {
            return false;
        }
        if self.contents.len() > usize::MAX - 2 * BYTES_PER_LINE {
            return false;
        }
        let hex_height = Rect::new(area.x, area.y, area.width, area.height - 1).height;
        let rows = hex_height.saturating_sub(1) as usize;
        let mut i: usize = 0;
        while i < self.popups.len()
            invariant
                i <= self.popups@.len(),
                area.height >= 1,
                hex_height == Self::spec_hex_area(area).height,
                rows == saturating_sub_u16(hex_height, 1),
                self.scroll_position + BYTES_PER_LINE * area.height <= usize::MAX,
                forall|j: int|
                    0 <= j < i && self.popup_shown(#[trigger] self.popups@[j], hex_height)
                        ==> self.popup_fits(self.popups@[j], area),
            decreases self.popups.len() - i,
        {
            let popup = &self.popups[i];
            if self.scroll_position <= popup.at && popup.at < self.scroll_position + rows
                * BYTES_PER_LINE {
                let position = popup.at - self.scroll_position;
                if popup.width > u16::MAX - 2 {
                    return false;
                }
                let column = byte_column_to_screen_column(position % BYTES_PER_LINE);
                if area.x as usize + column > u16::MAX as usize {
                    return false;
                }
                if area.y as usize + position / BYTES_PER_LINE + 1 > u16::MAX as usize {
                    return false;
                }
            }
            i += 1;
        }
        true
    }

    /// What the buffer shows in `area`: the hex view in all rows but the
    /// last, "empty file" over it when there are no bytes, the status line
    /// in the last row with the partial action at its right, and the
    /// popups.
    pub fn render(&self, area: Rect) -> (result: Rendered)
        requires
            self.renders_in(area),
        ensures
            result.hex_area == Self::spec_hex_area(area),
            line_views(result.hex_lines@) == self.spec_hex_lines(area.height as int),
            forall|k: int| 0 <= k < result.hex_lines@.len() ==> (#[trigger] result.hex_lines@[k]).style
                == (Style { fg: None, bg: None }),
            result.empty_file == (self.contents@.len() == 0),
            result.status_area == Rect::spec_new(
                area.x,
                (area.spec_bottom() - 1) as u16,
                area.width,
                1,
            ),
            span_views(result.status_line.spans@) == self.spec_status_line(),
            result.status_line.style == (Style { fg: None, bg: Some(status_grey()) }),
            result.partial_action_label@ == self.spec_partial_action_label(),
            result.popups@ == self.spec_popup_placements(area, self.popups@.len() as int),
            result.primary_popup == self.spec_primary_popup(area, self.popups@.len() as int),
    {
        let hex_area = Rect::new(area.x, area.y, area.width, area.height - 1);
        let hex_lines = self.hex_lines(area.height);
        let status_area = Rect::new(area.x, area.bottom() - 1, area.width, 1);
        let (popups, primary_popup) = self.popup_placements(area);
        Rendered {
            hex_area,
            hex_lines,
            empty_file: self.contents.len() == 0,
            status_area,
            status_line: self.render_status_line(),
            partial_action_label: self.partial_action_label(),
            popups,
            primary_popup,
        }
    }
}

} // verus!
