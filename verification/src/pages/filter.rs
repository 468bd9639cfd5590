//! The filter dialog: a capture filter typed as text or chosen from a fixed
//! catalog of presets.

use crate::action::{reply_view, Action, ActionView};
use crate::text::{byte_len, byte_offset, char_position, on_char_boundary, utf8_len};
use crate::text::{byte_length, byte_offset_at, char_count, char_position_at, inserted, removed};
use crate::text::{lemma_byte_offset_ends, lemma_byte_offset_step, lemma_char_position_in_text};
use crate::text::lemma_char_position_of_offset;
use crate::text::{pad_right, padded};
use crate::tui::{is_row_split, split_rows, Area, Event, KeyCode, KeyEvent, RowRule};
use vstd::prelude::*;
use vstd::string::StringExecFns;

verus! {

/// The two input modes of the dialog.
#[derive(Debug, Clone, Copy, PartialEq, Eq, Structural)]
pub enum FilterMode {
    CustomInput,
    PresetSelection,
}

/// The dialog's state.
#[derive(Debug)]
pub struct FilterDialog {
    pub is_open: bool,
    pub filter_text: String,
    /// The byte position of the cursor in the UTF-8 text.
    pub cursor_position: usize,
    pub selected_preset: usize,
    pub mode: FilterMode,
}

/// The mathematical content of the dialog.
pub struct DialogView {
    pub is_open: bool,
    pub text: Seq<char>,
    pub cursor: int,
    pub selected_preset: int,
    pub mode: FilterMode,
}

impl View for FilterDialog {
    type V = DialogView;

    open spec fn view(&self) -> DialogView {
        DialogView {
            is_open: self.is_open,
            text: self.filter_text@,
            cursor: self.cursor_position as int,
            selected_preset: self.selected_preset as int,
            mode: self.mode,
        }
    }
}

/// A closed dialog with empty text, in custom-text mode.
pub open spec fn closed_dialog() -> DialogView {
    DialogView {
        is_open: false,
        text: Seq::empty(),
        cursor: 0,
        selected_preset: 0,
        mode: FilterMode::CustomInput,
    }
}

/// A dialog that has just been opened: empty text, first preset, custom-text
/// mode.
pub open spec fn opened_dialog() -> DialogView {
    DialogView { is_open: true, ..closed_dialog() }
}

/// The number of presets in the catalog.
pub open spec fn preset_count() -> int {
    15
}

/// The display name of preset `index`.
pub open spec fn preset_name(index: int) -> Seq<char> {
    if index == 0 {
        "TCP Traffic"@
    } else if index == 1 {
        "UDP Traffic"@
    } else if index == 2 {
        "HTTP Traffic"@
    } else if index == 3 {
        "HTTPS Traffic"@
    } else if index == 4 {
        "DNS Traffic"@
    } else if index == 5 {
        "SSH Traffic"@
    } else if index == 6 {
        "FTP Traffic"@
    } else if index == 7 {
        "ICMP Traffic"@
    } else if index == 8 {
        "ARP Traffic"@
    } else if index == 9 {
        "IPv6 Traffic"@
    } else if index == 10 {
        "Broadcast"@
    } else if index == 11 {
        "Multicast"@
    } else if index == 12 {
        "Large Packets"@
    } else if index == 13 {
        "Small Packets"@
    } else {
        "Clear Filter"@
    }
}

/// The filter text that preset `index` resolves to.
pub open spec fn preset_filter(index: int) -> Seq<char> {
    if index == 0 {
        "tcp"@
    } else if index == 1 {
        "udp"@
    } else if index == 2 {
        "tcp port 80 or tcp port 8080"@
    } else if index == 3 {
        "tcp port 443"@
    } else if index == 4 {
        "udp port 53 or tcp port 53"@
    } else if index == 5 {
        "tcp port 22"@
    } else if index == 6 {
        "tcp port 21 or tcp port 20"@
    } else if index == 7 {
        "icmp"@
    } else if index == 8 {
        "arp"@
    } else if index == 9 {
        "ip6"@
    } else if index == 10 {
        "broadcast"@
    } else if index == 11 {
        "multicast"@
    } else if index == 12 {
        "greater 1000"@
    } else if index == 13 {
        "less 100"@
    } else {
        ""@
    }
}

/// The index of the preset that clears the filter.
pub open spec fn clear_filter_preset() -> int {
    14
}

/// One preset as the catalog shows it.
#[derive(Debug)]
pub struct PresetRow {
    /// The display name, padded to twenty characters.
    pub name: String,
    /// What the preset does: its filter text, or that it removes the filter.
    pub note: String,
    /// Whether the preset is the selected one.
    pub selected: bool,
}

/// The area of the dialog on a screen of `area`: four fifths of its width and
/// seven tenths of its height, centred.
pub open spec fn popup_of(area: Area) -> Area {
    let width = area.width * 80 / 100;
    let height = area.height * 70 / 100;
    Area {
        x: ((area.width - width) / 2) as u16,
        y: ((area.height - height) / 2) as u16,
        width: width as u16,
        height: height as u16,
    }
}

/// The area inside a frame of one cell round `area`.
pub open spec fn inside_of(area: Area) -> Area {
    Area {
        x: if area.x < u16::MAX {
            (area.x + 1) as u16
        } else {
            area.x
        },
        y: if area.y < u16::MAX {
            (area.y + 1) as u16
        } else {
            area.y
        },
        width: if area.width >= 2 {
            (area.width - 2) as u16
        } else {
            0
        },
        height: if area.height >= 2 {
            (area.height - 2) as u16
        } else {
            0
        },
    }
}

/// The last three lines of `area`, as far as they fit into the screen.
pub open spec fn footer_of(area: Area) -> Area {
    let top = area.y + (if area.height >= 3 {
        area.height - 3
    } else {
        0
    });
    Area {
        x: area.x,
        y: if top <= u16::MAX {
            top as u16
        } else {
            u16::MAX
        },
        width: area.width,
        height: 3,
    }
}

/// The screen cell of the text cursor in an input box drawn in `input`, if
/// the dialog is in custom-text mode and the cursor lies inside the box: one
/// cell for the frame, then one for each character before the cursor.
pub open spec fn cursor_cell_of(dialog: DialogView, input: Area) -> Option<(u16, u16)> {
    let column = input.x + 1 + char_position(dialog.text, dialog.cursor);
    if dialog.mode == FilterMode::CustomInput && column < input.x + input.width - 1 && input.y
        < u16::MAX {
        Some((column as u16, (input.y + 1) as u16))
    } else {
        None
    }
}

/// What the catalog notes beside a preset.
pub open spec fn preset_note(index: int) -> Seq<char> {
    if preset_filter(index).len() == 0 {
        "(removes current filter)"@
    } else {
        "- "@ + preset_filter(index)
    }
}

/// The other input mode.
pub open spec fn toggled(mode: FilterMode) -> FilterMode {
    match mode {
        FilterMode::CustomInput => FilterMode::PresetSelection,
        FilterMode::PresetSelection => FilterMode::CustomInput,
    }
}

/// The dialog after an editing key in custom-text mode. The cursor is a
/// byte position in the UTF-8 text and stands where a character begins, or
/// at the end. A character typed goes in at the cursor, which then stands
/// behind it; Backspace takes out the character before the cursor and Delete
/// the one at it; Left and Right move by one character; Home and End go to
/// the ends. A cursor that stood inside a character, or past the text, counts
/// as standing at the start of that character, or at the end. Any other key
/// changes nothing.
pub open spec fn after_custom_input(dialog: DialogView, key: KeyCode) -> DialogView {
    let text = dialog.text;
    let k = char_position(text, dialog.cursor);
    match key {
        KeyCode::Char(c) => DialogView {
            text: text.insert(k, c),
            cursor: byte_offset(text.insert(k, c), k + 1),
            ..dialog
        },
        KeyCode::Backspace => if k > 0 {
            DialogView { text: text.remove(k - 1), cursor: byte_offset(text, k - 1), ..dialog }
        } else {
            DialogView { cursor: 0, ..dialog }
        },
        KeyCode::Delete => if k < text.len() {
            DialogView { text: text.remove(k), cursor: byte_offset(text, k), ..dialog }
        } else {
            DialogView { cursor: byte_len(text), ..dialog }
        },
        KeyCode::Left => DialogView {
            cursor: byte_offset(
                text,
                if k > 0 {
                    k - 1
                } else {
                    0
                },
            ),
            ..dialog
        },
        KeyCode::Right => DialogView {
            cursor: byte_offset(
                text,
                if k < text.len() {
                    k + 1
                } else {
                    k
                },
            ),
            ..dialog
        },
        KeyCode::Home => DialogView { cursor: 0, ..dialog },
        KeyCode::End => DialogView { cursor: byte_len(text), ..dialog },
        _ => dialog,
    }
}

/// Whether `key` edits the text or moves the cursor in custom-text mode.
pub open spec fn is_editing_key(key: KeyCode) -> bool {
    ||| key is Char
    ||| key is Backspace
    ||| key is Delete
    ||| key is Left
    ||| key is Right
    ||| key is Home
    ||| key is End
}

/// Whether the cursor stands where a character of the text begins, or at
/// its end.
pub open spec fn cursor_on_boundary(dialog: DialogView) -> bool {
    on_char_boundary(dialog.text, dialog.cursor)
}

/// A text keeps the byte positions of the characters before the one that is
/// taken out or put in.
pub proof fn lemma_offsets_before_an_edit(text: Seq<char>, k: int, c: char)
    requires
        0 <= k <= text.len(),
    ensures
        byte_offset(text.insert(k, c), k) == byte_offset(text, k),
        byte_offset(text.insert(k, c), k + 1) == byte_offset(text, k) + utf8_len(c),
        k < text.len() ==> byte_offset(text.remove(k), k) == byte_offset(text, k),
{
    assert(text.insert(k, c).subrange(0, k) =~= text.subrange(0, k));
    lemma_byte_offset_step(text.insert(k, c), k);
    if k < text.len() {
        assert(text.remove(k).subrange(0, k) =~= text.subrange(0, k));
    }
}

/// After every editing key the cursor stands on a character boundary,
/// wherever it stood before.
pub proof fn lemma_editing_puts_cursor_on_boundary(dialog: DialogView, key: KeyCode)
    requires
        is_editing_key(key),
        dialog.cursor >= 0,
    ensures
        cursor_on_boundary(after_custom_input(dialog, key)),
{
    let text = dialog.text;
    let k = char_position(text, dialog.cursor);
    lemma_char_position_in_text(text, dialog.cursor);
    lemma_byte_offset_ends(text);
    match key {
        KeyCode::Char(c) => {
            lemma_char_position_of_offset(text.insert(k, c), k + 1);
        },
        KeyCode::Backspace => {
            if k > 0 {
                lemma_offsets_before_an_edit(text, k - 1, 'x');
                lemma_char_position_of_offset(text.remove(k - 1), k - 1);
            } else {
                lemma_char_position_of_offset(text, 0);
            }
        },
        KeyCode::Delete => {
            if k < text.len() {
                lemma_offsets_before_an_edit(text, k, 'x');
                lemma_char_position_of_offset(text.remove(k), k);
            } else {
                lemma_char_position_of_offset(text, text.len() as int);
            }
        },
        KeyCode::Left => {
            lemma_char_position_of_offset(
                text,
                if k > 0 {
                    k - 1
                } else {
                    0
                },
            );
        },
        KeyCode::Right => {
            lemma_char_position_of_offset(
                text,
                if k < text.len() {
                    k + 1
                } else {
                    k
                },
            );
        },
        KeyCode::Home => {
            lemma_char_position_of_offset(text, 0);
        },
        _ => {
            lemma_char_position_of_offset(text, text.len() as int);
        },
    }
}

/// What the editing keys do to a cursor that stands on a character boundary,
/// at character `k`: a character typed moves it on by the bytes of that
/// character, Backspace and Left move it back by the bytes of the character
/// before it, Right moves it on by the bytes of the character at it, Delete
/// leaves it where it is.
pub proof fn lemma_cursor_moves_by_whole_characters(page: FilterDialog, c: char)
    requires
        page.wf(),
    ensures
        ({
            let dialog = page@;
            let k = char_position(dialog.text, dialog.cursor);
            &&& 0 <= k <= dialog.text.len()
            &&& after_custom_input(dialog, KeyCode::Char(c)).cursor == dialog.cursor + utf8_len(c)
            &&& after_custom_input(dialog, KeyCode::Char(c)).text == dialog.text.insert(k, c)
            &&& after_custom_input(dialog, KeyCode::Delete).cursor == dialog.cursor
            &&& k > 0 ==> after_custom_input(dialog, KeyCode::Backspace).cursor == dialog.cursor
                - utf8_len(dialog.text[k - 1]) && after_custom_input(dialog, KeyCode::Left).cursor
                == dialog.cursor - utf8_len(dialog.text[k - 1])
            &&& k == 0 ==> after_custom_input(dialog, KeyCode::Backspace) == dialog
                && after_custom_input(dialog, KeyCode::Left) == dialog
            &&& k < dialog.text.len() ==> after_custom_input(dialog, KeyCode::Right).cursor
                == dialog.cursor + utf8_len(dialog.text[k])
            &&& k == dialog.text.len() ==> after_custom_input(dialog, KeyCode::Right) == dialog
                && after_custom_input(dialog, KeyCode::Delete) == dialog
        }),
{
    let dialog = page@;
    let text = dialog.text;
    let k = char_position(text, dialog.cursor);
    lemma_char_position_in_text(text, dialog.cursor);
    lemma_byte_offset_ends(text);
    lemma_offsets_before_an_edit(text, k, c);
    if k > 0 {
        lemma_byte_offset_step(text, k - 1);
    }
    if k < text.len() {
        lemma_byte_offset_step(text, k);
    }
}

/// The dialog after a navigation key in preset mode: the selection moves
/// within the catalog and stops at its ends.
pub open spec fn after_preset_key(dialog: DialogView, key: KeyCode) -> DialogView {
    let selected = dialog.selected_preset;
    match key {
        KeyCode::Up => if selected > 0 {
            DialogView { selected_preset: selected - 1, ..dialog }
        } else {
            dialog
        },
        KeyCode::Down => if selected < preset_count() - 1 {
            DialogView { selected_preset: selected + 1, ..dialog }
        } else {
            dialog
        },
        KeyCode::Home => DialogView { selected_preset: 0, ..dialog },
        KeyCode::End => DialogView { selected_preset: preset_count() - 1, ..dialog },
        _ => dialog,
    }
}

/// The filter text that confirming resolves to: the typed text in custom
/// mode, the selected preset's text in preset mode; nothing where the
/// selection is outside the catalog.
pub open spec fn resolved_filter(dialog: DialogView) -> Option<Seq<char>> {
    match dialog.mode {
        FilterMode::CustomInput => Some(dialog.text),
        FilterMode::PresetSelection => if 0 <= dialog.selected_preset < preset_count() {
            Some(preset_filter(dialog.selected_preset))
        } else {
            None
        },
    }
}

/// The dialog after a key press.
pub open spec fn after_key(dialog: DialogView, key: KeyCode) -> DialogView {
    match key {
        KeyCode::Esc => DialogView { is_open: false, ..dialog },
        KeyCode::Tab => DialogView { mode: toggled(dialog.mode), ..dialog },
        KeyCode::Enter => if resolved_filter(dialog) is Some {
            DialogView { is_open: false, ..dialog }
        } else {
            dialog
        },
        _ => match dialog.mode {
            FilterMode::CustomInput => after_custom_input(dialog, key),
            FilterMode::PresetSelection => after_preset_key(dialog, key),
        },
    }
}

/// What a key press hands to the router: the request to apply the resolved
/// filter on confirmation, else the acknowledgment that claims the key.
pub open spec fn key_reply(dialog: DialogView, key: KeyCode) -> ActionView {
    match (key, resolved_filter(dialog)) {
        (KeyCode::Enter, Some(text)) => ActionView::ApplyFilter(text),
        _ => ActionView::Handled,
    }
}

/// Whether the selected preset is one of the catalog.
pub open spec fn preset_in_catalog(dialog: DialogView) -> bool {
    0 <= dialog.selected_preset < preset_count()
}

/// Whatever key is pressed, a cursor on a character boundary stays on one
/// and the selected preset stays within the catalog.
pub proof fn lemma_keys_keep_cursor_and_preset_in_bounds(dialog: FilterDialog, key: KeyCode)
    requires
        dialog.wf(),
        preset_in_catalog(dialog@),
    ensures
        cursor_on_boundary(after_key(dialog@, key)),
        preset_in_catalog(after_key(dialog@, key)),
{
    if dialog.mode == FilterMode::CustomInput && is_editing_key(key) {
        lemma_editing_puts_cursor_on_boundary(dialog@, key);
    }
}

/// Confirming closes the dialog and asks to apply the resolved text;
/// cancelling closes it and asks for nothing but to have the key.
pub proof fn lemma_confirm_applies_and_cancel_does_not(dialog: FilterDialog)
    requires
        preset_in_catalog(dialog@),
    ensures
        !after_key(dialog@, KeyCode::Enter).is_open,
        key_reply(dialog@, KeyCode::Enter) == ActionView::ApplyFilter(
            resolved_filter(dialog@)->Some_0,
        ),
        !after_key(dialog@, KeyCode::Esc).is_open,
        key_reply(dialog@, KeyCode::Esc) == ActionView::Handled,
{
}

impl Default for FilterDialog {
    /// A closed dialog with empty text, in custom-text mode.
    fn default() -> (dialog: Self)
        ensures
            dialog@ == closed_dialog(),
            dialog.wf(),
    {
        proof {
            lemma_char_position_of_offset(Seq::<char>::empty(), 0);
            lemma_byte_offset_ends(Seq::<char>::empty());
        }
        FilterDialog {
            is_open: false,
            filter_text: String::new(),
            cursor_position: 0,
            selected_preset: 0,
            mode: FilterMode::CustomInput,
        }
    }
}

impl FilterDialog {
    /// Whether the cursor stands where a character of the text begins, or
    /// at its end.
    pub open spec fn wf(&self) -> bool {
        cursor_on_boundary(self@)
    }

    /// Tests [`Self::wf`].
    pub fn is_wf(&self) -> (ok: bool)
        ensures
            ok == self.wf(),
    {
        let k = char_position_at(self.filter_text.as_str(), self.cursor_position);
        byte_offset_at(self.filter_text.as_str(), k) == self.cursor_position
    }

    /// A closed dialog with empty text, in custom-text mode.
    pub fn new() -> (dialog: Self)
        ensures
            dialog@ == closed_dialog(),
            dialog.wf(),
    {
        FilterDialog::default()
    }

    /// Opens the dialog afresh: empty text, first preset, custom-text mode.
    pub fn open(&mut self)
        ensures
            final(self)@ == opened_dialog(),
            final(self).wf(),
    {
        proof {
            lemma_char_position_of_offset(Seq::<char>::empty(), 0);
            lemma_byte_offset_ends(Seq::<char>::empty());
        }
        self.is_open = true;
        self.filter_text = String::new();
        self.cursor_position = 0;
        self.selected_preset = 0;
        self.mode = FilterMode::CustomInput;
    }

    /// Closes the dialog and keeps everything else.
    pub fn close(&mut self)
        ensures
            final(self)@ == (DialogView { is_open: false, ..old(self)@ }),
    {
        self.is_open = false;
    }

    /// The preset catalog: display names and the filter texts they resolve
    /// to, in their fixed order.
    pub fn get_filter_presets() -> (presets: Vec<(&'static str, &'static str)>)
        ensures
            presets@.len() == preset_count(),
            forall|i: int|
                0 <= i < preset_count() ==> (#[trigger] presets@[i]).0@ == preset_name(i)
                    && presets@[i].1@ == preset_filter(i),
    {
        vec![
            ("TCP Traffic", "tcp"),
            ("UDP Traffic", "udp"),
            ("HTTP Traffic", "tcp port 80 or tcp port 8080"),
            ("HTTPS Traffic", "tcp port 443"),
            ("DNS Traffic", "udp port 53 or tcp port 53"),
            ("SSH Traffic", "tcp port 22"),
            ("FTP Traffic", "tcp port 21 or tcp port 20"),
            ("ICMP Traffic", "icmp"),
            ("ARP Traffic", "arp"),
            ("IPv6 Traffic", "ip6"),
            ("Broadcast", "broadcast"),
            ("Multicast", "multicast"),
            ("Large Packets", "greater 1000"),
            ("Small Packets", "less 100"),
            ("Clear Filter", ""),
        ]
    }

    /// The area of the dialog on a screen of `area`.
    pub fn popup_area(area: Area) -> (popup: Area)
        ensures
            popup == popup_of(area),
    {
        let width: u32 = area.width as u32 * 80 / 100;
        let height: u32 = area.height as u32 * 70 / 100;
        Area {
            x: ((area.width as u32 - width) / 2) as u16,
            y: ((area.height as u32 - height) / 2) as u16,
            width: width as u16,
            height: height as u16,
        }
    }

    /// The area inside the dialog's frame.
    pub fn inner_area(popup: Area) -> (inner: Area)
        ensures
            inner == inside_of(popup),
    {
        Area {
            x: if popup.x < u16::MAX {
                popup.x + 1
            } else {
                popup.x
            },
            y: if popup.y < u16::MAX {
                popup.y + 1
            } else {
                popup.y
            },
            width: if popup.width >= 2 {
                popup.width - 2
            } else {
                0
            },
            height: if popup.height >= 2 {
                popup.height - 2
            } else {
                0
            },
        }
    }

    /// Splits the inside of the dialog for custom-text mode: three lines for
    /// the input box, the rest for the examples.
    pub fn input_layout(inner: Area) -> (rows: Vec<Area>)
        ensures
            is_row_split(inner, 2, rows@),
    {
        let rules = vec![RowRule::Length(3), RowRule::Min(0)];
        split_rows(inner, &rules)
    }

    /// The area of the help line below the catalog.
    pub fn footer_area(inner: Area) -> (footer: Area)
        ensures
            footer == footer_of(inner),
    {
        let drop: u32 = if inner.height >= 3 {
            (inner.height - 3) as u32
        } else {
            0
        };
        let top: u32 = inner.y as u32 + drop;
        Area {
            x: inner.x,
            y: if top <= u16::MAX as u32 {
                top as u16
            } else {
                u16::MAX
            },
            width: inner.width,
            height: 3,
        }
    }

    /// The screen cell at which the text cursor is shown, if it is shown.
    pub fn cursor_cell(&self, input: Area) -> (cell: Option<(u16, u16)>)
        ensures
            cell == cursor_cell_of(self@, input),
    {
        match self.mode {
            FilterMode::CustomInput => {
                let before = char_position_at(self.filter_text.as_str(), self.cursor_position);
                let right: u64 = input.x as u64 + input.width as u64;
                let column: u64 = input.x as u64 + 1;
                if right >= 1 && before as u64 <= u16::MAX as u64 && column + (before as u64)
                    < right - 1 && input.y < u16::MAX {
                    Some(((column + before as u64) as u16, input.y + 1))
                } else {
                    None
                }
            },
            FilterMode::PresetSelection => None,
        }
    }

    /// The catalog as it is shown: one row per preset, in order.
    pub fn preset_rows(&self) -> (rows: Vec<PresetRow>)
        ensures
            rows@.len() == preset_count(),
            forall|i: int|
                0 <= i < preset_count() ==> (#[trigger] rows@[i]).name@ == pad_right(
                    preset_name(i),
                    20,
                ) && rows@[i].note@ == preset_note(i) && rows@[i].selected == (i
                    == self.selected_preset),
    {
        let presets = Self::get_filter_presets();
        let mut rows: Vec<PresetRow> = Vec::new();
        let mut i: usize = 0;
        while i < presets.len()
            invariant
                i <= presets@.len() == preset_count(),
                rows@.len() == i,
                forall|k: int|
                    0 <= k < preset_count() ==> (#[trigger] presets@[k]).0@ == preset_name(k)
                        && presets@[k].1@ == preset_filter(k),
                forall|k: int|
                    0 <= k < i ==> (#[trigger] rows@[k]).name@ == pad_right(preset_name(k), 20)
                        && rows@[k].note@ == preset_note(k) && rows@[k].selected == (k
                        == self.selected_preset),
            decreases presets@.len() - i,
        {
            let (name, filter) = presets[i];
            let note = if filter.is_empty() {
                String::from_str("(removes current filter)")
            } else {
                let mut note = String::from_str("- ");
                note.append(filter);
                note
            };
            rows.push(PresetRow { name: padded(name, 20), note, selected: i == self.selected_preset });
            i += 1;
        }
        rows
    }

    /// Closes the dialog and hands out the request to apply `filter`.
    pub fn apply_filter(&mut self, filter: String) -> (request: Action)
        ensures
            final(self)@ == (DialogView { is_open: false, ..old(self)@ }),
            request@ == ActionView::ApplyFilter(filter@),
    {
        self.close();
        Action::ApplyFilter(filter)
    }

    /// Edits the custom text.
    pub fn handle_custom_input(&mut self, key: KeyEvent) -> (reply: Option<Action>)
        ensures
            final(self)@ == after_custom_input(old(self)@, key.code),
            reply_view(reply) == Some(ActionView::Handled),
            is_editing_key(key.code) || old(self).wf() ==> final(self).wf(),
    {
        let k = char_position_at(self.filter_text.as_str(), self.cursor_position);
        let length = char_count(&self.filter_text);
        proof {
            lemma_byte_offset_ends(self.filter_text@);
            if is_editing_key(key.code) {
                lemma_editing_puts_cursor_on_boundary(self@, key.code);
            }
        }
        match key.code {
            KeyCode::Char(c) => {
                let longer = inserted(self.filter_text.as_str(), k, c);
                let grown = char_count(&longer);
                if k < grown {
                    self.cursor_position = byte_offset_at(longer.as_str(), k + 1);
                }
                self.filter_text = longer;
            },
            KeyCode::Backspace => {
                if k > 0 {
                    self.cursor_position = byte_offset_at(self.filter_text.as_str(), k - 1);
                    self.filter_text = removed(self.filter_text.as_str(), k - 1);
                } else {
                    self.cursor_position = 0;
                }
            },
            KeyCode::Delete => {
                if k < length {
                    self.cursor_position = byte_offset_at(self.filter_text.as_str(), k);
                    self.filter_text = removed(self.filter_text.as_str(), k);
                } else {
                    self.cursor_position = byte_length(self.filter_text.as_str());
                }
            },
            KeyCode::Left => {
                let to = if k > 0 {
                    k - 1
                } else {
                    0
                };
                self.cursor_position = byte_offset_at(self.filter_text.as_str(), to);
            },
            KeyCode::Right => {
                let to = if k < length {
                    k + 1
                } else {
                    k
                };
                self.cursor_position = byte_offset_at(self.filter_text.as_str(), to);
            },
            KeyCode::Home => {
                self.cursor_position = 0;
            },
            KeyCode::End => {
                self.cursor_position = byte_length(self.filter_text.as_str());
            },
            _ => {},
        }
        Some(Action::Handled)
    }

    /// Moves the preset selection.
    pub fn handle_preset_sel(&mut self, key: KeyEvent) -> (reply: Option<Action>)
        ensures
            final(self)@ == after_preset_key(old(self)@, key.code),
            reply_view(reply) == Some(ActionView::Handled),
            final(self).wf() == old(self).wf(),
    {
        let count: usize = 15;
        match key.code {
            KeyCode::Up => {
                if self.selected_preset > 0 {
                    self.selected_preset -= 1;
                }
            },
            KeyCode::Down => {
                if self.selected_preset < count - 1 {
                    self.selected_preset += 1;
                }
            },
            KeyCode::Home => {
                self.selected_preset = 0;
            },
            KeyCode::End => {
                self.selected_preset = count - 1;
            },
            _ => {},
        }
        Some(Action::Handled)
    }

    /// Reacts to a key press while the dialog has the input focus. Escape
    /// cancels, Tab switches the mode, Enter confirms: the dialog closes and
    /// the reply asks to apply the resolved filter. Every other key goes to
    /// the current mode. The reply is never empty: the dialog claims each key.
    pub fn handle_key_events(&mut self, key: KeyEvent) -> (reply: Option<Action>)
        ensures
            final(self)@ == after_key(old(self)@, key.code),
            reply_view(reply) == Some(key_reply(old(self)@, key.code)),
            old(self).wf() ==> final(self).wf(),
    {
        match key.code {
            KeyCode::Esc => {
                self.close();
                Some(Action::Handled)
            },
            KeyCode::Tab => {
                self.mode =
                match self.mode {
                    FilterMode::CustomInput => FilterMode::PresetSelection,
                    FilterMode::PresetSelection => FilterMode::CustomInput,
                };
                Some(Action::Handled)
            },
            KeyCode::Enter => {
                match self.mode {
                    FilterMode::CustomInput => {
                        let filter = self.filter_text.clone();
                        Some(self.apply_filter(filter))
                    },
                    FilterMode::PresetSelection => {
                        let presets = Self::get_filter_presets();
                        if self.selected_preset < presets.len() {
                            let filter = String::from_str(presets[self.selected_preset].1);
                            Some(self.apply_filter(filter))
                        } else {
                            Some(Action::Handled)
                        }
                    },
                }
            },
            _ => {
                match self.mode {
                    FilterMode::CustomInput => self.handle_custom_input(key),
                    FilterMode::PresetSelection => self.handle_preset_sel(key),
                }
            },
        }
    }

    /// Hands key presses to [`Self::handle_key_events`] and lets every other
    /// event pass.
    pub fn handle_events(&mut self, event: Event) -> (reply: Option<Action>)
        ensures
            event matches Event::Key(key) ==> final(self)@ == after_key(old(self)@, key.code)
                && reply_view(reply) == Some(key_reply(old(self)@, key.code)),
            !(event is Key) ==> final(self)@ == old(self)@ && reply is None,
            old(self).wf() ==> final(self).wf(),
    {
        if let Event::Key(key) = event {
            self.handle_key_events(key)
        } else {
            None
        }
    }

    /// Any other message leaves the dialog as it is.
    pub fn update(&mut self, action: Action) -> (reply: Option<Action>)
        ensures
            *final(self) == *old(self),
            reply is None,
    {
        None
    }
}

} // verus!
