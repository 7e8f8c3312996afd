//! The foreground state: the two dataset snapshots, the navigation cursor,
//! the focus and input mode, and the edit session. Each key event is a
//! transition from one state to the next, together with the remote command
//! that the caller is to carry out. The transitions are stated over
//! [`AppView`].
use vstd::prelude::*;
use crate::editor::{EditorView, LineEditor};
use crate::record::{dex_rows, mm_rows, DexVolumeTask, MmVolumeTask, FIELD_COUNT};
use crate::validation::{
    column_name, column_names, is_numeric, judge, other_kind, rule_for_name, rule_of,
    decimal_parses, verdict_of, ColumnRule, ConfirmAction, DatasetKind, Verdict,
};

verus! {

/// Number of colour palettes that the grid cycles through.
pub const PALETTE_COUNT: usize = 4;

/// Index of the last header control: the search box is 0, the dataset toggle 1.
pub const HEADER_MAX_INDEX: u8 = 1;

/// Which region receives navigation keys.
#[derive(Clone, Copy, Debug, PartialEq, Eq, Structural)]
pub enum FocusArea {
    /// The header controls: search box and dataset toggle.
    Header,
    /// The grid of rows.
    Grid,
}

#[derive(Clone, Copy, Debug, PartialEq, Eq, Structural)]
pub enum InputMode {
    Normal,
    Editing,
}

/// What an edit session writes to.
#[derive(Clone, Copy, Debug, PartialEq, Eq, Structural)]
pub enum EditTarget {
    Cell,
    SearchBox,
}

/// A key event, as the coordinator distinguishes them.
#[derive(Clone, Copy, Debug, PartialEq, Eq, Structural)]
pub enum Key {
    Tab,
    Enter,
    Esc,
    Backspace,
    Up,
    Down,
    Left,
    Right,
    ShiftLeft,
    ShiftRight,
    Char(char),
    Other,
}

/// Remote work that a transition asks for. Each one but `Nothing` and `Quit`
/// ends with a fetch whose rows the caller hands back through
/// `refresh_mm_data` or `refresh_dex_data`.
#[derive(Clone, Debug, PartialEq, Eq)]
pub enum Command {
    Nothing,
    /// Leave the session.
    Quit,
    /// Make `filter` the shared filter, then fetch `kind` with it.
    Refilter { kind: DatasetKind, filter: String },
    /// Write `value` into `column` of the row of `kind` whose `key_name` is
    /// `key_value`; then fetch `kind` with `filter`, whether or not the write
    /// succeeded, so that the grid never stays stale after a failed write.
    UpdateField {
        kind: DatasetKind,
        key_name: String,
        key_value: String,
        column: String,
        value: String,
        filter: String,
    },
    /// Duplicate the secondary row `id`; then fetch the secondary dataset with `filter`.
    CopyRow { id: String, filter: String },
    /// Delete the secondary row `id`; then fetch the secondary dataset with `filter`.
    DeleteRow { id: String, filter: String },
}

pub enum CommandView {
    Nothing,
    Quit,
    Refilter { kind: DatasetKind, filter: Seq<char> },
    UpdateField {
        kind: DatasetKind,
        key_name: Seq<char>,
        key_value: Seq<char>,
        column: Seq<char>,
        value: Seq<char>,
        filter: Seq<char>,
    },
    CopyRow { id: Seq<char>, filter: Seq<char> },
    DeleteRow { id: Seq<char>, filter: Seq<char> },
}

impl View for Command {
    type V = CommandView;

    open spec fn view(&self) -> CommandView {
        match self {
            Command::Nothing => CommandView::Nothing,
            Command::Quit => CommandView::Quit,
            Command::Refilter { kind, filter } => CommandView::Refilter {
                kind: *kind,
                filter: filter@,
            },
            Command::UpdateField { kind, key_name, key_value, column, value, filter } =>
                CommandView::UpdateField {
                kind: *kind,
                key_name: key_name@,
                key_value: key_value@,
                column: column@,
                value: value@,
                filter: filter@,
            },
            Command::CopyRow { id, filter } => CommandView::CopyRow { id: id@, filter: filter@ },
            Command::DeleteRow { id, filter } => CommandView::DeleteRow {
                id: id@,
                filter: filter@,
            },
        }
    }
}

/// An optional index as an optional integer.
pub open spec fn opt_int(o: Option<usize>) -> Option<int> {
    match o {
        Some(i) => Some(i as int),
        None => None,
    }
}

/// The row a cursor lands on when the active dataset becomes `len` rows
/// long: none for no rows, the first row when there was none, else the old
/// row held within the new bounds.
pub open spec fn clamp_selection(sel: Option<int>, len: int) -> Option<int> {
    if len <= 0 {
        None
    } else {
        match sel {
            None => Some(0),
            Some(i) => if i >= len {
                Some(len - 1)
            } else {
                Some(i)
            },
        }
    }
}

/// The cell under the cursor: the row's key column and value, and the
/// column's name and value.
#[derive(Clone, Debug, PartialEq, Eq)]
pub struct SelectedCell {
    pub key_name: String,
    pub key_value: String,
    pub cell_name: String,
    pub cell_value: String,
}

/// The foreground state, as contracts speak of it. Rows are record views.
pub struct AppView {
    pub kind: DatasetKind,
    pub mm_rows: Seq<Seq<Seq<char>>>,
    pub dex_rows: Seq<Seq<Seq<char>>>,
    pub selected_row: Option<int>,
    pub selected_column: int,
    pub focus: FocusArea,
    pub mode: InputMode,
    pub target: EditTarget,
    pub editor: EditorView,
    pub key_name: Seq<char>,
    pub key_value: Seq<char>,
    pub column_name: Seq<char>,
    pub rule: ColumnRule,
    pub filter: Seq<char>,
    pub header_index: int,
    pub color_index: int,
}

impl AppView {
    pub open spec fn rows_of(self, kind: DatasetKind) -> Seq<Seq<Seq<char>>> {
        match kind {
            DatasetKind::Primary => self.mm_rows,
            DatasetKind::Secondary => self.dex_rows,
        }
    }

    pub open spec fn active_len(self) -> int {
        self.rows_of(self.kind).len() as int
    }

    pub open spec fn wf(self) -> bool {
        &&& match self.selected_row {
            None => self.active_len() == 0,
            Some(i) => 0 <= i < self.active_len(),
        }
        &&& 0 <= self.selected_column < FIELD_COUNT
        &&& 0 <= self.header_index <= HEADER_MAX_INDEX
        &&& 0 <= self.color_index < PALETTE_COUNT
        &&& self.editor.wf()
    }

    /// The dataset of `kind` replaced by `rows`; the cursor is held within
    /// the new bounds when that dataset is the active one.
    pub open spec fn replaced(self, kind: DatasetKind, rows: Seq<Seq<Seq<char>>>) -> AppView {
        let next = match kind {
            DatasetKind::Primary => AppView { mm_rows: rows, ..self },
            DatasetKind::Secondary => AppView { dex_rows: rows, ..self },
        };
        if kind == self.kind {
            AppView { selected_row: clamp_selection(self.selected_row, rows.len() as int), ..next }
        } else {
            next
        }
    }

    pub open spec fn next_row(self) -> AppView {
        match self.selected_row {
            None => self,
            Some(i) => AppView {
                selected_row: Some(if i + 1 >= self.active_len() { 0 } else { i + 1 }),
                ..self
            },
        }
    }

    pub open spec fn previous_row(self) -> AppView {
        match self.selected_row {
            None => self,
            Some(i) => AppView {
                selected_row: Some(if i == 0 { self.active_len() - 1 } else { i - 1 }),
                ..self
            },
        }
    }

    pub open spec fn next_column(self) -> AppView {
        AppView {
            selected_column: if self.selected_column + 1 < FIELD_COUNT {
                self.selected_column + 1
            } else {
                self.selected_column
            },
            ..self
        }
    }

    pub open spec fn previous_column(self) -> AppView {
        AppView {
            selected_column: if self.selected_column > 0 {
                self.selected_column - 1
            } else {
                self.selected_column
            },
            ..self
        }
    }

    pub open spec fn next_header(self) -> AppView {
        AppView {
            header_index: if self.header_index < HEADER_MAX_INDEX {
                self.header_index + 1
            } else {
                self.header_index
            },
            ..self
        }
    }

    pub open spec fn previous_header(self) -> AppView {
        AppView {
            header_index: if self.header_index > 0 {
                self.header_index - 1
            } else {
                self.header_index
            },
            ..self
        }
    }

    pub open spec fn next_color(self) -> AppView {
        AppView { color_index: (self.color_index + 1) % (PALETTE_COUNT as int), ..self }
    }

    pub open spec fn previous_color(self) -> AppView {
        AppView {
            color_index: (self.color_index + PALETTE_COUNT - 1) % (PALETTE_COUNT as int),
            ..self
        }
    }

    pub open spec fn toggled_focus(self) -> AppView {
        AppView {
            focus: match self.focus {
                FocusArea::Header => FocusArea::Grid,
                FocusArea::Grid => FocusArea::Header,
            },
            ..self
        }
    }

    /// Enter on the grid: opens an editor on the selected cell, unless there
    /// is none or its column is immutable. A confirmation-only column gets an
    /// empty buffer that takes no typing.
    pub open spec fn opened_cell(self) -> AppView {
        match self.selected_row {
            None => self,
            Some(row) => {
                let name = column_names(self.kind)[self.selected_column];
                let rule = rule_of(name);
                if rule == ColumnRule::Immutable {
                    self
                } else {
                    let record = self.rows_of(self.kind)[row];
                    AppView {
                        mode: InputMode::Editing,
                        target: EditTarget::Cell,
                        editor: match rule {
                            ColumnRule::ActionConfirm(_) => EditorView::empty(),
                            _ => EditorView { text: record[self.selected_column], cursor: 0 },
                        },
                        key_name: "id"@,
                        key_value: record[0],
                        column_name: name,
                        rule,
                        ..self
                    }
                }
            },
        }
    }

    /// Enter on the header: the search box opens an editor on the filter;
    /// the dataset toggle switches the active kind, clears the filter, moves
    /// the focus to the grid and asks for the new kind with no filter.
    pub open spec fn opened_header(self) -> (AppView, CommandView) {
        if self.header_index == 0 {
            (
                AppView {
                    mode: InputMode::Editing,
                    target: EditTarget::SearchBox,
                    editor: EditorView { text: self.filter, cursor: 0 },
                    rule: ColumnRule::FreeText,
                    ..self
                },
                CommandView::Nothing,
            )
        } else {
            let kind = other_kind(self.kind);
            (
                AppView {
                    kind,
                    filter: Seq::empty(),
                    focus: FocusArea::Grid,
                    selected_row: clamp_selection(
                        self.selected_row,
                        self.rows_of(kind).len() as int,
                    ),
                    ..self
                },
                CommandView::Refilter { kind, filter: Seq::empty() },
            )
        }
    }

    pub open spec fn with_editor(self, editor: EditorView) -> AppView {
        AppView { editor, ..self }
    }

    /// A typed character: inserted at the cursor, except in a
    /// confirmation-only session.
    pub open spec fn typed(self, c: char) -> AppView {
        if self.target == EditTarget::Cell && self.rule is ActionConfirm {
            self
        } else {
            self.with_editor(self.editor.inserted(c))
        }
    }

    /// The session discarded: normal mode, empty buffer.
    pub open spec fn closed(self) -> AppView {
        AppView { mode: InputMode::Normal, editor: EditorView::empty(), ..self }
    }

    /// Enter while editing, given whether the buffer reads as a decimal
    /// number. The search box makes its buffer the filter and asks for the
    /// active kind with it. A cell goes by its column's rule: a rejected
    /// buffer leaves everything as it was; otherwise the session closes and
    /// the write, copy or delete is asked for.
    pub open spec fn submitted(self, numeric: bool) -> (AppView, CommandView) {
        if self.mode != InputMode::Editing {
            (self, CommandView::Nothing)
        } else if self.target == EditTarget::SearchBox {
            let filter = self.editor.text;
            (
                AppView {
                    filter,
                    focus: FocusArea::Grid,
                    selected_row: if self.active_len() > 0 { Some(0) } else { None },
                    ..self.closed()
                },
                CommandView::Refilter { kind: self.kind, filter },
            )
        } else {
            match verdict_of(self.rule, numeric) {
                Verdict::Reject => (self, CommandView::Nothing),
                Verdict::Commit => (
                    self.closed(),
                    CommandView::UpdateField {
                        kind: self.kind,
                        key_name: self.key_name,
                        key_value: self.key_value,
                        column: self.column_name,
                        value: self.editor.text,
                        filter: self.filter,
                    },
                ),
                Verdict::Confirm(ConfirmAction::Copy) => (
                    self.closed(),
                    CommandView::CopyRow { id: self.key_value, filter: self.filter },
                ),
                Verdict::Confirm(ConfirmAction::Delete) => (
                    self.closed(),
                    CommandView::DeleteRow { id: self.key_value, filter: self.filter },
                ),
            }
        }
    }

    /// A key event, given whether the buffer reads as a decimal number.
    pub open spec fn on_key(self, key: Key, numeric: bool) -> (AppView, CommandView) {
        match self.mode {
            InputMode::Normal => match key {
                Key::Tab => (self.toggled_focus(), CommandView::Nothing),
                Key::Char(c) => if c == 'q' && self.focus == FocusArea::Grid {
                    (self, CommandView::Quit)
                } else {
                    (self, CommandView::Nothing)
                },
                Key::Down => if self.focus == FocusArea::Grid {
                    (self.next_row(), CommandView::Nothing)
                } else {
                    (self, CommandView::Nothing)
                },
                Key::Up => if self.focus == FocusArea::Grid {
                    (self.previous_row(), CommandView::Nothing)
                } else {
                    (self, CommandView::Nothing)
                },
                Key::ShiftRight => (self.next_color(), CommandView::Nothing),
                Key::ShiftLeft => (self.previous_color(), CommandView::Nothing),
                Key::Right => if self.focus == FocusArea::Grid {
                    (self.next_column(), CommandView::Nothing)
                } else {
                    (self.next_header(), CommandView::Nothing)
                },
                Key::Left => if self.focus == FocusArea::Grid {
                    (self.previous_column(), CommandView::Nothing)
                } else {
                    (self.previous_header(), CommandView::Nothing)
                },
                Key::Enter => if self.focus == FocusArea::Grid {
                    (self.opened_cell(), CommandView::Nothing)
                } else {
                    self.opened_header()
                },
                _ => (self, CommandView::Nothing),
            },
            InputMode::Editing => match key {
                Key::Enter => self.submitted(numeric),
                Key::Char(c) => (self.typed(c), CommandView::Nothing),
                Key::Backspace => (self.with_editor(self.editor.deleted()), CommandView::Nothing),
                Key::Left | Key::ShiftLeft => (
                    self.with_editor(self.editor.moved_left()),
                    CommandView::Nothing,
                ),
                Key::Right | Key::ShiftRight => (
                    self.with_editor(self.editor.moved_right()),
                    CommandView::Nothing,
                ),
                Key::Esc => (self.closed(), CommandView::Nothing),
                _ => (self, CommandView::Nothing),
            },
        }
    }
}

/// The state at start-up: primary dataset active, cursor on the first row
/// and column, grid focused, nothing being edited, no filter.
pub open spec fn initial_view(mm: Seq<Seq<Seq<char>>>, dex: Seq<Seq<Seq<char>>>) -> AppView {
    AppView {
        kind: DatasetKind::Primary,
        mm_rows: mm,
        dex_rows: dex,
        selected_row: if mm.len() > 0 { Some(0) } else { None },
        selected_column: 0,
        focus: FocusArea::Grid,
        mode: InputMode::Normal,
        target: EditTarget::Cell,
        editor: EditorView::empty(),
        key_name: Seq::empty(),
        key_value: Seq::empty(),
        column_name: Seq::empty(),
        rule: ColumnRule::FreeText,
        filter: Seq::empty(),
        header_index: 0,
        color_index: 0,
    }
}

fn clamp_row(sel: Option<usize>, len: usize) -> (r: Option<usize>)
    ensures
        opt_int(r) == clamp_selection(opt_int(sel), len as int),
{
    if len == 0 {
        None
    } else {
        match sel {
            None => Some(0),
            Some(i) => if i >= len {
                Some(len - 1)
            } else {
                Some(i)
            },
        }
    }
}

/// The foreground state. Build it with [`App::new`]; every method keeps
/// [`App::wf`], so a caller that only goes through them always meets it.
pub struct App {
    mm_items: Vec<MmVolumeTask>,
    dex_items: Vec<DexVolumeTask>,
    working_data: DatasetKind,
    selected_row: Option<usize>,
    selected_column: usize,
    focus_area: FocusArea,
    input_mode: InputMode,
    edit_target: EditTarget,
    editor: LineEditor,
    editing_key: String,
    editing_key_value: String,
    editing_column: String,
    editing_rule: ColumnRule,
    search_word: String,
    header_item_selected_index: u8,
    color_index: usize,
}

impl View for App {
    type V = AppView;

    closed spec fn view(&self) -> AppView {
        AppView {
            kind: self.working_data,
            mm_rows: mm_rows(self.mm_items@),
            dex_rows: dex_rows(self.dex_items@),
            selected_row: opt_int(self.selected_row),
            selected_column: self.selected_column as int,
            focus: self.focus_area,
            mode: self.input_mode,
            target: self.edit_target,
            editor: self.editor@,
            key_name: self.editing_key@,
            key_value: self.editing_key_value@,
            column_name: self.editing_column@,
            rule: self.editing_rule,
            filter: self.search_word@,
            header_index: self.header_item_selected_index as int,
            color_index: self.color_index as int,
        }
    }
}

impl App {
    pub open spec fn wf(&self) -> bool {
        self@.wf()
    }

    /// A state over the snapshots `mm` and `dex`.
    pub fn new(mm: Vec<MmVolumeTask>, dex: Vec<DexVolumeTask>) -> (r: App)
        ensures
            r@ == initial_view(mm_rows(mm@), dex_rows(dex@)),
            r.wf(),
    {
        let selected_row = if mm.len() > 0 {
            Some(0)
        } else {
            None
        };
        App {
            mm_items: mm,
            dex_items: dex,
            working_data: DatasetKind::Primary,
            selected_row,
            selected_column: 0,
            focus_area: FocusArea::Grid,
            input_mode: InputMode::Normal,
            edit_target: EditTarget::Cell,
            editor: LineEditor::new(),
            editing_key: String::new(),
            editing_key_value: String::new(),
            editing_column: String::new(),
            editing_rule: ColumnRule::FreeText,
            search_word: String::new(),
            header_item_selected_index: 0,
            color_index: 0,
        }
    }

    fn active_len(&self) -> (r: usize)
        ensures
            r == self@.active_len(),
    {
        match self.working_data {
            DatasetKind::Primary => self.mm_items.len(),
            DatasetKind::Secondary => self.dex_items.len(),
        }
    }

    pub fn kind(&self) -> (r: DatasetKind)
        ensures
            r == self@.kind,
    {
        self.working_data
    }

    pub fn mm_items(&self) -> (r: &Vec<MmVolumeTask>)
        ensures
            mm_rows(r@) == self@.mm_rows,
    {
        &self.mm_items
    }

    pub fn dex_items(&self) -> (r: &Vec<DexVolumeTask>)
        ensures
            dex_rows(r@) == self@.dex_rows,
    {
        &self.dex_items
    }

    pub fn selected_row(&self) -> (r: Option<usize>)
        ensures
            opt_int(r) == self@.selected_row,
    {
        self.selected_row
    }

    pub fn selected_column(&self) -> (r: usize)
        ensures
            r == self@.selected_column,
    {
        self.selected_column
    }

    pub fn focus(&self) -> (r: FocusArea)
        ensures
            r == self@.focus,
    {
        self.focus_area
    }

    pub fn mode(&self) -> (r: InputMode)
        ensures
            r == self@.mode,
    {
        self.input_mode
    }

    pub fn edit_target(&self) -> (r: EditTarget)
        ensures
            r == self@.target,
    {
        self.edit_target
    }

    /// The edit buffer.
    pub fn input(&self) -> (r: &String)
        ensures
            r@ == self@.editor.text,
    {
        self.editor.text()
    }

    /// The character index of the edit cursor.
    pub fn character_index(&self) -> (r: usize)
        ensures
            r == self@.editor.cursor,
    {
        self.editor.cursor()
    }

    /// The name of the column being edited.
    pub fn editing_column(&self) -> (r: &String)
        ensures
            r@ == self@.column_name,
    {
        &self.editing_column
    }

    /// The filter of the active dataset.
    pub fn search_word(&self) -> (r: &String)
        ensures
            r@ == self@.filter,
    {
        &self.search_word
    }

    pub fn header_item_selected_index(&self) -> (r: u8)
        ensures
            r == self@.header_index,
    {
        self.header_item_selected_index
    }

    pub fn color_index(&self) -> (r: usize)
        ensures
            r == self@.color_index,
    {
        self.color_index
    }

    /// Replaces the primary dataset by a fresh snapshot.
    pub fn refresh_mm_data(&mut self, data: Vec<MmVolumeTask>)
        requires
            old(self).wf(),
        ensures
            final(self)@ == old(self)@.replaced(DatasetKind::Primary, mm_rows(data@)),
            final(self).wf(),
    {
        self.mm_items = data;
        if self.working_data == DatasetKind::Primary {
            self.selected_row = clamp_row(self.selected_row, self.mm_items.len());
        }
    }

    /// Replaces the secondary dataset by a fresh snapshot.
    pub fn refresh_dex_data(&mut self, data: Vec<DexVolumeTask>)
        requires
            old(self).wf(),
        ensures
            final(self)@ == old(self)@.replaced(DatasetKind::Secondary, dex_rows(data@)),
            final(self).wf(),
    {
        self.dex_items = data;
        if self.working_data == DatasetKind::Secondary {
            self.selected_row = clamp_row(self.selected_row, self.dex_items.len());
        }
    }

    /// Selects the next row, from the last back to the first.
    pub fn next_row(&mut self)
        requires
            old(self).wf(),
        ensures
            final(self)@ == old(self)@.next_row(),
            final(self).wf(),
    {
        if let Some(i) = self.selected_row {
            let len = self.active_len();
            let next = if i >= len - 1 {
                0
            } else {
                i + 1
            };
            self.selected_row = Some(next);
        }
    }

    /// Selects the previous row, from the first round to the last.
    pub fn previous_row(&mut self)
        requires
            old(self).wf(),
        ensures
            final(self)@ == old(self)@.previous_row(),
            final(self).wf(),
    {
        if let Some(i) = self.selected_row {
            let len = self.active_len();
            let prev = if i == 0 {
                len - 1
            } else {
                i - 1
            };
            self.selected_row = Some(prev);
        }
    }

    /// Selects the column to the right, stopping at the last.
    pub fn next_column(&mut self)
        requires
            old(self).wf(),
        ensures
            final(self)@ == old(self)@.next_column(),
            final(self).wf(),
    {
        if self.selected_column + 1 < FIELD_COUNT {
            self.selected_column = self.selected_column + 1;
        }
    }

    /// Selects the column to the left, stopping at the first.
    pub fn previous_column(&mut self)
        requires
            old(self).wf(),
        ensures
            final(self)@ == old(self)@.previous_column(),
            final(self).wf(),
    {
        if self.selected_column > 0 {
            self.selected_column = self.selected_column - 1;
        }
    }

    /// Moves to the next header control, stopping at the last.
    pub fn next_column_header(&mut self)
        requires
            old(self).wf(),
        ensures
            final(self)@ == old(self)@.next_header(),
            final(self).wf(),
    {
        if self.header_item_selected_index < HEADER_MAX_INDEX {
            self.header_item_selected_index = self.header_item_selected_index + 1;
        }
    }

    /// Moves to the previous header control, stopping at the first.
    pub fn previous_column_header(&mut self)
        requires
            old(self).wf(),
        ensures
            final(self)@ == old(self)@.previous_header(),
            final(self).wf(),
    {
        if self.header_item_selected_index > 0 {
            self.header_item_selected_index = self.header_item_selected_index - 1;
        }
    }

    /// Cycles forward through the colour palettes.
    pub fn next_color(&mut self)
        requires
            old(self).wf(),
        ensures
            final(self)@ == old(self)@.next_color(),
            final(self).wf(),
    {
        self.color_index = (self.color_index + 1) % PALETTE_COUNT;
    }

    /// Cycles backward through the colour palettes.
    pub fn previous_color(&mut self)
        requires
            old(self).wf(),
        ensures
            final(self)@ == old(self)@.previous_color(),
            final(self).wf(),
    {
        let count = PALETTE_COUNT;
        self.color_index = (self.color_index + count - 1) % count;
    }

    /// Moves the focus between the header controls and the grid.
    pub fn toggle_focus(&mut self)
        requires
            old(self).wf(),
        ensures
            final(self)@ == old(self)@.toggled_focus(),
            final(self).wf(),
    {
        self.focus_area = match self.focus_area {
            FocusArea::Header => FocusArea::Grid,
            FocusArea::Grid => FocusArea::Header,
        };
    }

    /// The cell under the cursor, if a row is selected.
    pub fn get_current_cell_content(&self) -> (r: Option<SelectedCell>)
        requires
            self.wf(),
        ensures
            r is None <==> self@.selected_row is None,
            r matches Some(cell) ==> ({
                let record = self@.rows_of(self@.kind)[self@.selected_row->0];
                &&& cell.key_name@ == "id"@
                &&& cell.key_value@ == record[0]
                &&& cell.cell_name@ == column_names(self@.kind)[self@.selected_column]
                &&& cell.cell_value@ == record[self@.selected_column]
            }),
    {
        let row = match self.selected_row {
            Some(row) => row,
            None => {
                return None;
            },
        };
        let col = self.selected_column;
        let (key_value, cell_value) = match self.working_data {
            DatasetKind::Primary => {
                let record = &self.mm_items[row];
                (record.id.clone(), record.field(col).clone())
            },
            DatasetKind::Secondary => {
                let record = &self.dex_items[row];
                (record.id.clone(), record.field(col).clone())
            },
        };
        Some(
            SelectedCell {
                key_name: String::from_str("id"),
                key_value,
                cell_name: String::from_str(column_name(self.working_data, col)),
                cell_value,
            },
        )
    }

    /// Enter on the grid: opens an editor on the selected cell (see
    /// [`AppView::opened_cell`]).
    pub fn edit_cell(&mut self)
        requires
            old(self).wf(),
        ensures
            final(self)@ == old(self)@.opened_cell(),
            final(self).wf(),
    {
        let cell = match self.get_current_cell_content() {
            Some(cell) => cell,
            None => {
                return;
            },
        };
        let rule = rule_for_name(cell.cell_name.as_str());
        if rule == ColumnRule::Immutable {
            return;
        }
        self.editor = match rule {
            ColumnRule::ActionConfirm(_) => LineEditor::new(),
            _ => LineEditor::with_text(cell.cell_value),
        };
        self.editing_key = cell.key_name;
        self.editing_key_value = cell.key_value;
        self.editing_column = cell.cell_name;
        self.editing_rule = rule;
        self.edit_target = EditTarget::Cell;
        self.input_mode = InputMode::Editing;
    }

    /// Enter on the header (see [`AppView::opened_header`]).
    pub fn edit_search(&mut self) -> (r: Command)
        requires
            old(self).wf(),
        ensures
            (final(self)@, r@) == old(self)@.opened_header(),
            final(self).wf(),
    {
        if self.header_item_selected_index == 0 {
            self.editor = LineEditor::with_text(self.search_word.clone());
            self.editing_rule = ColumnRule::FreeText;
            self.edit_target = EditTarget::SearchBox;
            self.input_mode = InputMode::Editing;
            Command::Nothing
        } else {
            let kind = match self.working_data {
                DatasetKind::Primary => DatasetKind::Secondary,
                DatasetKind::Secondary => DatasetKind::Primary,
            };
            self.working_data = kind;
            self.search_word = String::new();
            self.focus_area = FocusArea::Grid;
            let len = self.active_len();
            self.selected_row = clamp_row(self.selected_row, len);
            Command::Refilter { kind, filter: String::new() }
        }
    }

    /// Inserts a typed character at the editor's cursor (see [`AppView::typed`]).
    pub fn enter_char(&mut self, c: char)
        requires
            old(self).wf(),
        ensures
            final(self)@ == old(self)@.typed(c),
            final(self).wf(),
    {
        if self.edit_target == EditTarget::Cell && matches!(self.editing_rule, ColumnRule::ActionConfirm(_)) {
            return;
        }
        self.editor.enter_char(c);
    }

    /// Backspace: deletes the character left of the editor's cursor.
    pub fn delete_char(&mut self)
        requires
            old(self).wf(),
        ensures
            final(self)@ == old(self)@.with_editor(old(self)@.editor.deleted()),
            final(self).wf(),
    {
        self.editor.delete_char();
    }

    pub fn move_cursor_left(&mut self)
        requires
            old(self).wf(),
        ensures
            final(self)@ == old(self)@.with_editor(old(self)@.editor.moved_left()),
            final(self).wf(),
    {
        self.editor.move_cursor_left();
    }

    pub fn move_cursor_right(&mut self)
        requires
            old(self).wf(),
        ensures
            final(self)@ == old(self)@.with_editor(old(self)@.editor.moved_right()),
            final(self).wf(),
    {
        self.editor.move_cursor_right();
    }

    /// Escape: discards the session with no other effect.
    pub fn cancel_edit(&mut self)
        requires
            old(self).wf(),
        ensures
            final(self)@ == old(self)@.closed(),
            final(self).wf(),
    {
        self.editor.clear();
        self.input_mode = InputMode::Normal;
    }

    /// Enter while editing, with `numeric` telling whether the buffer reads as
    /// a decimal number (see [`AppView::submitted`]).
    pub fn submit_with(&mut self, numeric: bool) -> (r: Command)
        requires
            old(self).wf(),
        ensures
            (final(self)@, r@) == old(self)@.submitted(numeric),
            final(self).wf(),
    {
        if self.input_mode != InputMode::Editing {
            return Command::Nothing;
        }
        match self.edit_target {
            EditTarget::SearchBox => {
                let filter = self.editor.text().clone();
                self.search_word = filter.clone();
                self.focus_area = FocusArea::Grid;
                let len = self.active_len();
                self.selected_row = if len > 0 {
                    Some(0)
                } else {
                    None
                };
                self.cancel_edit();
                Command::Refilter { kind: self.working_data, filter }
            },
            EditTarget::Cell => {
                match judge(self.editing_rule, numeric) {
                    Verdict::Reject => Command::Nothing,
                    Verdict::Commit => {
                        let value = self.editor.text().clone();
                        self.cancel_edit();
                        Command::UpdateField {
                            kind: self.working_data,
                            key_name: self.editing_key.clone(),
                            key_value: self.editing_key_value.clone(),
                            column: self.editing_column.clone(),
                            value,
                            filter: self.search_word.clone(),
                        }
                    },
                    Verdict::Confirm(ConfirmAction::Copy) => {
                        self.cancel_edit();
                        Command::CopyRow {
                            id: self.editing_key_value.clone(),
                            filter: self.search_word.clone(),
                        }
                    },
                    Verdict::Confirm(ConfirmAction::Delete) => {
                        self.cancel_edit();
                        Command::DeleteRow {
                            id: self.editing_key_value.clone(),
                            filter: self.search_word.clone(),
                        }
                    },
                }
            },
        }
    }

    /// Enter while editing: checks the buffer with `rust_decimal`, then
    /// proceeds as [`App::submit_with`].
    pub fn submit_message(&mut self) -> (r: Command)
        requires
            old(self).wf(),
        ensures
            (final(self)@, r@) == old(self)@.submitted(decimal_parses(old(self)@.editor.text)),
            final(self).wf(),
    {
        let numeric = is_numeric(self.editor.text().as_str());
        self.submit_with(numeric)
    }

    /// Routes one key event (see [`AppView::on_key`]) and returns the remote
    /// work it asks for.
    pub fn handle_key(&mut self, key: Key) -> (r: Command)
        requires
            old(self).wf(),
        ensures
            (final(self)@, r@) == old(self)@.on_key(key, decimal_parses(old(self)@.editor.text)),
            final(self).wf(),
    {
        match self.input_mode {
            InputMode::Normal => match key {
                Key::Tab => self.toggle_focus(),
                Key::Char(c) => {
                    if c == 'q' && self.focus_area == FocusArea::Grid {
                        return Command::Quit;
                    }
                },
                Key::Down => if self.focus_area == FocusArea::Grid {
                    self.next_row();
                },
                Key::Up => if self.focus_area == FocusArea::Grid {
                    self.previous_row();
                },
                Key::ShiftRight => self.next_color(),
                Key::ShiftLeft => self.previous_color(),
                Key::Right => match self.focus_area {
                    FocusArea::Grid => self.next_column(),
                    FocusArea::Header => self.next_column_header(),
                },
                Key::Left => match self.focus_area {
                    FocusArea::Grid => self.previous_column(),
                    FocusArea::Header => self.previous_column_header(),
                },
                Key::Enter => match self.focus_area {
                    FocusArea::Grid => self.edit_cell(),
                    FocusArea::Header => {
                        return self.edit_search();
                    },
                },
                _ => {},
            },
            InputMode::Editing => match key {
                Key::Enter => {
                    return self.submit_message();
                },
                Key::Char(c) => self.enter_char(c),
                Key::Backspace => self.delete_char(),
                Key::Left | Key::ShiftLeft => self.move_cursor_left(),
                Key::Right | Key::ShiftRight => self.move_cursor_right(),
                Key::Esc => self.cancel_edit(),
                _ => {},
            },
        }
        Command::Nothing
    }
}

} // verus!
