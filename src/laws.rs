//! Properties of the engine as a whole, stated over the views that the
//! functions' own contracts use, and proved.
use vstd::prelude::*;
use crate::app::{AppView, CommandView, EditTarget, FocusArea, InputMode, Key};
use crate::shared::SharedView;
use crate::validation::{
    column_names, decimal_parses, other_kind, rule_of, ColumnRule, ConfirmAction, DatasetKind,
};

verus! {

/// Replacing a dataset keeps the state well formed, and while the active
/// dataset has rows some row stays selected. When the active dataset shrinks
/// from `n` rows to `m > 0` rows with the last row selected, row `m - 1` is
/// selected after the replacement.
pub proof fn lemma_cursor_clamp(v: AppView, kind: DatasetKind, rows: Seq<Seq<Seq<char>>>)
    requires
        v.wf(),
    ensures
        v.replaced(kind, rows).wf(),
        kind == v.kind && rows.len() > 0 ==> v.replaced(kind, rows).selected_row is Some,
        kind == v.kind && 0 < rows.len() < v.active_len() && v.selected_row == Some(
            v.active_len() - 1,
        ) ==> v.replaced(kind, rows).selected_row == Some(rows.len() - 1),
{
}

/// The row cursor wraps round: past the last row comes the first, before the
/// first the last; on an empty dataset it stays on no row.
pub proof fn lemma_wraparound(v: AppView)
    requires
        v.wf(),
    ensures
        v.selected_row == Some(v.active_len() - 1) ==> v.next_row().selected_row == Some(0int),
        v.selected_row == Some(0int) ==> v.previous_row().selected_row == Some(v.active_len() - 1),
        v.active_len() == 0 ==> v.next_row().selected_row is None,
        v.active_len() == 0 ==> v.previous_row().selected_row is None,
        v.next_row().wf(),
        v.previous_row().wf(),
{
}

/// Opening an editor on a cell and committing it unchanged asks to write the
/// cell's own text back, keyed by the row's identifier. This holds for a
/// free-text column, and for a numeric column whose text reads as a number.
pub proof fn lemma_edit_round_trip(v: AppView, n: bool)
    requires
        v.wf(),
        v.mode == InputMode::Normal,
        v.focus == FocusArea::Grid,
        v.selected_row is Some,
        ({
            let record = v.rows_of(v.kind)[v.selected_row->0];
            let rule = rule_of(column_names(v.kind)[v.selected_column]);
            rule == ColumnRule::FreeText || (rule == ColumnRule::NumericOnly && decimal_parses(
                record[v.selected_column],
            ))
        }),
    ensures
        ({
            let record = v.rows_of(v.kind)[v.selected_row->0];
            let w = v.on_key(Key::Enter, n).0;
            &&& w.mode == InputMode::Editing
            &&& w.on_key(Key::Enter, decimal_parses(w.editor.text)) == (
                w.closed(),
                CommandView::UpdateField {
                    kind: v.kind,
                    key_name: "id"@,
                    key_value: record[0],
                    column: column_names(v.kind)[v.selected_column],
                    value: record[v.selected_column],
                    filter: v.filter,
                },
            )
        }),
{
}

/// A cell commit whose column takes numbers only and whose buffer does not
/// read as one changes nothing and asks for nothing: the session stays open
/// with its buffer.
pub proof fn lemma_numeric_rejection(v: AppView)
    requires
        v.mode == InputMode::Editing,
        v.target == EditTarget::Cell,
        v.rule == ColumnRule::NumericOnly,
        !decimal_parses(v.editor.text),
    ensures
        v.on_key(Key::Enter, decimal_parses(v.editor.text)) == (v, CommandView::Nothing),
{
}

/// The identifier column is immutable, and Enter on it changes nothing: no
/// edit session opens.
pub proof fn lemma_immutable_guard(v: AppView, n: bool)
    requires
        v.mode == InputMode::Normal,
        v.focus == FocusArea::Grid,
        v.selected_column == 0,
    ensures
        rule_of(column_names(v.kind)[0]) == ColumnRule::Immutable,
        v.on_key(Key::Enter, n).0 == v,
        v.on_key(Key::Enter, n).0.mode == InputMode::Normal,
{
}

/// Enter on a `copy` cell opens a confirmation; Enter then asks to copy the
/// row by its identifier and to write nothing, while Escape asks for nothing.
pub proof fn lemma_action_confirm(v: AppView, n: bool, m: bool)
    requires
        v.wf(),
        v.mode == InputMode::Normal,
        v.focus == FocusArea::Grid,
        v.selected_row is Some,
        column_names(v.kind)[v.selected_column] == "copy"@,
    ensures
        ({
            let record = v.rows_of(v.kind)[v.selected_row->0];
            let w = v.on_key(Key::Enter, n).0;
            &&& w.mode == InputMode::Editing
            &&& w.on_key(Key::Enter, m).1 == CommandView::CopyRow {
                id: record[0],
                filter: v.filter,
            }
            &&& w.on_key(Key::Enter, m).0.mode == InputMode::Normal
            &&& w.on_key(Key::Esc, m) == (w.closed(), CommandView::Nothing)
        }),
{
    reveal_strlit("copy");
    reveal_strlit("id");
    assert("copy"@.len() != "id"@.len());
    assert(rule_of("copy"@) == ColumnRule::ActionConfirm(ConfirmAction::Copy));
}

/// Submitting text in the search box makes it the shared filter once the
/// command is applied, so the next fetch of either refresher uses it.
pub proof fn lemma_filter_propagation(v: AppView, s: SharedView, n: bool)
    requires
        v.mode == InputMode::Editing,
        v.target == EditTarget::SearchBox,
    ensures
        ({
            let (w, cmd) = v.on_key(Key::Enter, n);
            &&& s.after_command(cmd).filter == v.editor.text
            &&& w.filter == v.editor.text
            &&& w.mode == InputMode::Normal
            &&& w.focus == FocusArea::Grid
        }),
{
}

/// The dataset toggle makes the other kind active with an empty filter, in
/// the foreground and in the shared state, and leaves the last snapshot of
/// the kind it leaves as it was, also once the fetched rows of the new kind
/// are published.
pub proof fn lemma_switch_isolation(
    v: AppView,
    s: SharedView,
    n: bool,
    fetched: Seq<Seq<Seq<char>>>,
)
    requires
        v.wf(),
        v.mode == InputMode::Normal,
        v.focus == FocusArea::Header,
        v.header_index == 1,
    ensures
        ({
            let (w, cmd) = v.on_key(Key::Enter, n);
            let after = s.after_command(cmd);
            &&& w.kind == other_kind(v.kind)
            &&& w.filter == Seq::<char>::empty()
            &&& w.wf()
            &&& cmd == CommandView::Refilter { kind: w.kind, filter: Seq::empty() }
            &&& after.filter == Seq::<char>::empty()
            &&& after.rows_of(v.kind) == s.rows_of(v.kind)
            &&& after.published(w.kind, fetched).rows_of(v.kind) == s.rows_of(v.kind)
            &&& w.rows_of(v.kind) == v.rows_of(v.kind)
            &&& w.replaced(w.kind, fetched).rows_of(v.kind) == v.rows_of(v.kind)
        }),
{
}

} // verus!
