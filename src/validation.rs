//! Column names of each dataset kind and the rule that decides what an edit
//! of a column may do.
use vstd::prelude::*;
use crate::record::FIELD_COUNT;

verus! {

/// Which of the two record families a dataset holds.
#[derive(Clone, Copy, Debug, PartialEq, Eq, Structural)]
pub enum DatasetKind {
    /// Market-making volume tasks (`MmVolumeTask`).
    Primary,
    /// DEX volume tasks (`DexVolumeTask`).
    Secondary,
}

/// A one-shot remote action behind a confirmation-only column.
#[derive(Clone, Copy, Debug, PartialEq, Eq, Structural)]
pub enum ConfirmAction {
    Copy,
    Delete,
}

/// What an edit of a column may do.
#[derive(Clone, Copy, Debug, PartialEq, Eq, Structural)]
pub enum ColumnRule {
    /// Any text is written back.
    FreeText,
    /// Only text that parses as a decimal number is written back.
    NumericOnly,
    /// The edit gesture asks for confirmation of a remote action.
    ActionConfirm(ConfirmAction),
    /// The identifier: never edited.
    Immutable,
}

/// What a commit attempt on a cell leads to.
#[derive(Clone, Copy, Debug, PartialEq, Eq, Structural)]
pub enum Verdict {
    /// Write the buffer back.
    Commit,
    /// Keep the session open; nothing is sent.
    Reject,
    /// Run the confirmed action on the row.
    Confirm(ConfirmAction),
}

pub open spec fn other_kind(kind: DatasetKind) -> DatasetKind {
    match kind {
        DatasetKind::Primary => DatasetKind::Secondary,
        DatasetKind::Secondary => DatasetKind::Primary,
    }
}

pub open spec fn column_names(kind: DatasetKind) -> Seq<Seq<char>> {
    match kind {
        DatasetKind::Primary => seq![
            "id"@, "launch_id"@, "token_add"@, "target_volume"@, "do_status"@,
            "use_wallet_type"@, "remark"@, "buy_rate"@, "buy_per_low"@, "buy_per_high"@,
            "sell_percent"@, "frequent_low"@, "frequent_high"@, "real_sol"@,
            "create_time"@, "update_time"@, "col1"@, "col2"@, "col3"@,
        ],
        DatasetKind::Secondary => seq![
            "id"@, "pool_id"@, "token_add"@, "mm_type"@, "remark"@, "target_price"@,
            "stop_price_per"@, "do_status"@, "buy_rate"@, "buy_per_low"@, "buy_per_high"@,
            "sell_percent"@, "frequent_low"@, "frequent_high"@, "bsdiff"@,
            "create_time"@, "update_time"@, "copy"@, "del"@,
        ],
    }
}

/// The columns whose edits must be decimal numbers.
pub open spec fn numeric_columns() -> Seq<Seq<char>> {
    seq![
        "launch_id"@, "target_volume"@, "do_status"@, "use_wallet_type"@, "buy_rate"@,
        "buy_per_low"@, "buy_per_high"@, "sell_percent"@, "frequent_low"@,
        "frequent_high"@, "real_sol"@,
    ]
}

pub open spec fn rule_of(name: Seq<char>) -> ColumnRule {
    if name == "id"@ {
        ColumnRule::Immutable
    } else if name == "copy"@ {
        ColumnRule::ActionConfirm(ConfirmAction::Copy)
    } else if name == "del"@ {
        ColumnRule::ActionConfirm(ConfirmAction::Delete)
    } else if numeric_columns().contains(name) {
        ColumnRule::NumericOnly
    } else {
        ColumnRule::FreeText
    }
}

pub open spec fn verdict_of(rule: ColumnRule, numeric: bool) -> Verdict {
    match rule {
        ColumnRule::FreeText => Verdict::Commit,
        ColumnRule::NumericOnly => if numeric {
            Verdict::Commit
        } else {
            Verdict::Reject
        },
        ColumnRule::ActionConfirm(action) => Verdict::Confirm(action),
        ColumnRule::Immutable => Verdict::Reject,
    }
}

/// Whether `rust_decimal` reads the text as a decimal number.
pub uninterp spec fn decimal_parses(s: Seq<char>) -> bool;

/// Relies on `<rust_decimal::Decimal as FromStr>::from_str`: whether it
/// returns `Ok` depends on the text alone, and empty text is an error.
#[verifier::external_body]
pub(crate) fn is_numeric(s: &str) -> (r: bool)
    ensures
        r == decimal_parses(s@),
        s@.len() == 0 ==> !r,
{
    <rust_decimal::Decimal as core::str::FromStr>::from_str(s).is_ok()
}

/// Character-wise equality of two texts.
pub fn text_eq(a: &str, b: &str) -> (r: bool)
    ensures
        r == (a@ == b@),
{
    let n = a.unicode_len();
    if n != b.unicode_len() {
        return false;
    }
    let mut i: usize = 0;
    while i < n
        invariant
            n == a@.len(),
            n == b@.len(),
            i <= n,
            forall|j: int| 0 <= j < i ==> a@[j] == b@[j],
        decreases n - i,
    {
        if a.get_char(i) != b.get_char(i) {
            return false;
        }
        i = i + 1;
    }
    assert(a@ =~= b@);
    true
}

/// The name of column `col` of a dataset of `kind`.
pub fn column_name(kind: DatasetKind, col: usize) -> (r: &'static str)
    requires
        col < FIELD_COUNT,
    ensures
        r@ == column_names(kind)[col as int],
{
    let names: [&'static str; 19] = match kind {
        DatasetKind::Primary => [
            "id", "launch_id", "token_add", "target_volume", "do_status",
            "use_wallet_type", "remark", "buy_rate", "buy_per_low", "buy_per_high",
            "sell_percent", "frequent_low", "frequent_high", "real_sol",
            "create_time", "update_time", "col1", "col2", "col3",
        ],
        DatasetKind::Secondary => [
            "id", "pool_id", "token_add", "mm_type", "remark", "target_price",
            "stop_price_per", "do_status", "buy_rate", "buy_per_low", "buy_per_high",
            "sell_percent", "frequent_low", "frequent_high", "bsdiff",
            "create_time", "update_time", "copy", "del",
        ],
    };
    names[col]
}

/// The rule for the column called `name`.
pub fn rule_for_name(name: &str) -> (r: ColumnRule)
    ensures
        r == rule_of(name@),
{
    if text_eq(name, "id") {
        return ColumnRule::Immutable;
    }
    if text_eq(name, "copy") {
        return ColumnRule::ActionConfirm(ConfirmAction::Copy);
    }
    if text_eq(name, "del") {
        return ColumnRule::ActionConfirm(ConfirmAction::Delete);
    }
    let numeric: [&'static str; 11] = [
        "launch_id", "target_volume", "do_status", "use_wallet_type", "buy_rate",
        "buy_per_low", "buy_per_high", "sell_percent", "frequent_low", "frequent_high",
        "real_sol",
    ];
    let mut i: usize = 0;
    while i < 11
        invariant
            i <= 11,
            name@ != "id"@,
            name@ != "copy"@,
            name@ != "del"@,
            forall|j: int| 0 <= j < 11 ==> (#[trigger] numeric@[j])@ == numeric_columns()[j],
            forall|j: int| 0 <= j < i ==> numeric_columns()[j] != name@,
        decreases 11 - i,
    {
        if text_eq(name, numeric[i]) {
            assert(numeric_columns()[i as int] == name@);
            assert(numeric_columns().contains(name@));
            return ColumnRule::NumericOnly;
        }
        i = i + 1;
    }
    assert(!numeric_columns().contains(name@));
    ColumnRule::FreeText
}

/// The rule for column `col` of a dataset of `kind`.
pub fn column_rule(kind: DatasetKind, col: usize) -> (r: ColumnRule)
    requires
        col < FIELD_COUNT,
    ensures
        r == rule_of(column_names(kind)[col as int]),
{
    rule_for_name(column_name(kind, col))
}

/// What a commit attempt on a column under `rule` leads to, given whether the
/// buffer reads as a decimal number.
pub fn judge(rule: ColumnRule, numeric: bool) -> (r: Verdict)
    ensures
        r == verdict_of(rule, numeric),
{
    match rule {
        ColumnRule::FreeText => Verdict::Commit,
        ColumnRule::NumericOnly => if numeric {
            Verdict::Commit
        } else {
            Verdict::Reject
        },
        ColumnRule::ActionConfirm(action) => Verdict::Confirm(action),
        ColumnRule::Immutable => Verdict::Reject,
    }
}

/// The store's table that holds datasets of `kind`.
pub fn table_name(kind: DatasetKind) -> (r: &'static str)
    ensures
        kind == DatasetKind::Primary ==> r@ == "mm_volume_task"@,
        kind == DatasetKind::Secondary ==> r@ == "dex_volume_task"@,
{
    match kind {
        DatasetKind::Primary => "mm_volume_task",
        DatasetKind::Secondary => "dex_volume_task",
    }
}

} // verus!
