use xtool::app::{App, Command, EditTarget, FocusArea, InputMode, Key, SelectedCell};
use xtool::record::{DexVolumeTask, MmVolumeTask};
use xtool::shared::SharedState;
use xtool::validation::DatasetKind;

fn mm(id: &str, launch_id: &str, token_add: &str) -> MmVolumeTask {
    MmVolumeTask {
        id: id.to_string(),
        launch_id: launch_id.to_string(),
        token_add: token_add.to_string(),
        target_volume: "100".to_string(),
        do_status: "1".to_string(),
        use_wallet_type: "0".to_string(),
        remark: "note".to_string(),
        buy_rate: "0.5".to_string(),
        buy_per_low: "1".to_string(),
        buy_per_high: "2".to_string(),
        sell_percent: "10".to_string(),
        frequent_low: "3".to_string(),
        frequent_high: "4".to_string(),
        real_sol: "7".to_string(),
        create_time: "2024-01-01 00:00:00".to_string(),
        update_time: "2024-01-02 00:00:00".to_string(),
        col1: String::new(),
        col2: String::new(),
        col3: String::new(),
    }
}

fn dex(id: &str, pool_id: &str) -> DexVolumeTask {
    DexVolumeTask {
        id: id.to_string(),
        pool_id: pool_id.to_string(),
        token_add: "tok".to_string(),
        mm_type: "1".to_string(),
        remark: "r".to_string(),
        target_price: "1.5".to_string(),
        stop_price_per: "0.1".to_string(),
        do_status: "1".to_string(),
        buy_rate: "0.5".to_string(),
        buy_per_low: "1".to_string(),
        buy_per_high: "2".to_string(),
        sell_percent: "10".to_string(),
        frequent_low: "3".to_string(),
        frequent_high: "4".to_string(),
        bsdiff: "0".to_string(),
        create_time: "2024-01-01 00:00:00".to_string(),
        update_time: "2024-01-02 00:00:00".to_string(),
        copy: "copy".to_string(),
        del: "del".to_string(),
    }
}

fn mm_rows(n: usize) -> Vec<MmVolumeTask> {
    (0..n).map(|i| mm(&format!("{}", i + 1), "42", &format!("t{}", i))).collect()
}

fn dex_rows(n: usize) -> Vec<DexVolumeTask> {
    (0..n).map(|i| dex(&format!("{}", 100 + i), &format!("p{}", i))).collect()
}

fn select_column(app: &mut App, col: usize) {
    for _ in 0..col {
        app.handle_key(Key::Right);
    }
    assert_eq!(app.selected_column(), col);
}

#[test]
fn new_app_selects_first_row() {
    let app = App::new(mm_rows(3), dex_rows(2));
    assert_eq!(app.selected_row(), Some(0));
    assert_eq!(app.selected_column(), 0);
    assert_eq!(app.kind(), DatasetKind::Primary);
    assert_eq!(app.focus(), FocusArea::Grid);
    assert_eq!(app.mode(), InputMode::Normal);
    assert_eq!(app.search_word(), "");
}

#[test]
fn new_app_on_empty_dataset_selects_nothing() {
    let app = App::new(Vec::new(), dex_rows(2));
    assert_eq!(app.selected_row(), None);
}

#[test]
fn cursor_clamps_when_dataset_shrinks() {
    let mut app = App::new(mm_rows(5), Vec::new());
    app.previous_row();
    assert_eq!(app.selected_row(), Some(4));
    app.refresh_mm_data(mm_rows(2));
    assert_eq!(app.selected_row(), Some(1));
    app.refresh_mm_data(Vec::new());
    assert_eq!(app.selected_row(), None);
    app.refresh_mm_data(mm_rows(3));
    assert_eq!(app.selected_row(), Some(0));
}

#[test]
fn refresh_of_inactive_dataset_keeps_cursor() {
    let mut app = App::new(mm_rows(5), dex_rows(5));
    app.next_row();
    app.next_row();
    app.refresh_dex_data(dex_rows(1));
    assert_eq!(app.selected_row(), Some(2));
    assert_eq!(app.dex_items().len(), 1);
}

#[test]
fn next_row_wraps_to_first() {
    let mut app = App::new(mm_rows(3), Vec::new());
    app.handle_key(Key::Down);
    app.handle_key(Key::Down);
    assert_eq!(app.selected_row(), Some(2));
    app.handle_key(Key::Down);
    assert_eq!(app.selected_row(), Some(0));
}

#[test]
fn previous_row_wraps_to_last() {
    let mut app = App::new(mm_rows(3), Vec::new());
    app.handle_key(Key::Up);
    assert_eq!(app.selected_row(), Some(2));
    app.handle_key(Key::Up);
    assert_eq!(app.selected_row(), Some(1));
}

#[test]
fn row_moves_on_empty_dataset_stay_on_none() {
    let mut app = App::new(Vec::new(), Vec::new());
    app.next_row();
    assert_eq!(app.selected_row(), None);
    app.previous_row();
    assert_eq!(app.selected_row(), None);
}

#[test]
fn columns_clamp_at_both_ends() {
    let mut app = App::new(mm_rows(1), Vec::new());
    app.previous_column();
    assert_eq!(app.selected_column(), 0);
    for _ in 0..30 {
        app.next_column();
    }
    assert_eq!(app.selected_column(), 18);
    app.previous_column();
    assert_eq!(app.selected_column(), 17);
}

#[test]
fn header_controls_clamp() {
    let mut app = App::new(mm_rows(1), Vec::new());
    app.handle_key(Key::Tab);
    assert_eq!(app.focus(), FocusArea::Header);
    app.handle_key(Key::Left);
    assert_eq!(app.header_item_selected_index(), 0);
    app.handle_key(Key::Right);
    app.handle_key(Key::Right);
    assert_eq!(app.header_item_selected_index(), 1);
    assert_eq!(app.selected_column(), 0);
    app.handle_key(Key::Tab);
    assert_eq!(app.focus(), FocusArea::Grid);
}

#[test]
fn colors_cycle_both_ways() {
    let mut app = App::new(mm_rows(1), Vec::new());
    app.handle_key(Key::ShiftLeft);
    assert_eq!(app.color_index(), 3);
    app.handle_key(Key::ShiftRight);
    assert_eq!(app.color_index(), 0);
    for _ in 0..5 {
        app.next_color();
    }
    assert_eq!(app.color_index(), 1);
    assert_eq!(app.selected_column(), 0);
}

#[test]
fn quit_only_from_grid() {
    let mut app = App::new(mm_rows(1), Vec::new());
    assert_eq!(app.handle_key(Key::Char('q')), Command::Quit);
    app.handle_key(Key::Tab);
    assert_eq!(app.handle_key(Key::Char('q')), Command::Nothing);
}

#[test]
fn unchanged_edit_commits_cell_value() {
    let mut app = App::new(mm_rows(2), Vec::new());
    app.handle_key(Key::Down);
    select_column(&mut app, 1);
    assert_eq!(app.handle_key(Key::Enter), Command::Nothing);
    assert_eq!(app.mode(), InputMode::Editing);
    assert_eq!(app.input(), "42");
    assert_eq!(app.editing_column(), "launch_id");
    let cmd = app.handle_key(Key::Enter);
    assert_eq!(
        cmd,
        Command::UpdateField {
            kind: DatasetKind::Primary,
            key_name: "id".to_string(),
            key_value: "2".to_string(),
            column: "launch_id".to_string(),
            value: "42".to_string(),
            filter: String::new(),
        }
    );
    assert_eq!(app.mode(), InputMode::Normal);
    assert_eq!(app.input(), "");
    assert_eq!(app.character_index(), 0);
}

#[test]
fn typed_edit_on_free_text_column_is_written() {
    let mut app = App::new(vec![mm("9", "1", "ab")], Vec::new());
    select_column(&mut app, 2);
    app.handle_key(Key::Enter);
    app.handle_key(Key::Right);
    app.handle_key(Key::Char('X'));
    assert_eq!(app.input(), "aXb");
    let cmd = app.handle_key(Key::Enter);
    assert_eq!(
        cmd,
        Command::UpdateField {
            kind: DatasetKind::Primary,
            key_name: "id".to_string(),
            key_value: "9".to_string(),
            column: "token_add".to_string(),
            value: "aXb".to_string(),
            filter: String::new(),
        }
    );
}

#[test]
fn non_numeric_buffer_is_rejected_on_numeric_column() {
    let mut app = App::new(mm_rows(1), Vec::new());
    select_column(&mut app, 1);
    app.handle_key(Key::Enter);
    app.handle_key(Key::Right);
    app.handle_key(Key::Right);
    app.handle_key(Key::Backspace);
    app.handle_key(Key::Backspace);
    for c in "abc".chars() {
        app.handle_key(Key::Char(c));
    }
    assert_eq!(app.input(), "abc");
    assert_eq!(app.handle_key(Key::Enter), Command::Nothing);
    assert_eq!(app.mode(), InputMode::Editing);
    assert_eq!(app.input(), "abc");
    assert_eq!(app.character_index(), 3);
}

#[test]
fn empty_buffer_is_rejected_on_numeric_column() {
    let mut app = App::new(vec![mm("1", "", "t")], Vec::new());
    select_column(&mut app, 1);
    app.handle_key(Key::Enter);
    assert_eq!(app.submit_message(), Command::Nothing);
    assert_eq!(app.mode(), InputMode::Editing);
}

#[test]
fn decimal_buffer_is_accepted_on_numeric_column() {
    let mut app = App::new(vec![mm("1", "-12.50", "t")], Vec::new());
    select_column(&mut app, 1);
    app.handle_key(Key::Enter);
    match app.submit_message() {
        Command::UpdateField { value, column, .. } => {
            assert_eq!(value, "-12.50");
            assert_eq!(column, "launch_id");
        }
        other => panic!("unexpected {:?}", other),
    }
    assert_eq!(app.mode(), InputMode::Normal);
}

#[test]
fn submit_with_takes_numeric_verdict() {
    let mut app = App::new(mm_rows(1), Vec::new());
    select_column(&mut app, 3);
    app.handle_key(Key::Enter);
    assert_eq!(app.submit_with(false), Command::Nothing);
    assert_eq!(app.mode(), InputMode::Editing);
    match app.submit_with(true) {
        Command::UpdateField { column, value, .. } => {
            assert_eq!(column, "target_volume");
            assert_eq!(value, "100");
        }
        other => panic!("unexpected {:?}", other),
    }
}

#[test]
fn identifier_column_never_opens_editor() {
    let mut app = App::new(mm_rows(2), Vec::new());
    assert_eq!(app.handle_key(Key::Enter), Command::Nothing);
    assert_eq!(app.mode(), InputMode::Normal);
    app.edit_cell();
    assert_eq!(app.mode(), InputMode::Normal);
}

#[test]
fn enter_on_empty_grid_opens_nothing() {
    let mut app = App::new(Vec::new(), Vec::new());
    select_column(&mut app, 2);
    app.handle_key(Key::Enter);
    assert_eq!(app.mode(), InputMode::Normal);
}

fn switch_to_secondary(app: &mut App) -> Command {
    app.handle_key(Key::Tab);
    app.handle_key(Key::Right);
    app.handle_key(Key::Enter)
}

#[test]
fn copy_column_confirms_copy_by_identifier() {
    let mut app = App::new(Vec::new(), dex_rows(3));
    switch_to_secondary(&mut app);
    app.handle_key(Key::Down);
    select_column(&mut app, 17);
    app.handle_key(Key::Enter);
    assert_eq!(app.mode(), InputMode::Editing);
    assert_eq!(app.input(), "");
    app.handle_key(Key::Char('y'));
    assert_eq!(app.input(), "");
    let cmd = app.handle_key(Key::Enter);
    assert_eq!(
        cmd,
        Command::CopyRow { id: "101".to_string(), filter: String::new() }
    );
    assert_eq!(app.mode(), InputMode::Normal);
}

#[test]
fn copy_column_escape_sends_nothing() {
    let mut app = App::new(Vec::new(), dex_rows(3));
    switch_to_secondary(&mut app);
    select_column(&mut app, 17);
    app.handle_key(Key::Enter);
    assert_eq!(app.handle_key(Key::Esc), Command::Nothing);
    assert_eq!(app.mode(), InputMode::Normal);
}

#[test]
fn delete_column_confirms_delete() {
    let mut app = App::new(Vec::new(), dex_rows(3));
    switch_to_secondary(&mut app);
    select_column(&mut app, 18);
    app.handle_key(Key::Enter);
    assert_eq!(
        app.handle_key(Key::Enter),
        Command::DeleteRow { id: "100".to_string(), filter: String::new() }
    );
}

#[test]
fn escape_discards_cell_edit() {
    let mut app = App::new(mm_rows(1), Vec::new());
    select_column(&mut app, 6);
    app.handle_key(Key::Enter);
    app.handle_key(Key::Char('z'));
    assert_eq!(app.input(), "znote");
    assert_eq!(app.handle_key(Key::Esc), Command::Nothing);
    assert_eq!(app.mode(), InputMode::Normal);
    assert_eq!(app.input(), "");
    assert_eq!(app.mm_items()[0].remark, "note");
}

#[test]
fn search_submit_sets_shared_filter() {
    let mut app = App::new(mm_rows(3), dex_rows(3));
    let mut shared = SharedState::new(mm_rows(3), dex_rows(3));
    app.handle_key(Key::Tab);
    assert_eq!(app.handle_key(Key::Enter), Command::Nothing);
    assert_eq!(app.mode(), InputMode::Editing);
    assert_eq!(app.edit_target(), EditTarget::SearchBox);
    for c in "abc".chars() {
        app.handle_key(Key::Char(c));
    }
    let cmd = app.handle_key(Key::Enter);
    assert_eq!(
        cmd,
        Command::Refilter { kind: DatasetKind::Primary, filter: "abc".to_string() }
    );
    assert_eq!(app.search_word(), "abc");
    assert_eq!(app.focus(), FocusArea::Grid);
    assert_eq!(app.mode(), InputMode::Normal);
    shared.apply_command(&cmd);
    assert_eq!(shared.refresh_request(DatasetKind::Primary).filter, "abc");
    assert_eq!(shared.refresh_request(DatasetKind::Secondary).filter, "abc");
}

#[test]
fn search_submit_resets_row_to_first() {
    let mut app = App::new(mm_rows(3), Vec::new());
    app.handle_key(Key::Down);
    app.handle_key(Key::Tab);
    app.handle_key(Key::Enter);
    app.handle_key(Key::Enter);
    assert_eq!(app.selected_row(), Some(0));
}

#[test]
fn search_escape_keeps_filter() {
    let mut app = App::new(mm_rows(1), Vec::new());
    app.handle_key(Key::Tab);
    app.handle_key(Key::Enter);
    app.handle_key(Key::Char('x'));
    app.handle_key(Key::Esc);
    assert_eq!(app.search_word(), "");
    assert_eq!(app.mode(), InputMode::Normal);
}

#[test]
fn search_editor_starts_from_filter() {
    let mut app = App::new(mm_rows(1), Vec::new());
    app.handle_key(Key::Tab);
    app.handle_key(Key::Enter);
    app.handle_key(Key::Char('a'));
    app.handle_key(Key::Enter);
    app.handle_key(Key::Tab);
    app.handle_key(Key::Enter);
    assert_eq!(app.input(), "a");
    assert_eq!(app.character_index(), 0);
}

#[test]
fn switching_dataset_resets_filter_and_keeps_other_cache() {
    let mut app = App::new(mm_rows(4), dex_rows(2));
    let mut shared = SharedState::new(mm_rows(4), dex_rows(2));
    shared.set_filter("old".to_string());
    app.handle_key(Key::Tab);
    app.handle_key(Key::Enter);
    app.handle_key(Key::Char('t'));
    let filter_cmd = app.handle_key(Key::Enter);
    shared.apply_command(&filter_cmd);
    assert_eq!(shared.filter(), "t");
    app.handle_key(Key::Down);
    app.handle_key(Key::Down);
    let cmd = switch_to_secondary(&mut app);
    assert_eq!(
        cmd,
        Command::Refilter { kind: DatasetKind::Secondary, filter: String::new() }
    );
    assert_eq!(app.kind(), DatasetKind::Secondary);
    assert_eq!(app.search_word(), "");
    assert_eq!(app.focus(), FocusArea::Grid);
    assert_eq!(app.selected_row(), Some(1));
    shared.apply_command(&cmd);
    assert_eq!(shared.filter(), "");
    shared.publish_dex(dex_rows(5));
    assert_eq!(shared.mm_cache(), &mm_rows(4));
    assert_eq!(shared.dex_cache().len(), 5);
    app.refresh_dex_data(dex_rows(5));
    assert_eq!(app.mm_items(), &mm_rows(4));
    assert_eq!(app.dex_items().len(), 5);
}

#[test]
fn switching_back_returns_to_primary() {
    let mut app = App::new(mm_rows(1), dex_rows(1));
    switch_to_secondary(&mut app);
    app.handle_key(Key::Tab);
    let cmd = app.handle_key(Key::Enter);
    assert_eq!(
        cmd,
        Command::Refilter { kind: DatasetKind::Primary, filter: String::new() }
    );
    assert_eq!(app.kind(), DatasetKind::Primary);
}

#[test]
fn commit_carries_current_filter() {
    let mut app = App::new(Vec::new(), dex_rows(2));
    switch_to_secondary(&mut app);
    app.handle_key(Key::Tab);
    app.handle_key(Key::Left);
    app.handle_key(Key::Enter);
    app.handle_key(Key::Char('p'));
    app.handle_key(Key::Enter);
    app.refresh_dex_data(dex_rows(2));
    select_column(&mut app, 1);
    app.handle_key(Key::Enter);
    let cmd = app.handle_key(Key::Enter);
    assert_eq!(
        cmd,
        Command::UpdateField {
            kind: DatasetKind::Secondary,
            key_name: "id".to_string(),
            key_value: "100".to_string(),
            column: "pool_id".to_string(),
            value: "p0".to_string(),
            filter: "p".to_string(),
        }
    );
}

#[test]
fn current_cell_reports_key_and_value() {
    let mut app = App::new(mm_rows(2), Vec::new());
    app.next_row();
    app.next_column();
    app.next_column();
    assert_eq!(
        app.get_current_cell_content(),
        Some(SelectedCell {
            key_name: "id".to_string(),
            key_value: "2".to_string(),
            cell_name: "token_add".to_string(),
            cell_value: "t1".to_string(),
        })
    );
    let empty = App::new(Vec::new(), Vec::new());
    assert_eq!(empty.get_current_cell_content(), None);
}

#[test]
fn direct_editing_methods() {
    let mut app = App::new(vec![mm("1", "5", "ab")], Vec::new());
    app.next_column();
    app.next_column();
    app.edit_cell();
    assert_eq!(app.mode(), InputMode::Editing);
    app.move_cursor_right();
    app.move_cursor_right();
    app.move_cursor_right();
    assert_eq!(app.character_index(), 2);
    app.enter_char('c');
    assert_eq!(app.input(), "abc");
    app.move_cursor_left();
    app.delete_char();
    assert_eq!(app.input(), "ac");
    assert_eq!(app.character_index(), 1);
    app.cancel_edit();
    assert_eq!(app.mode(), InputMode::Normal);
    assert_eq!(app.input(), "");
}

#[test]
fn edit_search_toggle_and_focus() {
    let mut app = App::new(mm_rows(1), dex_rows(0));
    app.toggle_focus();
    assert_eq!(app.focus(), FocusArea::Header);
    app.next_column_header();
    let cmd = app.edit_search();
    assert_eq!(
        cmd,
        Command::Refilter { kind: DatasetKind::Secondary, filter: String::new() }
    );
    assert_eq!(app.selected_row(), None);
    assert_eq!(app.focus(), FocusArea::Grid);
    app.previous_column_header();
    assert_eq!(app.header_item_selected_index(), 0);
    assert_eq!(app.edit_search(), Command::Nothing);
    assert_eq!(app.edit_target(), EditTarget::SearchBox);
    assert_eq!(app.mode(), InputMode::Editing);
}
