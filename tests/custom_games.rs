use custom_games::{
    BulkToggle, Config, CustomGame, CustomGamesEditor, CustomGamesEditorEntry,
    CustomGamesEditorEntryRow, CustomGamesScreenComponent, EditAction, RowKind,
};

fn strings(xs: &[&str]) -> Vec<String> {
    xs.iter().map(|x| x.to_string()).collect()
}

fn game(name: &str, files: &[&str], registry: &[&str]) -> CustomGame {
    CustomGame { name: name.to_string(), files: strings(files), registry: strings(registry) }
}

fn values(rows: &[CustomGamesEditorEntryRow]) -> Vec<String> {
    rows.iter().map(|r| r.value.clone()).collect()
}

fn flags(editor: &CustomGamesEditor) -> Vec<bool> {
    editor.entries.iter().map(|e| e.enabled).collect()
}

fn same_records(a: &[CustomGame], b: &[CustomGame]) -> bool {
    a.len() == b.len()
        && a.iter().zip(b).all(|(x, y)| x.name == y.name && x.files == y.files && x.registry == y.registry)
}

fn snapshot(editor: &CustomGamesEditor) -> Vec<(String, bool, Vec<String>, Vec<String>)> {
    editor
        .entries
        .iter()
        .map(|e| (e.name.clone(), e.enabled, values(&e.files), values(&e.registry)))
        .collect()
}

fn mixed_editor() -> CustomGamesEditor {
    let records = vec![
        game("Alpha", &["a/save", "a/conf"], &["HKCU/Alpha"]),
        game("Beta", &[], &[]),
        game("Gamma", &["g"], &[]),
    ];
    CustomGamesEditor::from_config_with_disabled(&records, &strings(&["Beta"]))
}

#[test]
fn row_keeps_value_verbatim() {
    let row = CustomGamesEditorEntryRow::new("  ~/saves/*.sav ");
    assert_eq!(row.value, "  ~/saves/*.sav ");
}

#[test]
fn new_entry_is_empty_and_enabled() {
    let e = CustomGamesEditorEntry::new("Foo");
    assert_eq!(e.name, "Foo");
    assert!(e.enabled);
    assert!(e.files.is_empty());
    assert!(e.registry.is_empty());
}

#[test]
fn round_trip_keeps_records() {
    let records = vec![
        game("Alpha", &["a/save", "a/conf"], &["HKCU/Alpha"]),
        game("", &[], &[]),
        game("Alpha", &["x"], &["r1", "r2", "r3"]),
    ];
    let editor = CustomGamesEditor::from_config(&records);
    assert!(same_records(&editor.to_config(), &records));
    let editor = CustomGamesEditor::from_config_with_disabled(&records, &strings(&["Alpha"]));
    assert!(same_records(&editor.to_config(), &records));
}

#[test]
fn round_trip_of_nothing() {
    let editor = CustomGamesEditor::from_config(&vec![]);
    assert!(editor.entries.is_empty());
    assert!(editor.to_config().is_empty());
}

#[test]
fn from_config_marks_disabled_names() {
    let editor = mixed_editor();
    assert_eq!(flags(&editor), vec![true, false, true]);
    assert_eq!(editor.disabled_names(), strings(&["Beta"]));
    assert_eq!(values(&editor.entries[0].files), strings(&["a/save", "a/conf"]));
    assert_eq!(values(&editor.entries[0].registry), strings(&["HKCU/Alpha"]));
}

#[test]
fn from_config_defaults_to_enabled() {
    let editor = CustomGamesEditor::from_config(&vec![game("A", &[], &[]), game("B", &[], &[])]);
    assert_eq!(flags(&editor), vec![true, true]);
    assert!(editor.disabled_names().is_empty());
}

#[test]
fn no_entries_are_all_enabled() {
    assert!(CustomGamesEditor::new().are_all_enabled());
    assert!(CustomGamesEditor::from_config(&vec![]).are_all_enabled());
}

#[test]
fn bulk_toggle_from_mixture() {
    let mut editor = mixed_editor();
    assert!(!editor.are_all_enabled());
    editor.set_all_enabled(true);
    assert!(editor.are_all_enabled());
    assert_eq!(flags(&editor), vec![true, true, true]);
    editor.set_all_enabled(false);
    assert!(!editor.are_all_enabled());
    assert_eq!(flags(&editor), vec![false, false, false]);
    assert_eq!(editor.disabled_names(), strings(&["Alpha", "Beta", "Gamma"]));
    assert_eq!(values(&editor.entries[0].files), strings(&["a/save", "a/conf"]));
}

#[test]
fn bulk_toggle_on_no_entries() {
    let mut editor = CustomGamesEditor::new();
    editor.set_all_enabled(false);
    assert!(editor.are_all_enabled());
    editor.set_all_enabled(true);
    assert!(editor.are_all_enabled());
}

#[test]
fn add_entry_appends_blank_enabled() {
    let mut editor = mixed_editor();
    let before = snapshot(&editor);
    editor.add_entry();
    let after = snapshot(&editor);
    assert_eq!(after.len(), before.len() + 1);
    assert_eq!(&after[..before.len()], &before[..]);
    assert_eq!(after[before.len()], (String::new(), true, vec![], vec![]));
}

#[test]
fn invalid_indices_leave_editor_unchanged() {
    let mut editor = mixed_editor();
    let before = snapshot(&editor);
    editor.remove_entry(3);
    editor.remove_entry(usize::MAX);
    editor.remove_row(3, RowKind::Files, 0);
    editor.remove_row(0, RowKind::Files, 2);
    editor.remove_row(1, RowKind::Registry, 0);
    editor.set_enabled(3, false);
    editor.toggle_enabled(7);
    editor.set_name(3, "x");
    editor.add_row(3, RowKind::Registry, "x");
    assert_eq!(snapshot(&editor), before);
}

#[test]
fn removing_middle_row_keeps_order() {
    let mut editor = CustomGamesEditor::new();
    editor.add_entry();
    editor.add_row(0, RowKind::Files, "a");
    editor.add_row(0, RowKind::Files, "b");
    editor.add_row(0, RowKind::Files, "c");
    editor.remove_row(0, RowKind::Files, 1);
    assert_eq!(values(&editor.entries[0].files), strings(&["a", "c"]));
    assert!(editor.entries[0].registry.is_empty());
}

#[test]
fn entry_rows_by_kind() {
    let mut e = CustomGamesEditorEntry::new("E");
    e.push_row(RowKind::Registry, "r1");
    e.push_row(RowKind::Files, "f1");
    e.push_row(RowKind::Registry, "r2");
    e.remove_row(RowKind::Registry, 0);
    e.remove_row(RowKind::Files, 5);
    assert_eq!(values(&e.files), strings(&["f1"]));
    assert_eq!(values(&e.registry), strings(&["r2"]));
    e.set_enabled(false);
    assert!(!e.enabled);
    e.set_name("F");
    assert_eq!(e.name, "F");
    assert_eq!(values(&e.files), strings(&["f1"]));
}

#[test]
fn remove_entry_keeps_order() {
    let mut editor = mixed_editor();
    editor.remove_entry(1);
    let names: Vec<String> = editor.entries.iter().map(|e| e.name.clone()).collect();
    assert_eq!(names, strings(&["Alpha", "Gamma"]));
    assert!(editor.are_all_enabled());
}

#[test]
fn set_and_toggle_one_entry() {
    let mut editor = mixed_editor();
    editor.set_enabled(0, false);
    assert_eq!(flags(&editor), vec![false, false, true]);
    editor.toggle_enabled(1);
    assert_eq!(flags(&editor), vec![false, true, true]);
    editor.set_name(2, "Delta");
    assert_eq!(editor.entries[2].name, "Delta");
}

#[test]
fn screen_scenario_select_all() {
    let config = Config {
        custom_games: vec![game("First", &["f"], &[]), game("Second", &[], &["r"])],
        disabled_custom_games: strings(&["Second"]),
    };
    let mut screen = CustomGamesScreenComponent::new(&config);
    assert!(!screen.games_editor.are_all_enabled());
    let toggle = screen.bulk_toggle();
    assert_eq!(toggle, BulkToggle::EnableAll);
    assert_eq!(toggle.label(), "Enable All");
    assert!(matches!(toggle.action(), EditAction::SelectAllEntries));
    screen.apply(EditAction::SelectAllEntries);
    assert_eq!(flags(&screen.games_editor), vec![true, true]);
    assert!(screen.games_editor.are_all_enabled());
    let toggle = screen.bulk_toggle();
    assert_eq!(toggle, BulkToggle::DisableAll);
    assert_eq!(toggle.label(), "Disable All");
    assert!(matches!(toggle.action(), EditAction::DeselectAllEntries));
}

#[test]
fn screen_applies_commands() {
    let config = Config { custom_games: vec![game("A", &[], &[])], disabled_custom_games: vec![] };
    let mut screen = CustomGamesScreenComponent::new(&config);
    screen.apply(EditAction::AddEntry);
    screen.apply(EditAction::UpdateEntryName(1, "B".to_string()));
    screen.apply(EditAction::AddRow(1, RowKind::Files, "b/save".to_string()));
    screen.apply(EditAction::AddRow(1, RowKind::Registry, "HKCU/B".to_string()));
    screen.apply(EditAction::AddRow(0, RowKind::Files, "a/save".to_string()));
    screen.apply(EditAction::RemoveRow(0, RowKind::Files, 0));
    screen.apply(EditAction::ToggleEntryEnabled(0));
    assert_eq!(screen.bulk_toggle(), BulkToggle::EnableAll);
    let records = screen.games_editor.to_config();
    assert!(same_records(&records, &[game("A", &[], &[]), game("B", &["b/save"], &["HKCU/B"])]));
    assert_eq!(screen.games_editor.disabled_names(), strings(&["A"]));
    screen.apply(EditAction::DeselectAllEntries);
    assert_eq!(flags(&screen.games_editor), vec![false, false]);
    screen.apply(EditAction::RemoveEntry(0));
    assert_eq!(screen.games_editor.entries.len(), 1);
    assert_eq!(screen.games_editor.entries[0].name, "B");
    screen.apply(EditAction::RemoveEntry(4));
    assert_eq!(screen.games_editor.entries.len(), 1);
}

#[test]
fn empty_screen_offers_disable_all() {
    let config = Config { custom_games: vec![], disabled_custom_games: vec![] };
    let screen = CustomGamesScreenComponent::new(&config);
    assert_eq!(screen.bulk_toggle(), BulkToggle::DisableAll);
}
