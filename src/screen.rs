use vstd::prelude::*;

use crate::config::{records_view, strings_view, Config};
use crate::editor::{all_enabled, blank_entry, spec_from_config, update_at, with_all_enabled, CustomGamesEditor};
use crate::entry::{EntryView, RowKind};

verus! {

/// A discrete edit command; each one applies at once and in full.
#[derive(Clone, Debug)]
pub enum EditAction {
    AddEntry,
    RemoveEntry(usize),
    UpdateEntryName(usize, String),
    AddRow(usize, RowKind, String),
    RemoveRow(usize, RowKind, usize),
    ToggleEntryEnabled(usize),
    SelectAllEntries,
    DeselectAllEntries,
}

/// The entries after a command.
pub open spec fn spec_apply(entries: Seq<EntryView>, action: EditAction) -> Seq<EntryView> {
    match action {
        EditAction::AddEntry => entries.push(blank_entry()),
        EditAction::RemoveEntry(i) => if i < entries.len() {
            entries.remove(i as int)
        } else {
            entries
        },
        EditAction::UpdateEntryName(i, name) => update_at(
            entries,
            i as int,
            |e: EntryView| EntryView { name: name@, ..e },
        ),
        EditAction::AddRow(i, kind, value) => update_at(
            entries,
            i as int,
            |e: EntryView| e.push_row(kind, value@),
        ),
        EditAction::RemoveRow(i, kind, j) => update_at(
            entries,
            i as int,
            |e: EntryView| e.remove_row(kind, j as int),
        ),
        EditAction::ToggleEntryEnabled(i) => update_at(
            entries,
            i as int,
            |e: EntryView| EntryView { enabled: !e.enabled, ..e },
        ),
        EditAction::SelectAllEntries => with_all_enabled(entries, true),
        EditAction::DeselectAllEntries => with_all_enabled(entries, false),
    }
}

/// The bulk control offered on a render pass.
#[derive(Clone, Copy, Debug, PartialEq, Eq, Structural)]
pub enum BulkToggle {
    EnableAll,
    DisableAll,
}

/// The bulk control that fits the entries: "Disable All" where every entry
/// is enabled, "Enable All" otherwise.
pub open spec fn spec_bulk_toggle(entries: Seq<EntryView>) -> BulkToggle {
    if all_enabled(entries) {
        BulkToggle::DisableAll
    } else {
        BulkToggle::EnableAll
    }
}

impl BulkToggle {
    /// The text shown on the control.
    pub fn label(&self) -> (r: String)
        ensures
            *self == BulkToggle::EnableAll ==> r@ == "Enable All"@,
            *self == BulkToggle::DisableAll ==> r@ == "Disable All"@,
    {
        match self {
            BulkToggle::EnableAll => "Enable All".to_owned(),
            BulkToggle::DisableAll => "Disable All".to_owned(),
        }
    }

    /// The command that the control dispatches.
    pub fn action(&self) -> (r: EditAction)
        ensures
            *self == BulkToggle::EnableAll ==> r is SelectAllEntries,
            *self == BulkToggle::DisableAll ==> r is DeselectAllEntries,
    {
        match self {
            BulkToggle::EnableAll => EditAction::SelectAllEntries,
            BulkToggle::DisableAll => EditAction::DeselectAllEntries,
        }
    }
}

/// The custom games screen: owns the editor for one activation and applies
/// commands to it.
#[derive(Clone, Debug)]
pub struct CustomGamesScreenComponent {
    pub games_editor: CustomGamesEditor,
}

impl CustomGamesScreenComponent {
    /// Builds the editor from the configuration's custom games; an entry is
    /// disabled exactly when its name is listed as disabled.
    pub fn new(config: &Config) -> (r: Self)
        ensures
            r.games_editor@ == spec_from_config(
                records_view(config.custom_games@),
                strings_view(config.disabled_custom_games@),
            ),
    {
        CustomGamesScreenComponent {
            games_editor: CustomGamesEditor::from_config_with_disabled(
                &config.custom_games,
                &config.disabled_custom_games,
            ),
        }
    }

    /// The bulk control for the current entries, computed afresh.
    pub fn bulk_toggle(&self) -> (r: BulkToggle)
        ensures
            r == spec_bulk_toggle(self.games_editor@),
    {
        if self.games_editor.are_all_enabled() {
            BulkToggle::DisableAll
        } else {
            BulkToggle::EnableAll
        }
    }

    /// Applies one command to the editor.
    pub fn apply(&mut self, action: EditAction)
        ensures
            final(self).games_editor@ == spec_apply(old(self).games_editor@, action),
    {
        let editor = &mut self.games_editor;
        match action {
            EditAction::AddEntry => editor.add_entry(),
            EditAction::RemoveEntry(i) => editor.remove_entry(i),
            EditAction::UpdateEntryName(i, name) => editor.set_name(i, name.as_str()),
            EditAction::AddRow(i, kind, value) => editor.add_row(i, kind, value.as_str()),
            EditAction::RemoveRow(i, kind, j) => editor.remove_row(i, kind, j),
            EditAction::ToggleEntryEnabled(i) => editor.toggle_enabled(i),
            EditAction::SelectAllEntries => editor.set_all_enabled(true),
            EditAction::DeselectAllEntries => editor.set_all_enabled(false),
        }
    }
}

} // verus!
