use vstd::prelude::*;

use crate::config::{records_view, strings_view, CustomGame, GameRecord};
use crate::entry::{rows_view, CustomGamesEditorEntry, CustomGamesEditorEntryRow, EntryView, RowKind};

verus! {

/// The entry that stands for a persisted record, enabled or not.
pub open spec fn entry_of_record(r: GameRecord, enabled: bool) -> EntryView {
    EntryView { name: r.name, enabled, files: r.files, registry: r.registry }
}

/// The persisted record that an entry is written back as.
pub open spec fn record_of_entry(e: EntryView) -> GameRecord {
    GameRecord { name: e.name, files: e.files, registry: e.registry }
}

/// The entries built from persisted records: one per record, in order, each
/// disabled exactly when its name is among `disabled`.
pub open spec fn spec_from_config(records: Seq<GameRecord>, disabled: Seq<Seq<char>>) -> Seq<
    EntryView,
> {
    records.map_values(|r: GameRecord| entry_of_record(r, !disabled.contains(r.name)))
}

/// The persisted records written back from entries, in order.
pub open spec fn spec_to_config(entries: Seq<EntryView>) -> Seq<GameRecord> {
    entries.map_values(|e: EntryView| record_of_entry(e))
}

/// Whether every entry is enabled; true of no entries at all.
pub open spec fn all_enabled(entries: Seq<EntryView>) -> bool {
    forall|i: int| 0 <= i < entries.len() ==> #[trigger] entries[i].enabled
}

/// The entries with every flag set to `value`.
pub open spec fn with_all_enabled(entries: Seq<EntryView>, value: bool) -> Seq<EntryView> {
    entries.map_values(|e: EntryView| EntryView { enabled: value, ..e })
}

/// The names of the disabled entries, in order.
pub open spec fn disabled_names(entries: Seq<EntryView>) -> Seq<Seq<char>>
    decreases entries.len(),
{
    if entries.len() == 0 {
        Seq::empty()
    } else {
        let rest = disabled_names(entries.drop_last());
        if entries.last().enabled {
            rest
        } else {
            rest.push(entries.last().name)
        }
    }
}

/// A fresh entry with a blank name.
pub open spec fn blank_entry() -> EntryView {
    EntryView { name: Seq::empty(), enabled: true, files: Seq::empty(), registry: Seq::empty() }
}

/// The entries with the one at `index` replaced by `f` of it; unchanged where
/// there is no such entry.
pub open spec fn update_at(
    entries: Seq<EntryView>,
    index: int,
    f: spec_fn(EntryView) -> EntryView,
) -> Seq<EntryView> {
    if 0 <= index < entries.len() {
        entries.update(index, f(entries[index]))
    } else {
        entries
    }
}

/// The ordered collection of entries that the user edits.
#[derive(Clone, Debug)]
pub struct CustomGamesEditor {
    pub entries: Vec<CustomGamesEditorEntry>,
}

impl View for CustomGamesEditor {
    type V = Seq<EntryView>;

    open spec fn view(&self) -> Seq<EntryView> {
        self.entries@.map_values(|e: CustomGamesEditorEntry| e@)
    }
}

fn rows_of(values: &Vec<String>) -> (r: Vec<CustomGamesEditorEntryRow>)
    ensures
        rows_view(r@) == strings_view(values@),
{
    let mut r: Vec<CustomGamesEditorEntryRow> = Vec::new();
    let mut i: usize = 0;
    while i < values.len()
        invariant
            i <= values.len(),
            r@.len() == i,
            forall|j: int| 0 <= j < i ==> #[trigger] r@[j]@ == values@[j]@,
        decreases values.len() - i,
    {
        r.push(CustomGamesEditorEntryRow::new(values[i].as_str()));
        i += 1;
    }
    assert(rows_view(r@) =~= strings_view(values@));
    r
}

fn values_of(rows: &Vec<CustomGamesEditorEntryRow>) -> (r: Vec<String>)
    ensures
        strings_view(r@) == rows_view(rows@),
{
    let mut r: Vec<String> = Vec::new();
    let mut i: usize = 0;
    while i < rows.len()
        invariant
            i <= rows.len(),
            r@.len() == i,
            forall|j: int| 0 <= j < i ==> #[trigger] r@[j]@ == rows@[j]@,
        decreases rows.len() - i,
    {
        r.push(rows[i].value.clone());
        i += 1;
    }
    assert(strings_view(r@) =~= rows_view(rows@));
    r
}

fn contains_name(names: &Vec<String>, name: &String) -> (r: bool)
    ensures
        r == strings_view(names@).contains(name@),
{
    let mut i: usize = 0;
    while i < names.len()
        invariant
            i <= names.len(),
            forall|j: int| 0 <= j < i ==> names@[j]@ != name@,
        decreases names.len() - i,
    {
        if names[i] == *name {
            assert(strings_view(names@)[i as int] == name@);
            return true;
        }
        i += 1;
    }
    proof {
        if strings_view(names@).contains(name@) {
            let j = choose|j: int|
                0 <= j < strings_view(names@).len() && strings_view(names@)[j] == name@;
            assert(names@[j]@ == name@);
        }
    }
    false
}

impl CustomGamesEditor {
    /// An editor with no entries.
    pub fn new() -> (r: Self)
        ensures
            r@ == Seq::<EntryView>::empty(),
    {
        let r = CustomGamesEditor { entries: Vec::new() };
        assert(r@ =~= Seq::<EntryView>::empty());
        r
    }

    /// Builds one enabled entry per persisted record, in order.
    pub fn from_config(records: &Vec<CustomGame>) -> (r: Self)
        ensures
            r@ == spec_from_config(records_view(records@), Seq::empty()),
    {
        let none: Vec<String> = Vec::new();
        assert(strings_view(none@) =~= Seq::<Seq<char>>::empty());
        Self::from_config_with_disabled(records, &none)
    }

    /// Builds one entry per persisted record, in order; an entry is disabled
    /// exactly when its name is among `disabled`.
    pub fn from_config_with_disabled(records: &Vec<CustomGame>, disabled: &Vec<String>) -> (r: Self)
        ensures
            r@ == spec_from_config(records_view(records@), strings_view(disabled@)),
    {
        let ghost want = spec_from_config(records_view(records@), strings_view(disabled@));
        let mut entries: Vec<CustomGamesEditorEntry> = Vec::new();
        let mut i: usize = 0;
        while i < records.len()
            invariant
                i <= records.len(),
                want == spec_from_config(records_view(records@), strings_view(disabled@)),
                want.len() == records.len(),
                entries@.len() == i,
                forall|j: int| 0 <= j < i ==> #[trigger] entries@[j]@ == want[j],
            decreases records.len() - i,
        {
            let g = &records[i];
            let enabled = !contains_name(disabled, &g.name);
            let entry = CustomGamesEditorEntry {
                name: g.name.clone(),
                enabled,
                files: rows_of(&g.files),
                registry: rows_of(&g.registry),
            };
            assert(records_view(records@)[i as int] == g@);
            assert(want[i as int] == entry_of_record(g@, enabled));
            assert(entry@ == entry_of_record(g@, enabled));
            entries.push(entry);
            i += 1;
        }
        let r = CustomGamesEditor { entries };
        assert(r@ =~= want);
        r
    }

    /// Writes every entry back as a persisted record, in order; blank names
    /// and empty lists are written as they are.
    pub fn to_config(&self) -> (r: Vec<CustomGame>)
        ensures
            records_view(r@) == spec_to_config(self@),
    {
        let mut r: Vec<CustomGame> = Vec::new();
        let mut i: usize = 0;
        while i < self.entries.len()
            invariant
                i <= self.entries.len(),
                r@.len() == i,
                forall|j: int|
                    0 <= j < i ==> #[trigger] r@[j]@ == record_of_entry(self.entries@[j]@),
            decreases self.entries.len() - i,
        {
            let e = &self.entries[i];
            let g = CustomGame {
                name: e.name.clone(),
                files: values_of(&e.files),
                registry: values_of(&e.registry),
            };
            r.push(g);
            i += 1;
        }
        assert(records_view(r@) =~= spec_to_config(self@));
        r
    }

    /// The names of the disabled entries, in order: what the persisted
    /// configuration keeps apart from the records.
    pub fn disabled_names(&self) -> (r: Vec<String>)
        ensures
            strings_view(r@) == disabled_names(self@),
    {
        let mut r: Vec<String> = Vec::new();
        let mut i: usize = 0;
        while i < self.entries.len()
            invariant
                i <= self.entries.len(),
                strings_view(r@) == disabled_names(self@.subrange(0, i as int)),
            decreases self.entries.len() - i,
        {
            let ghost before = r@;
            if !self.entries[i].enabled {
                r.push(self.entries[i].name.clone());
                assert(strings_view(r@) =~= strings_view(before).push(self@[i as int].name));
            }
            assert(self@.subrange(0, i + 1).drop_last() =~= self@.subrange(0, i as int));
            i += 1;
        }
        assert(self@.subrange(0, i as int) =~= self@);
        r
    }

    /// Appends a fresh entry with a blank name.
    pub fn add_entry(&mut self)
        ensures
            final(self)@ == old(self)@.push(blank_entry()),
    {
        let e = CustomGamesEditorEntry::new("");
        proof {
            reveal_strlit("");
        }
        assert(e@.name =~= Seq::<char>::empty());
        self.entries.push(e);
        assert(self@ =~= old(self)@.push(blank_entry()));
    }

    /// Removes the entry at `index`; does nothing where there is no such entry.
    pub fn remove_entry(&mut self, index: usize)
        ensures
            index < old(self)@.len() ==> final(self)@ == old(self)@.remove(index as int),
            index >= old(self)@.len() ==> final(self)@ == old(self)@,
    {
        if index < self.entries.len() {
            self.entries.remove(index);
            assert(self@ =~= old(self)@.remove(index as int));
        }
    }

    /// Appends a row holding `value` to the list of the given kind of the
    /// entry at `entry_index`; does nothing where there is no such entry.
    pub fn add_row(&mut self, entry_index: usize, kind: RowKind, value: &str)
        ensures
            final(self)@ == update_at(
                old(self)@,
                entry_index as int,
                |e: EntryView| e.push_row(kind, value@),
            ),
    {
        if entry_index < self.entries.len() {
            self.entries[entry_index].push_row(kind, value);
            assert(self@ =~= old(self)@.update(
                entry_index as int,
                old(self)@[entry_index as int].push_row(kind, value@),
            ));
        }
    }

    /// Removes the row at `row_index` of the given kind from the entry at
    /// `entry_index`; does nothing where either index is out of range.
    pub fn remove_row(&mut self, entry_index: usize, kind: RowKind, row_index: usize)
        ensures
            final(self)@ == update_at(
                old(self)@,
                entry_index as int,
                |e: EntryView| e.remove_row(kind, row_index as int),
            ),
    {
        if entry_index < self.entries.len() {
            self.entries[entry_index].remove_row(kind, row_index);
            assert(self@ =~= old(self)@.update(
                entry_index as int,
                old(self)@[entry_index as int].remove_row(kind, row_index as int),
            ));
        }
    }

    /// Sets the flag of the entry at `index`; does nothing where there is no
    /// such entry.
    pub fn set_enabled(&mut self, index: usize, value: bool)
        ensures
            final(self)@ == update_at(
                old(self)@,
                index as int,
                |e: EntryView| EntryView { enabled: value, ..e },
            ),
    {
        if index < self.entries.len() {
            self.entries[index].set_enabled(value);
            assert(self@ =~= old(self)@.update(
                index as int,
                EntryView { enabled: value, ..old(self)@[index as int] },
            ));
        }
    }

    /// Flips the flag of the entry at `index`; does nothing where there is no
    /// such entry.
    pub fn toggle_enabled(&mut self, index: usize)
        ensures
            final(self)@ == update_at(
                old(self)@,
                index as int,
                |e: EntryView| EntryView { enabled: !e.enabled, ..e },
            ),
    {
        if index < self.entries.len() {
            let value = !self.entries[index].enabled;
            self.entries[index].set_enabled(value);
            assert(self@ =~= old(self)@.update(
                index as int,
                EntryView { enabled: value, ..old(self)@[index as int] },
            ));
        }
    }

    /// Renames the entry at `index`; does nothing where there is no such entry.
    pub fn set_name(&mut self, index: usize, name: &str)
        ensures
            final(self)@ == update_at(
                old(self)@,
                index as int,
                |e: EntryView| EntryView { name: name@, ..e },
            ),
    {
        if index < self.entries.len() {
            self.entries[index].set_name(name);
            assert(self@ =~= old(self)@.update(
                index as int,
                EntryView { name: name@, ..old(self)@[index as int] },
            ));
        }
    }

    /// Whether every entry is enabled; true where there are no entries.
    pub fn are_all_enabled(&self) -> (r: bool)
        ensures
            r == all_enabled(self@),
    {
        let mut i: usize = 0;
        while i < self.entries.len()
            invariant
                i <= self.entries.len(),
                forall|j: int| 0 <= j < i ==> #[trigger] self@[j].enabled,
            decreases self.entries.len() - i,
        {
            if !self.entries[i].enabled {
                assert(!self@[i as int].enabled);
                return false;
            }
            i += 1;
        }
        true
    }

    /// Sets the flag of every entry to `value`; nothing else changes.
    pub fn set_all_enabled(&mut self, value: bool)
        ensures
            final(self)@ == with_all_enabled(old(self)@, value),
    {
        let ghost want = with_all_enabled(old(self)@, value);
        let mut i: usize = 0;
        while i < self.entries.len()
            invariant
                want == with_all_enabled(old(self)@, value),
                i <= self.entries.len(),
                self.entries.len() == old(self).entries.len(),
                forall|j: int| 0 <= j < i ==> #[trigger] self@[j] == want[j],
                forall|j: int| i <= j < self.entries.len() ==> #[trigger] self@[j] == old(self)@[j],
            decreases self.entries.len() - i,
        {
            let ghost prev = self@;
            self.entries[i].set_enabled(value);
            assert(self@ =~= prev.update(i as int, EntryView { enabled: value, ..prev[i as int] }));
            i += 1;
        }
        assert(self@ =~= want);
    }
}

/// Writing back the entries built from persisted records gives those records
/// again, field for field and in order, whatever names are marked disabled.
pub proof fn lemma_round_trip(records: Seq<GameRecord>, disabled: Seq<Seq<char>>)
    ensures
        spec_to_config(spec_from_config(records, disabled)) == records,
{
    assert(spec_to_config(spec_from_config(records, disabled)) =~= records);
}

/// With no entries, every entry is enabled.
pub proof fn lemma_no_entries_all_enabled(entries: Seq<EntryView>)
    requires
        entries.len() == 0,
    ensures
        all_enabled(entries),
{
}

/// After enabling every entry all are enabled; after disabling every entry
/// all are enabled only where there are no entries.
pub proof fn lemma_bulk_toggle(entries: Seq<EntryView>)
    ensures
        all_enabled(with_all_enabled(entries, true)),
        all_enabled(with_all_enabled(entries, false)) <==> entries.len() == 0,
{
    if entries.len() > 0 {
        assert(!with_all_enabled(entries, false)[0].enabled);
    }
}

/// Adding an entry adds exactly one, at the end, blank and enabled, and
/// moves none of the others.
pub proof fn lemma_add_entry(entries: Seq<EntryView>)
    ensures
        entries.push(blank_entry()).len() == entries.len() + 1,
        entries.push(blank_entry()).last() == blank_entry(),
        entries.push(blank_entry()).subrange(0, entries.len() as int) == entries,
{
    assert(entries.push(blank_entry()).subrange(0, entries.len() as int) =~= entries);
}

/// An edit addressed to an entry that does not exist, or to a row that the
/// addressed entry does not have, leaves the entries as they were.
pub proof fn lemma_invalid_index(
    entries: Seq<EntryView>,
    index: int,
    kind: RowKind,
    row_index: int,
    f: spec_fn(EntryView) -> EntryView,
)
    ensures
        !(0 <= index < entries.len()) ==> update_at(entries, index, f) == entries,
        0 <= index < entries.len() && !(0 <= row_index < entries[index].rows(kind).len())
            ==> update_at(entries, index, |e: EntryView| e.remove_row(kind, row_index))
            == entries,
{
    if 0 <= index < entries.len() && !(0 <= row_index < entries[index].rows(kind).len()) {
        assert(update_at(entries, index, |e: EntryView| e.remove_row(kind, row_index))
            =~= entries);
    }
}

} // verus!
