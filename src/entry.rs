use vstd::prelude::*;

verus! {

/// Which of an entry's two pattern lists a row belongs to.
#[derive(Clone, Copy, Debug, PartialEq, Eq, Structural)]
pub enum RowKind {
    Files,
    Registry,
}

/// One file-path or registry-key pattern, stored verbatim.
#[derive(Clone, Debug)]
pub struct CustomGamesEditorEntryRow {
    pub value: String,
}

impl View for CustomGamesEditorEntryRow {
    type V = Seq<char>;

    open spec fn view(&self) -> Seq<char> {
        self.value@
    }
}

impl CustomGamesEditorEntryRow {
    pub fn new(value: &str) -> (r: Self)
        ensures
            r@ == value@,
    {
        CustomGamesEditorEntryRow { value: value.to_owned() }
    }
}

/// The abstract value of an entry: its name, its flag and its two ordered
/// lists of patterns.
pub struct EntryView {
    pub name: Seq<char>,
    pub enabled: bool,
    pub files: Seq<Seq<char>>,
    pub registry: Seq<Seq<char>>,
}

/// The patterns held by a list of rows, in order.
pub open spec fn rows_view(rows: Seq<CustomGamesEditorEntryRow>) -> Seq<Seq<char>> {
    rows.map_values(|r: CustomGamesEditorEntryRow| r@)
}

/// An entry as the user edits it.
#[derive(Clone, Debug)]
pub struct CustomGamesEditorEntry {
    pub name: String,
    pub enabled: bool,
    pub files: Vec<CustomGamesEditorEntryRow>,
    pub registry: Vec<CustomGamesEditorEntryRow>,
}

impl View for CustomGamesEditorEntry {
    type V = EntryView;

    open spec fn view(&self) -> EntryView {
        EntryView {
            name: self.name@,
            enabled: self.enabled,
            files: rows_view(self.files@),
            registry: rows_view(self.registry@),
        }
    }
}

impl EntryView {
    /// The list of patterns of the given kind.
    pub open spec fn rows(self, kind: RowKind) -> Seq<Seq<char>> {
        match kind {
            RowKind::Files => self.files,
            RowKind::Registry => self.registry,
        }
    }

    /// This entry with the list of the given kind replaced.
    pub open spec fn with_rows(self, kind: RowKind, rows: Seq<Seq<char>>) -> EntryView {
        match kind {
            RowKind::Files => EntryView { files: rows, ..self },
            RowKind::Registry => EntryView { registry: rows, ..self },
        }
    }

    /// This entry with a pattern appended to the list of the given kind.
    pub open spec fn push_row(self, kind: RowKind, value: Seq<char>) -> EntryView {
        self.with_rows(kind, self.rows(kind).push(value))
    }

    /// This entry without the row at `index` of the given kind; unchanged
    /// where there is no such row.
    pub open spec fn remove_row(self, kind: RowKind, index: int) -> EntryView {
        if 0 <= index < self.rows(kind).len() {
            self.with_rows(kind, self.rows(kind).remove(index))
        } else {
            self
        }
    }
}

proof fn lemma_rows_push(rows: Seq<CustomGamesEditorEntryRow>, r: CustomGamesEditorEntryRow)
    ensures
        rows_view(rows.push(r)) == rows_view(rows).push(r@),
{
    assert(rows_view(rows.push(r)) =~= rows_view(rows).push(r@));
}

proof fn lemma_rows_remove(rows: Seq<CustomGamesEditorEntryRow>, i: int)
    requires
        0 <= i < rows.len(),
    ensures
        rows_view(rows.remove(i)) == rows_view(rows).remove(i),
{
    assert(rows_view(rows.remove(i)) =~= rows_view(rows).remove(i));
}

impl CustomGamesEditorEntry {
    /// A fresh entry: the given name, no rows, enabled.
    pub fn new(name: &str) -> (r: Self)
        ensures
            r@ == (EntryView {
                name: name@,
                enabled: true,
                files: Seq::empty(),
                registry: Seq::empty(),
            }),
    {
        let r = CustomGamesEditorEntry {
            name: name.to_owned(),
            enabled: true,
            files: Vec::new(),
            registry: Vec::new(),
        };
        assert(r@.files =~= Seq::<Seq<char>>::empty());
        assert(r@.registry =~= Seq::<Seq<char>>::empty());
        r
    }

    /// Appends a row holding `value` to the list of the given kind.
    pub fn push_row(&mut self, kind: RowKind, value: &str)
        ensures
            final(self)@ == old(self)@.push_row(kind, value@),
    {
        let row = CustomGamesEditorEntryRow::new(value);
        proof {
            lemma_rows_push(self.files@, row);
            lemma_rows_push(self.registry@, row);
        }
        match kind {
            RowKind::Files => self.files.push(row),
            RowKind::Registry => self.registry.push(row),
        }
    }

    /// Removes the row at `index` of the given kind; does nothing where there
    /// is no such row.
    pub fn remove_row(&mut self, kind: RowKind, index: usize)
        ensures
            final(self)@ == old(self)@.remove_row(kind, index as int),
    {
        match kind {
            RowKind::Files => {
                if index < self.files.len() {
                    proof {
                        lemma_rows_remove(self.files@, index as int);
                    }
                    self.files.remove(index);
                }
            },
            RowKind::Registry => {
                if index < self.registry.len() {
                    proof {
                        lemma_rows_remove(self.registry@, index as int);
                    }
                    self.registry.remove(index);
                }
            },
        }
    }

    /// Sets the enabled flag; the rows are untouched.
    pub fn set_enabled(&mut self, enabled: bool)
        ensures
            final(self)@ == (EntryView { enabled, ..old(self)@ }),
    {
        self.enabled = enabled;
    }

    /// Replaces the name; everything else is untouched.
    pub fn set_name(&mut self, name: &str)
        ensures
            final(self)@ == (EntryView { name: name@, ..old(self)@ }),
    {
        self.name = name.to_owned();
    }
}

} // verus!
