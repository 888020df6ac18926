use vstd::prelude::*;

verus! {

/// The patterns held by a list of strings, in order.
pub open spec fn strings_view(s: Seq<String>) -> Seq<Seq<char>> {
    s.map_values(|x: String| x@)
}

/// The abstract value of a persisted record.
pub struct GameRecord {
    pub name: Seq<char>,
    pub files: Seq<Seq<char>>,
    pub registry: Seq<Seq<char>>,
}

/// A custom game as it is persisted: a name and two ordered lists of patterns.
#[derive(Clone, Debug)]
pub struct CustomGame {
    pub name: String,
    pub files: Vec<String>,
    pub registry: Vec<String>,
}

impl View for CustomGame {
    type V = GameRecord;

    open spec fn view(&self) -> GameRecord {
        GameRecord {
            name: self.name@,
            files: strings_view(self.files@),
            registry: strings_view(self.registry@),
        }
    }
}

/// The abstract value of a list of persisted records.
pub open spec fn records_view(s: Seq<CustomGame>) -> Seq<GameRecord> {
    s.map_values(|g: CustomGame| g@)
}

/// The custom-games section of the persisted configuration. Whether a game
/// is enabled is kept apart from the records, as a list of the names of the
/// games that are disabled.
#[derive(Clone, Debug)]
pub struct Config {
    pub custom_games: Vec<CustomGame>,
    pub disabled_custom_games: Vec<String>,
}

} // verus!
