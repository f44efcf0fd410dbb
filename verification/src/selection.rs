//! The selection controller: what a result of the selector means for the
//! search.

use vstd::prelude::*;
use crate::history::History;
use crate::location::Location;

verus! {

/// The key that ended one run of the selector, as far as the controller
/// tells keys apart.
#[derive(Clone, Copy, Debug, PartialEq, Eq, Structural)]
pub enum Key {
    /// Escape.
    ESC,
    /// Return.
    Enter,
    /// A letter pressed together with Control.
    Ctrl(char),
    /// A function key, by its number.
    F(u8),
    /// Any other key.
    Other,
}

/// What a key asks the controller to do.
#[derive(Clone, Copy, Debug, PartialEq, Eq, Structural)]
pub enum KeyAction {
    /// Give up the search.
    Abort,
    /// Take the selection, or the query if nothing is selected.
    Confirm,
    /// Show the given scope.
    SetScope(Location),
    /// Show the scope that follows the present one.
    CycleScope,
    /// Switch grouping on or off.
    ToggleGrouping,
    /// Nothing of the above.
    Nothing,
}

/// The meaning of each key: Escape and Control with `c`, `d` or `z` abort,
/// Return confirms, F1 to F4 pick a scope, F5 toggles grouping, Control
/// with `r` cycles the scope. Every other key means nothing.
pub open spec fn key_action(key: Key) -> KeyAction {
    match key {
        Key::ESC => KeyAction::Abort,
        Key::Ctrl(c) => if c == 'c' || c == 'd' || c == 'z' {
            KeyAction::Abort
        } else if c == 'r' {
            KeyAction::CycleScope
        } else {
            KeyAction::Nothing
        },
        Key::Enter => KeyAction::Confirm,
        Key::F(n) => if n == 1 {
            KeyAction::SetScope(Location::Session)
        } else if n == 2 {
            KeyAction::SetScope(Location::Directory)
        } else if n == 3 {
            KeyAction::SetScope(Location::Machine)
        } else if n == 4 {
            KeyAction::SetScope(Location::Everywhere)
        } else if n == 5 {
            KeyAction::ToggleGrouping
        } else {
            KeyAction::Nothing
        },
        Key::Other => KeyAction::Nothing,
    }
}

/// Looks up what a key asks for.
pub fn classify_key(key: Key) -> (action: KeyAction)
    ensures
        action == key_action(key),
{
    match key {
        Key::ESC => KeyAction::Abort,
        Key::Ctrl(c) => {
            if c == 'c' || c == 'd' || c == 'z' {
                KeyAction::Abort
            } else if c == 'r' {
                KeyAction::CycleScope
            } else {
                KeyAction::Nothing
            }
        },
        Key::Enter => KeyAction::Confirm,
        Key::F(n) => {
            if n == 1 {
                KeyAction::SetScope(Location::Session)
            } else if n == 2 {
                KeyAction::SetScope(Location::Directory)
            } else if n == 3 {
                KeyAction::SetScope(Location::Machine)
            } else if n == 4 {
                KeyAction::SetScope(Location::Everywhere)
            } else if n == 5 {
                KeyAction::ToggleGrouping
            } else {
                KeyAction::Nothing
            }
        },
        Key::Other => KeyAction::Nothing,
    }
}

/// What one run of the selector came back with.
pub struct SelectorOutput {
    /// The key that ended the run.
    pub final_key: Key,
    /// The record under the cursor, if the list was not empty.
    pub selected: Option<History>,
    /// The query text as the user left it.
    pub query: String,
}

/// The controller's reading of a selector result.
pub enum SelectionResult {
    /// The search ends with this command text.
    Command(String),
    /// The search ends with the query text: nothing was selected.
    NullCommand,
    /// The selector is shown again.
    Continue,
    /// The search is given up.
    Abort,
}

/// The scope that a key leaves behind.
pub open spec fn scope_after(key: Key, loc: Location) -> Location {
    match key_action(key) {
        KeyAction::SetScope(scope) => scope,
        KeyAction::CycleScope => loc.successor(),
        _ => loc,
    }
}

/// The grouping that a key leaves behind.
pub open spec fn grouping_after(key: Key, grouped: bool) -> bool {
    if key_action(key) == KeyAction::ToggleGrouping {
        !grouped
    } else {
        grouped
    }
}

/// The scope in which a search starts: the session, if the shell has
/// named one, and the directory otherwise.
pub fn get_starting_location(session_id: &str) -> (location: Location)
    ensures
        location == if session_id@.len() == 0 {
            Location::Directory
        } else {
            Location::Session
        },
{
    let mut location = Location::Session;
    if session_id.is_empty() {
        location = Location::Directory;
    }
    location
}

/// Reads a selector result and applies it to scope and grouping.
///
/// An abort key ends the search and so does Return, with the command of
/// the selected record or, where none is selected, with the query. The
/// scope keys, the cycle key and the grouping key change the settings and
/// let the search go on; every other key lets it go on unchanged, and so
/// does a selector that came back with nothing.
pub fn process_result(
    selected_items: &Option<SelectorOutput>,
    loc: &mut Location,
    grouped: &mut bool,
) -> (result: SelectionResult)
    ensures
        match *selected_items {
            None => {
                &&& result is Continue
                &&& *final(loc) == *old(loc)
                &&& *final(grouped) == *old(grouped)
            },
            Some(sel) => {
                &&& *final(loc) == scope_after(sel.final_key, *old(loc))
                &&& *final(grouped) == grouping_after(sel.final_key, *old(grouped))
                &&& match key_action(sel.final_key) {
                    KeyAction::Abort => result is Abort,
                    KeyAction::Confirm => match sel.selected {
                        Some(record) => result == SelectionResult::Command(record.cmd),
                        None => result is NullCommand,
                    },
                    _ => result is Continue,
                }
            },
        },
{
    match selected_items {
        None => SelectionResult::Continue,
        Some(sel) => {
            match classify_key(sel.final_key) {
                KeyAction::Abort => SelectionResult::Abort,
                KeyAction::Confirm => match &sel.selected {
                    Some(record) => SelectionResult::Command(record.command().clone()),
                    None => SelectionResult::NullCommand,
                },
                KeyAction::SetScope(scope) => {
                    *loc = scope;
                    SelectionResult::Continue
                },
                KeyAction::CycleScope => {
                    *loc = loc.next();
                    SelectionResult::Continue
                },
                KeyAction::ToggleGrouping => {
                    *grouped = !*grouped;
                    SelectionResult::Continue
                },
                KeyAction::Nothing => SelectionResult::Continue,
            }
        },
    }
}

/// The state of a search between two runs of the selector.
pub struct Controller {
    /// The scope to show next.
    pub location: Location,
    /// Whether the next pass groups equal command texts.
    pub grouped: bool,
    /// The query text that the selector starts with.
    pub query: String,
}

/// Where a search stands after a selector result.
pub open spec fn outcome_of(sel: SelectorOutput) -> Option<Result<Seq<char>, Seq<char>>> {
    match key_action(sel.final_key) {
        KeyAction::Abort => Some(Err("Aborted"@)),
        KeyAction::Confirm => match sel.selected {
            Some(record) => Some(Ok(record.cmd@)),
            None => Some(Ok(sel.query@)),
        },
        _ => None,
    }
}

/// The text of a result, for comparing results by what they say.
pub open spec fn outcome_text(outcome: Option<Result<String, String>>) -> Option<
    Result<Seq<char>, Seq<char>>,
> {
    match outcome {
        Some(Ok(text)) => Some(Ok(text@)),
        Some(Err(text)) => Some(Err(text@)),
        None => None,
    }
}

impl Controller {
    /// The state in which a search starts: the starting scope for the
    /// session identifier, grouping on, and the query as given.
    pub fn new(session_id: &str, query: String) -> (state: Self)
        ensures
            state.location == if session_id@.len() == 0 {
                Location::Directory
            } else {
                Location::Session
            },
            state.grouped,
            state.query == query,
    {
        Controller { location: get_starting_location(session_id), grouped: true, query }
    }

    /// Takes a selector result and decides how the search goes on.
    ///
    /// `None` means that the selector is shown again, with the scope and
    /// grouping that the key asked for and with the query that the user
    /// left. `Some` ends the search: with the command of the selected
    /// record, with the query where nothing was selected, or with the
    /// error `Aborted`. A search that ends leaves the state as it was.
    pub fn advance(&mut self, output: SelectorOutput) -> (outcome: Option<Result<String, String>>)
        ensures
            outcome_text(outcome) == outcome_of(output),
            final(self).location == scope_after(output.final_key, old(self).location),
            final(self).grouped == grouping_after(output.final_key, old(self).grouped),
            outcome is None ==> final(self).query == output.query,
            outcome is Some ==> final(self).query == old(self).query,
    {
        let selected_items = Some(output);
        let result = process_result(&selected_items, &mut self.location, &mut self.grouped);
        let output = selected_items.unwrap();
        match result {
            SelectionResult::Abort => Some(Err("Aborted".to_string())),
            SelectionResult::Continue => {
                self.query = output.query;
                None
            },
            SelectionResult::Command(command) => Some(Ok(command)),
            SelectionResult::NullCommand => Some(Ok(output.query)),
        }
    }
}

/// A key that ends the search changes neither scope nor grouping, and a
/// key that changes one of them never ends the search.
pub proof fn lemma_ending_keys_change_nothing(key: Key, loc: Location, grouped: bool)
    ensures
        key_action(key) == KeyAction::Abort || key_action(key) == KeyAction::Confirm ==> scope_after(
            key,
            loc,
        ) == loc && grouping_after(key, grouped) == grouped,
        scope_after(key, loc) != loc || grouping_after(key, grouped) != grouped ==> key_action(key)
            != KeyAction::Abort && key_action(key) != KeyAction::Confirm,
{
}

} // verus!
