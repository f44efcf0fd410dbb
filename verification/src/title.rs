//! The header that the selector shows above the list.

use vstd::prelude::*;
use crate::location::Location;

verus! {

/// The name under which a scope is shown.
pub open spec fn scope_name(location: Location) -> Seq<char> {
    match location {
        Location::Session => "Session location history"@,
        Location::Directory => "Directory location history"@,
        Location::Machine => "Machine location history"@,
        Location::Everywhere => "Everywhere"@,
    }
}

/// The line that names the keys.
pub open spec fn key_help() -> Seq<char> {
    "F1: Session  F2: Directory  F3: Host  F4: Everywhere  Ctrl-R: Next  F5: Group "@
}

/// The header for a scope: its name and what it is bound to (the
/// session, the directory or the host), then the keys and whether
/// grouping is on.
pub open spec fn title_text(location: Location, grouped: bool, detail: Seq<char>) -> Seq<char> {
    scope_name(location) + " "@ + detail + "\n"@ + key_help() + (if grouped {
        "on"@
    } else {
        "off"@
    }) + "\n"@
}

/// Writes the header for the selector.
pub fn generate_title(location: &Location, grouped: bool, detail: &str) -> (title: String)
    ensures
        title@ == title_text(*location, grouped, detail@),
{
    let mut title = String::from_str(
        match location {
            Location::Session => "Session location history",
            Location::Directory => "Directory location history",
            Location::Machine => "Machine location history",
            Location::Everywhere => "Everywhere",
        },
    );
    title.append(" ");
    title.append(detail);
    title.append("\n");
    title.append("F1: Session  F2: Directory  F3: Host  F4: Everywhere  Ctrl-R: Next  F5: Group ");
    title.append(if grouped { "on" } else { "off" });
    title.append("\n");
    title
}

} // verus!
