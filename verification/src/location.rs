//! The scope of a history search.

use vstd::prelude::*;

verus! {

/// Which part of the history is shown.
#[derive(Clone, Copy, Debug, PartialEq, Eq, Structural)]
pub enum Location {
    /// Commands of the current shell session on this host.
    Session,
    /// Commands run in the current directory on this host.
    Directory,
    /// Commands run on this host.
    Machine,
    /// Every command in the store.
    Everywhere,
}

impl Location {
    /// The scope that follows `self` in the cycle
    /// Session, Directory, Machine, Everywhere, Session.
    pub open spec fn successor(self) -> Location {
        match self {
            Location::Session => Location::Directory,
            Location::Directory => Location::Machine,
            Location::Machine => Location::Everywhere,
            Location::Everywhere => Location::Session,
        }
    }

    /// Position of the scope in the cycle, starting at 0 for `Session`.
    pub open spec fn rank(self) -> int {
        match self {
            Location::Session => 0,
            Location::Directory => 1,
            Location::Machine => 2,
            Location::Everywhere => 3,
        }
    }

    /// Advances to the next scope of the cycle.
    pub fn next(&self) -> (next: Location)
        ensures
            next == self.successor(),
    {
        match self {
            Location::Session => Location::Directory,
            Location::Directory => Location::Machine,
            Location::Machine => Location::Everywhere,
            Location::Everywhere => Location::Session,
        }
    }
}

/// The successor moves one position forward in the cycle and wraps after
/// the last scope, so four steps lead back to the start and fewer do not.
pub proof fn lemma_successor_cycles(scope: Location)
    ensures
        scope.successor().rank() == (scope.rank() + 1) % 4,
        scope.successor().successor().successor().successor() == scope,
        scope.successor() != scope,
        scope.successor().successor() != scope,
        scope.successor().successor().successor() != scope,
{
}

} // verus!
