//! One executed command as it is loaded from the history store.

use vstd::prelude::*;

verus! {

/// A command execution read from the store. Records are never changed
/// after they are built.
#[derive(Debug)]
pub struct History {
    pub id: i64,
    pub cmd: String,
    pub start: u64,
    pub exit_status: Option<i64>,
    pub duration: Option<i64>,
    pub count: i64,
    pub session: i64,
    pub host: String,
    pub dir: String,
    /// The part of the listing line that the selector matches against.
    pub searchrange: [(usize, usize); 1],
}

impl History {
    /// Width of the date column in a listing line.
    pub const FORMAT_DATE_LENGTH: usize = 10;

    /// Offset of the command text in a listing line: the date column and
    /// one separating blank.
    pub const COMMAND_START: usize = History::FORMAT_DATE_LENGTH + 1;

    /// Length of the command text in bytes, as the store hands it over.
    pub open spec fn command_len(command: Seq<char>) -> nat {
        vstd::utf8::encode_utf8(command).len()
    }

    /// The range of a listing line that holds a command: it starts behind
    /// the date column and is as long as the command.
    pub open spec fn highlight(command: Seq<char>) -> (usize, usize) {
        (History::COMMAND_START, (Self::command_len(command) + History::COMMAND_START) as usize)
    }

    /// A record whose search range covers exactly its command.
    pub open spec fn well_formed(&self) -> bool {
        &&& Self::command_len(self.cmd@) + History::COMMAND_START <= usize::MAX
        &&& self.searchrange[0] == Self::highlight(self.cmd@)
    }

    /// Builds the record for one row of the store and computes its search
    /// range.
    pub fn from_row(
        id: i64,
        cmd: String,
        start: u64,
        exit_status: Option<i64>,
        duration: Option<i64>,
        count: i64,
        session: i64,
        host: String,
        dir: String,
    ) -> (record: History)
        requires
            Self::command_len(cmd@) + History::COMMAND_START <= usize::MAX,
        ensures
            record.well_formed(),
            record.id == id,
            record.cmd == cmd,
            record.start == start,
            record.exit_status == exit_status,
            record.duration == duration,
            record.count == count,
            record.session == session,
            record.host == host,
            record.dir == dir,
    {
        let commandend: usize = cmd.as_str().len();
        History {
            id,
            cmd,
            start,
            exit_status,
            duration,
            count,
            session,
            host,
            dir,
            searchrange: [(History::COMMAND_START, commandend + History::COMMAND_START)],
        }
    }

    /// The command text.
    pub fn command(&self) -> (text: &String)
        ensures
            text == self.cmd,
    {
        &self.cmd
    }

    /// The range of the listing line that the selector searches.
    pub fn get_matching_ranges(&self) -> (ranges: Option<&[(usize, usize)]>)
        ensures
            ranges is Some,
            ranges->0@ == self.searchrange@,
    {
        Some(self.searchrange.as_slice())
    }
}

impl Clone for History {
    fn clone(&self) -> (copy: Self)
        ensures
            copy == *self,
    {
        History {
            id: self.id,
            cmd: self.cmd.clone(),
            start: self.start,
            exit_status: self.exit_status,
            duration: self.duration,
            count: self.count,
            session: self.session,
            host: self.host.clone(),
            dir: self.dir.clone(),
            searchrange: self.searchrange,
        }
    }
}

} // verus!
