//! The one query that loads the history.

use vstd::prelude::*;

verus! {

/// The text of the query: every execution with its command, place and
/// session, newest first. Scope and grouping are not part of it; they are
/// applied to the loaded records.
pub open spec fn query_text() -> Seq<char> {
    "select history.id as id, commands.argv as cmd, start_time as start, exit_status, duration, 1 as count, history.session as session, places.host as host, places.dir as dir from history left join commands on history.command_id = commands.id left join places on history.place_id = places.id order by start desc"@
}

/// Builds the query that the store reader runs.
pub fn build_query_string() -> (query: String)
    ensures
        query@ == query_text(),
{
    let mut query = String::from_str("select history.id as id, commands.argv as cmd,");
    query.append(" start_time");
    query.append(" as start, exit_status, duration,");
    query.append(" 1");
    query.append(" as count, history.session as session, places.host as host, places.dir as dir");
    query.append(" from history");
    query.append(" left join commands on history.command_id = commands.id");
    query.append(" left join places on history.place_id = places.id");
    query.append(" order by start desc");
    proof {
        reveal_strlit("select history.id as id, commands.argv as cmd,");
        reveal_strlit(" start_time");
        reveal_strlit(" as start, exit_status, duration,");
        reveal_strlit(" 1");
        reveal_strlit(
            " as count, history.session as session, places.host as host, places.dir as dir",
        );
        reveal_strlit(" from history");
        reveal_strlit(" left join commands on history.command_id = commands.id");
        reveal_strlit(" left join places on history.place_id = places.id");
        reveal_strlit(" order by start desc");
        reveal_strlit(
            "select history.id as id, commands.argv as cmd, start_time as start, exit_status, duration, 1 as count, history.session as session, places.host as host, places.dir as dir from history left join commands on history.command_id = commands.id left join places on history.place_id = places.id order by start desc",
        );
    }
    query
}

} // verus!
