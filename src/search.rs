//! The search statement: a case-insensitive substring match on the name.
use vstd::prelude::*;
use crate::schema::SearchQuery;
use crate::sql::{ParamValue, SqlParam, SqlQuery, Statement};

verus! {

/// The search statement: records whose name matches `$1` regardless of case,
/// in ascending order of name, with no row window.
pub const SEARCH_USERS: &'static str = "SELECT uid, name, birthday, sex FROM users u WHERE u.name ILIKE $1 ORDER BY u.name";

/// The match pattern of a searched name: the name between two `%`
/// wildcards, so that it may stand anywhere in a record's name.
pub open spec fn pattern_of(name: Seq<char>) -> Seq<char> {
    seq!['%'] + name + seq!['%']
}

pub open spec fn search_statement(q: SearchQuery) -> Statement {
    Statement { text: SEARCH_USERS@, params: seq![ParamValue::Text(pattern_of(q.name@))] }
}

/// The match pattern of `name`.
pub fn search_pattern(name: &str) -> (r: String)
    ensures
        r@ == pattern_of(name@),
{
    proof { reveal_strlit("%"); }
    String::from_str("%").concat(name).concat("%")
}

/// The search statement of a request. The name is bound to the
/// placeholder, never written into the text.
pub fn build_search_query(q: &SearchQuery) -> (r: SqlQuery)
    ensures
        r@ == search_statement(*q),
{
    let pattern = search_pattern(q.name.as_str());
    let mut params: Vec<SqlParam> = Vec::new();
    params.push(SqlParam::Text(pattern));
    let r = SqlQuery { text: String::from_str(SEARCH_USERS), params };
    assert(r@.params =~= search_statement(*q).params);
    r
}

} // verus!
