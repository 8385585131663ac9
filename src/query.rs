//! The lookup statement: one predicate per filter present, ordering by name
//! when a birthday bound is present, and a row window.
use vstd::prelude::*;
use crate::schema::{pagination_of, FilterOptions, InfoQuery, Pagination, QueryError};
use crate::sql::{placeholder, placeholder_text, ParamValue, SqlParam, SqlQuery, Statement};

verus! {

/// Columns of a user record, read from the `users` table.
pub const SELECT_USERS: &'static str = "SELECT uid, name, birthday, sex FROM users u";

/// What a lookup filter compares.
#[derive(Clone, Copy, Debug, PartialEq, Eq, Structural)]
pub enum FilterKind {
    /// The record's `uid` equals the value.
    Uid,
    /// The birthday is at or before the value.
    BornOnOrBefore,
    /// The birthday is at or after the value.
    BornOnOrAfter,
}

/// One predicate of a lookup, with the value bound to it.
pub struct InfoFilter {
    pub kind: FilterKind,
    pub value: Seq<char>,
}

/// What a lookup asks of the store.
pub struct InfoPlan {
    /// Predicates, all of which a record must meet, in this order.
    pub filters: Seq<InfoFilter>,
    /// Whether rows come in ascending order of name.
    pub order_by_name: bool,
    pub window: Pagination,
}

pub open spec fn filter_of(kind: FilterKind, value: Option<String>) -> Seq<InfoFilter> {
    match value {
        Some(v) => seq![InfoFilter { kind, value: v@ }],
        None => seq![],
    }
}

/// The predicates of a lookup: `uid`, then the upper bound, then the lower
/// bound, each where present.
pub open spec fn filters_of(q: InfoQuery) -> Seq<InfoFilter> {
    filter_of(FilterKind::Uid, q.uid) + filter_of(FilterKind::BornOnOrBefore, q.upper_date)
        + filter_of(FilterKind::BornOnOrAfter, q.lower_date)
}

pub open spec fn has_date_bound(q: InfoQuery) -> bool {
    q.upper_date is Some || q.lower_date is Some
}

/// The plan of a lookup, or why it is refused: no filter at all is refused
/// first, then a window that cannot be bound.
pub open spec fn info_plan(q: InfoQuery) -> Result<InfoPlan, QueryError> {
    if filters_of(q).len() == 0 {
        Err(QueryError::MissingFilter)
    } else {
        match pagination_of(FilterOptions { page: q.page, limit: q.limit }) {
            Ok(window) => Ok(InfoPlan { filters: filters_of(q), order_by_name: has_date_bound(q), window }),
            Err(e) => Err(e),
        }
    }
}

/// The text of a predicate of the given kind, whose value is placeholder `$n`.
pub open spec fn predicate_sql(kind: FilterKind, n: nat) -> Seq<char> {
    match kind {
        FilterKind::Uid => "u.uid = "@ + placeholder(n),
        FilterKind::BornOnOrBefore => "u.birthday <= CAST("@ + placeholder(n) + " AS TIMESTAMP)"@,
        FilterKind::BornOnOrAfter => "u.birthday >= CAST("@ + placeholder(n) + " AS TIMESTAMP)"@,
    }
}

pub open spec fn filter_sql(f: InfoFilter, n: nat) -> Seq<char> {
    predicate_sql(f.kind, n)
}

/// The first `k` predicates joined with `AND`, numbered from `$1`.
pub open spec fn filters_sql(fs: Seq<InfoFilter>, k: nat) -> Seq<char>
    decreases k,
{
    if k == 0 {
        seq![]
    } else if k == 1 {
        filter_sql(fs[0], 1)
    } else {
        filters_sql(fs, (k - 1) as nat) + " AND "@ + filter_sql(fs[k - 1], k)
    }
}

pub open spec fn where_sql(fs: Seq<InfoFilter>) -> Seq<char> {
    if fs.len() == 0 {
        seq![]
    } else {
        " WHERE "@ + filters_sql(fs, fs.len())
    }
}

/// The text of a lookup statement.
pub open spec fn info_sql_text(p: InfoPlan) -> Seq<char> {
    let n = p.filters.len();
    SELECT_USERS@ + where_sql(p.filters) + (if p.order_by_name {
        " ORDER BY u.name"@
    } else {
        seq![]
    }) + " LIMIT "@ + placeholder(n + 1) + " OFFSET "@ + placeholder(n + 2)
}

pub open spec fn filter_params(fs: Seq<InfoFilter>) -> Seq<ParamValue> {
    fs.map_values(|f: InfoFilter| ParamValue::Text(f.value))
}

/// The lookup statement of a plan: the filter values, then limit and offset.
pub open spec fn info_statement(p: InfoPlan) -> Statement {
    Statement {
        text: info_sql_text(p),
        params: filter_params(p.filters) + seq![
            ParamValue::BigInt(p.window.limit),
            ParamValue::BigInt(p.window.offset),
        ],
    }
}

proof fn lemma_filters_sql_push(fs: Seq<InfoFilter>, f: InfoFilter, k: nat)
    requires
        k <= fs.len(),
    ensures
        filters_sql(fs.push(f), k) == filters_sql(fs, k),
    decreases k,
{
    if k > 1 {
        lemma_filters_sql_push(fs, f, (k - 1) as nat);
        assert(fs.push(f)[k - 1] == fs[k - 1]);
    } else if k == 1 {
        assert(fs.push(f)[0] == fs[0]);
    }
}

fn predicate_text(kind: FilterKind, n: usize) -> (r: String)
    requires
        1 <= n <= 5,
    ensures
        r@ == predicate_sql(kind, n as nat),
{
    match kind {
        FilterKind::Uid => String::from_str("u.uid = ").concat(placeholder_text(n)),
        FilterKind::BornOnOrBefore => String::from_str("u.birthday <= CAST(").concat(
            placeholder_text(n),
        ).concat(" AS TIMESTAMP)"),
        FilterKind::BornOnOrAfter => String::from_str("u.birthday >= CAST(").concat(
            placeholder_text(n),
        ).concat(" AS TIMESTAMP)"),
    }
}

/// Appends the predicate of `kind` on `value` to a statement under
/// construction that holds the predicates `fs`.
fn push_filter(
    text: &mut String,
    params: &mut Vec<SqlParam>,
    Ghost(fs): Ghost<Seq<InfoFilter>>,
    kind: FilterKind,
    value: &String,
)
    requires
        fs.len() < 3,
        old(text)@ == SELECT_USERS@ + where_sql(fs),
        old(params)@.map_values(|p: SqlParam| p@) == filter_params(fs),
        old(params)@.len() == fs.len(),
    ensures
        final(text)@ == SELECT_USERS@ + where_sql(fs.push(InfoFilter { kind, value: value@ })),
        final(params)@.map_values(|p: SqlParam| p@) == filter_params(
            fs.push(InfoFilter { kind, value: value@ }),
        ),
        final(params)@.len() == fs.len() + 1,
{
    let ghost f = InfoFilter { kind, value: value@ };
    let ghost gs = fs.push(f);
    let ghost old_params = params@;
    let n = params.len() + 1;
    proof {
        lemma_filters_sql_push(fs, f, fs.len());
        assert(gs[fs.len() as int] == f);
    }
    if params.len() == 0 {
        text.append(" WHERE ");
        text.append(predicate_text(kind, n).as_str());
        assert(filters_sql(gs, 1) == filter_sql(f, 1));
        assert(text@ =~= SELECT_USERS@ + where_sql(gs));
    } else {
        text.append(" AND ");
        text.append(predicate_text(kind, n).as_str());
        assert(text@ =~= SELECT_USERS@ + where_sql(gs));
    }
    let v = value.clone();
    params.push(SqlParam::Text(v));
    proof {
        assert(params@ == old_params.push(SqlParam::Text(v)));
        assert(old_params.push(SqlParam::Text(v)).map_values(|p: SqlParam| p@) =~= old_params.map_values(
            |p: SqlParam| p@,
        ).push(ParamValue::Text(value@)));
        assert(filter_params(gs) =~= filter_params(fs).push(ParamValue::Text(value@)));
    }
}

/// The lookup statement of a request, or why it is refused before any
/// store access. Every value is bound to a placeholder; none is written into
/// the text.
pub fn build_info_query(q: &InfoQuery) -> (r: Result<SqlQuery, QueryError>)
    ensures
        match r {
            Ok(stmt) => info_plan(*q) is Ok && stmt@ == info_statement(info_plan(*q)->Ok_0),
            Err(e) => info_plan(*q) == Err::<InfoPlan, QueryError>(e),
        },
{
    if q.uid.is_none() && q.upper_date.is_none() && q.lower_date.is_none() {
        return Err(QueryError::MissingFilter);
    }
    let window = match q.filter_options().pagination() {
        Ok(w) => w,
        Err(e) => return Err(e),
    };
    let ghost plan = info_plan(*q)->Ok_0;
    let mut text = String::from_str(SELECT_USERS);
    let mut params: Vec<SqlParam> = Vec::new();
    let ghost mut fs: Seq<InfoFilter> = seq![];
    assert(text@ =~= SELECT_USERS@ + where_sql(fs));
    assert(params@.map_values(|p: SqlParam| p@) =~= filter_params(fs));
    if let Some(uid) = &q.uid {
        push_filter(&mut text, &mut params, Ghost(fs), FilterKind::Uid, uid);
        proof { fs = fs.push(InfoFilter { kind: FilterKind::Uid, value: uid@ }); }
    }
    if let Some(upper) = &q.upper_date {
        push_filter(&mut text, &mut params, Ghost(fs), FilterKind::BornOnOrBefore, upper);
        proof { fs = fs.push(InfoFilter { kind: FilterKind::BornOnOrBefore, value: upper@ }); }
    }
    if let Some(lower) = &q.lower_date {
        push_filter(&mut text, &mut params, Ghost(fs), FilterKind::BornOnOrAfter, lower);
        proof { fs = fs.push(InfoFilter { kind: FilterKind::BornOnOrAfter, value: lower@ }); }
    }
    assert(fs =~= filters_of(*q));
    if q.upper_date.is_some() || q.lower_date.is_some() {
        text.append(" ORDER BY u.name");
    }
    let n = params.len();
    text.append(" LIMIT ");
    text.append(placeholder_text(n + 1));
    text.append(" OFFSET ");
    text.append(placeholder_text(n + 2));
    let ghost before = params@;
    params.push(SqlParam::BigInt(window.limit));
    params.push(SqlParam::BigInt(window.offset));
    let stmt = SqlQuery { text, params };
    proof {
        assert(stmt.text@ =~= info_sql_text(plan));
        assert(stmt.params@ == before.push(SqlParam::BigInt(window.limit)).push(
            SqlParam::BigInt(window.offset),
        ));
        assert(stmt@.params =~= info_statement(plan).params);
    }
    Ok(stmt)
}

/// A lookup by `uid` alone has exactly the one equality predicate on `uid`
/// and no ordering; with paging absent it reads the first 10 rows.
pub proof fn lemma_uid_only_plan(q: InfoQuery)
    requires
        q.uid is Some,
        q.upper_date is None,
        q.lower_date is None,
    ensures
        info_plan(q) matches Ok(p) ==> {
            &&& p.filters == seq![InfoFilter { kind: FilterKind::Uid, value: q.uid->Some_0@ }]
            &&& !p.order_by_name
        },
        q.page is None && q.limit is None ==> info_plan(q) == Ok::<InfoPlan, QueryError>(
            InfoPlan {
                filters: seq![InfoFilter { kind: FilterKind::Uid, value: q.uid->Some_0@ }],
                order_by_name: false,
                window: Pagination { limit: 10, offset: 0 },
            },
        ),
{
    assert(filters_of(q) =~= seq![InfoFilter { kind: FilterKind::Uid, value: q.uid->Some_0@ }]);
}

/// A lookup with a lower birthday bound returns rows in ascending order of
/// name; with paging absent it is never refused.
pub proof fn lemma_lower_bound_orders_by_name(q: InfoQuery)
    requires
        q.lower_date is Some,
    ensures
        info_plan(q) matches Ok(p) ==> p.order_by_name,
        q.page is None && q.limit is None ==> info_plan(q) is Ok,
{
    assert(filters_of(q).len() > 0);
}

} // verus!
