//! Parameterized SQL statements: text with numbered placeholders, and the
//! values bound to them.
use vstd::prelude::*;

verus! {

/// A value bound to a placeholder of a statement.
#[derive(Clone, Debug, PartialEq, Eq)]
pub enum SqlParam {
    Text(String),
    BigInt(i64),
}

/// The model of a bound value.
pub enum ParamValue {
    Text(Seq<char>),
    BigInt(i64),
}

impl View for SqlParam {
    type V = ParamValue;

    open spec fn view(&self) -> ParamValue {
        match self {
            SqlParam::Text(s) => ParamValue::Text(s@),
            SqlParam::BigInt(n) => ParamValue::BigInt(*n),
        }
    }
}

/// A statement: its text refers to `params` as `$1`, `$2`, ... in order.
#[derive(Clone, Debug)]
pub struct SqlQuery {
    pub text: String,
    pub params: Vec<SqlParam>,
}

/// The model of a statement.
pub struct Statement {
    pub text: Seq<char>,
    pub params: Seq<ParamValue>,
}

impl View for SqlQuery {
    type V = Statement;

    open spec fn view(&self) -> Statement {
        Statement { text: self.text@, params: self.params@.map_values(|p: SqlParam| p@) }
    }
}

pub open spec fn digit(n: nat) -> char {
    if n == 1 {
        '1'
    } else if n == 2 {
        '2'
    } else if n == 3 {
        '3'
    } else if n == 4 {
        '4'
    } else {
        '5'
    }
}

/// The placeholder of the `n`-th bound value (`$n`), for `1 <= n <= 5`.
pub open spec fn placeholder(n: nat) -> Seq<char> {
    seq!['$', digit(n)]
}

/// The text of placeholder `$n`.
pub fn placeholder_text(n: usize) -> (r: &'static str)
    requires
        1 <= n <= 5,
    ensures
        r@ == placeholder(n as nat),
{
    if n == 1 {
        proof { reveal_strlit("$1"); }
        "$1"
    } else if n == 2 {
        proof { reveal_strlit("$2"); }
        "$2"
    } else if n == 3 {
        proof { reveal_strlit("$3"); }
        "$3"
    } else if n == 4 {
        proof { reveal_strlit("$4"); }
        "$4"
    } else {
        proof { reveal_strlit("$5"); }
        "$5"
    }
}

} // verus!
