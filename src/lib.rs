//! Query construction and response mapping for a small user-lookup service.
//!
//! Request parameters become parameterized SQL statements, and store outcomes
//! become responses. Running the statements and speaking HTTP is left to the
//! caller.
pub mod handler;
pub mod model;
pub mod query;
pub mod schema;
pub mod search;
pub mod sql;

pub use handler::{
    error_response, health_checker_handler, info_action, info_response, search_response, InfoAction,
    Response, ResponseBody,
};
pub use model::UserModel;
pub use query::build_info_query;
pub use schema::{FilterOptions, InfoQuery, Pagination, QueryError, SearchQuery};
pub use search::{build_search_query, search_pattern};
pub use sql::{SqlParam, SqlQuery};
