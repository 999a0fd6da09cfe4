pub mod flow;
pub mod miror_agent;
pub mod miror_body;
pub mod path_vars;
pub mod query_params;
pub mod return_json;
pub mod users;
pub mod validate_users;
