//! The library's error type.
use vstd::prelude::*;
use vstd::string::*;
use vstd::std_specs::convert::FromSpecImpl;

verus! {

#[derive(Debug)]
pub enum FlowError {
    Stage(String),
    Pipeline(String),
    Agent(String),
    Database(String),
    StageAlreadyRegistered(String),
    StageNotFound(String),
    AgentNotFound(String),
    Other(anyhow::Error),
}

/// The printed form of an error, where the error's own data decide it (all
/// variants but `Other`, which prints the wrapped error).
pub open spec fn error_text(e: &FlowError) -> Seq<char> {
    match e {
        FlowError::Stage(s) => "Stage error: "@ + s@,
        FlowError::Pipeline(s) => "Pipeline error: "@ + s@,
        FlowError::Agent(s) => "Agent error: "@ + s@,
        FlowError::Database(s) => "Database error: "@ + s@,
        FlowError::StageAlreadyRegistered(s) => "Stage "@ + s@ + " already registered"@,
        FlowError::StageNotFound(s) => "Stage "@ + s@ + " not found"@,
        FlowError::AgentNotFound(s) => "Agent "@ + s@ + " not found"@,
        FlowError::Other(_) => Seq::empty(),
    }
}

/// Prints an `anyhow::Error` with `to_string` (its `Display`). What the
/// wrapped error prints is up to that error, so nothing is said of it.
#[verifier::external_body]
fn anyhow_error_text(e: &anyhow::Error) -> String {
    e.to_string()
}

/// Prints a `sqlx::Error` with `to_string` (its `Display`). Its text can come
/// from the operating system or the database, so nothing is said of it.
#[verifier::external_body]
fn sqlx_error_text(e: &sqlx::Error) -> String {
    e.to_string()
}

fn joined(a: &str, b: &String, c: &str) -> (r: String)
    ensures
        r@ == a@ + b@ + c@,
{
    let mut r = String::from_str(a);
    r.append(b.as_str());
    r.append(c);
    r
}

impl FlowError {
    /// The error's message, as it is displayed.
    pub fn message(&self) -> (r: String)
        ensures
            !(self is Other) ==> r@ == error_text(self),
    {
        proof {
            reveal_strlit("");
        }
        match self {
            FlowError::Stage(s) => joined("Stage error: ", s, ""),
            FlowError::Pipeline(s) => joined("Pipeline error: ", s, ""),
            FlowError::Agent(s) => joined("Agent error: ", s, ""),
            FlowError::Database(s) => joined("Database error: ", s, ""),
            FlowError::StageAlreadyRegistered(s) => joined("Stage ", s, " already registered"),
            FlowError::StageNotFound(s) => joined("Stage ", s, " not found"),
            FlowError::AgentNotFound(s) => joined("Agent ", s, " not found"),
            FlowError::Other(e) => anyhow_error_text(e),
        }
    }
}

impl From<anyhow::Error> for FlowError {
    fn from(e: anyhow::Error) -> (r: Self) {
        FlowError::Other(e)
    }
}

impl FromSpecImpl<anyhow::Error> for FlowError {
    open spec fn obeys_from_spec() -> bool {
        true
    }

    open spec fn from_spec(e: anyhow::Error) -> Self {
        FlowError::Other(e)
    }
}

impl From<sqlx::Error> for FlowError {
    /// A database error that carries the printed `sqlx` error.
    fn from(err: sqlx::Error) -> (r: Self)
        ensures
            r is Database,
    {
        FlowError::Database(sqlx_error_text(&err))
    }
}

impl FromSpecImpl<sqlx::Error> for FlowError {
    /// The message comes from the printed `sqlx` error, which no spec names.
    open spec fn obeys_from_spec() -> bool {
        false
    }

    open spec fn from_spec(e: sqlx::Error) -> Self {
        arbitrary()
    }
}

} // verus!
