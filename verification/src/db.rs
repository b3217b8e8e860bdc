//! The messages of the database channel's failures.
use vstd::prelude::*;
use vstd::string::*;

verus! {

/// The operations sent to the database worker.
#[derive(Debug, Clone, Copy, PartialEq, Eq, Structural)]
pub enum DbOperationKind {
    Insert,
    Update,
}

/// The name of an operation in messages.
pub open spec fn operation_text(kind: DbOperationKind) -> Seq<char> {
    match kind {
        DbOperationKind::Insert => "insert"@,
        DbOperationKind::Update => "update"@,
    }
}

fn operation_str(kind: DbOperationKind) -> (r: &'static str)
    ensures
        r@ == operation_text(kind),
{
    match kind {
        DbOperationKind::Insert => "insert",
        DbOperationKind::Update => "update",
    }
}

/// The error of an operation that could not be sent to the database worker,
/// with the channel's printed error `err`.
pub fn send_failure_message(kind: DbOperationKind, err: &str) -> (r: String)
    ensures
        r@ == "Failed to send "@ + operation_text(kind) + " operation: "@ + err@,
{
    let mut r = String::from_str("Failed to send ");
    r.append(operation_str(kind));
    r.append(" operation: ");
    r.append(err);
    r
}

/// The error of an operation whose confirmation never came back from the
/// database worker, with the channel's printed error `err`.
pub fn receive_failure_message(kind: DbOperationKind, err: &str) -> (r: String)
    ensures
        r@ == "Failed to receive "@ + operation_text(kind) + " confirmation: "@ + err@,
{
    let mut r = String::from_str("Failed to receive ");
    r.append(operation_str(kind));
    r.append(" confirmation: ");
    r.append(err);
    r
}

} // verus!
