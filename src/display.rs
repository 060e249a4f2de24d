//! The lines that the peer publishes for the user to read.
use vstd::prelude::*;
use crate::text::{concat2, concat3};

verus! {

/// The line for a chat message whose signature checked.
pub open spec fn verified_line(name: Seq<char>, content: Seq<char>) -> Seq<char> {
    "🔐 "@ + name + " says (verified): "@ + content
}

/// The line for a chat message whose signature did not check.
pub open spec fn invalid_line(name: Seq<char>, content: Seq<char>) -> Seq<char> {
    "⚠️  "@ + name + " says (INVALID SIGNATURE): "@ + content
}

/// The line for a chat message that could not be verified.
pub open spec fn failed_line(name: Seq<char>, error: Seq<char>, content: Seq<char>) -> Seq<char> {
    "❓ "@ + name + " says (verification failed: "@ + error + "): "@ + content
}

/// The line for an unsigned chat message.
pub open spec fn unsigned_line(name: Seq<char>, content: Seq<char>) -> Seq<char> {
    "📝 "@ + name + " says (unsigned): "@ + content
}

/// The line for a received upgrade proposal.
pub open spec fn proposal_line(name: Seq<char>, description: Seq<char>, id: Seq<char>) -> Seq<
    char,
> {
    "🔐 "@ + name + " proposed secure messaging upgrade: "@ + description + " (ID: "@ + id + ")"@
}

/// The word for a vote.
pub open spec fn verdict(approved: bool) -> Seq<char> {
    if approved {
        "✅ APPROVED"@
    } else {
        "❌ REJECTED"@
    }
}

/// The line for a received vote.
pub open spec fn vote_line(name: Seq<char>, approved: bool, id: Seq<char>) -> Seq<char> {
    "🗳️  "@ + name + " voted "@ + verdict(approved) + " on upgrade proposal "@ + id
}

/// The line for a received partial signature.
pub open spec fn partial_line(name: Seq<char>, id: Seq<char>) -> Seq<char> {
    "🔐 "@ + name + " provided partial signature for proposal "@ + id
}

/// The line for a chat message whose signature checked.
pub fn format_verified(name: &str, content: &str) -> (r: String)
    ensures
        r@ == verified_line(name@, content@),
{
    let head = concat3("🔐 ", name, " says (verified): ");
    concat2(head.as_str(), content)
}

/// The line for a chat message whose signature checked.
pub fn _format_verified(name: &str, content: &str) -> (r: String)
    ensures
        r@ == verified_line(name@, content@),
{
    format_verified(name, content)
}

/// The line for a chat message whose signature did not check.
pub fn format_invalid(name: &str, content: &str) -> (r: String)
    ensures
        r@ == invalid_line(name@, content@),
{
    let head = concat3("⚠️  ", name, " says (INVALID SIGNATURE): ");
    concat2(head.as_str(), content)
}

/// The line for a chat message that could not be verified.
pub fn format_failed(name: &str, error: &str, content: &str) -> (r: String)
    ensures
        r@ == failed_line(name@, error@, content@),
{
    let head = concat3("❓ ", name, " says (verification failed: ");
    let mid = concat3(head.as_str(), error, "): ");
    concat2(mid.as_str(), content)
}

/// The line for an unsigned chat message.
pub fn format_unsigned(name: &str, content: &str) -> (r: String)
    ensures
        r@ == unsigned_line(name@, content@),
{
    let head = concat3("📝 ", name, " says (unsigned): ");
    concat2(head.as_str(), content)
}

/// The line for a received upgrade proposal.
pub fn format_proposal(name: &str, description: &str, id: &str) -> (r: String)
    ensures
        r@ == proposal_line(name@, description@, id@),
{
    let head = concat3("🔐 ", name, " proposed secure messaging upgrade: ");
    let mid = concat3(head.as_str(), description, " (ID: ");
    concat3(mid.as_str(), id, ")")
}

/// The line for a received vote.
pub fn format_vote(name: &str, approved: bool, id: &str) -> (r: String)
    ensures
        r@ == vote_line(name@, approved, id@),
{
    let head = concat3("🗳️  ", name, " voted ");
    let word = if approved {
        "✅ APPROVED"
    } else {
        "❌ REJECTED"
    };
    let mid = concat3(head.as_str(), word, " on upgrade proposal ");
    concat2(mid.as_str(), id)
}

/// The line for a received partial signature.
pub fn format_partial(name: &str, id: &str) -> (r: String)
    ensures
        r@ == partial_line(name@, id@),
{
    let head = concat3("🔐 ", name, " provided partial signature for proposal ");
    concat2(head.as_str(), id)
}

} // verus!
