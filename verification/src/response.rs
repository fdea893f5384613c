//! The two response records the service can build — a health status and
//! a valentine message — with the handlers that build them and their
//! JSON serialization.

use vstd::prelude::*;
use crate::json::json_object2;
use crate::json::to_json_object2;
use crate::quotes::QuoteBank;
use crate::quotes::fallback_quote;
use crate::quotes::selected_quote;

verus! {

/// The record the health endpoint returns.
pub struct HealthStatus {
    pub status: String,
    pub service: String,
}

/// The record the valentine endpoint returns.
pub struct ValentineMessage {
    pub message: String,
    pub from: String,
}

/// The one health record the service ever reports.
pub open spec fn is_health_record(h: HealthStatus) -> bool {
    h.status@ == "ok"@ && h.service@ == "valentine-backend"@
}

/// The sender every valentine message names.
pub open spec fn valentine_sender() -> Seq<char> {
    "Your Valentine"@
}

/// Builds the health record. It has the same contents on every call.
pub fn health() -> (h: HealthStatus)
    ensures
        is_health_record(h),
{
    HealthStatus { status: "ok".to_owned(), service: "valentine-backend".to_owned() }
}

/// Every two health records the service builds are identical: the
/// health endpoint is invariant across calls.
pub proof fn lemma_health_invariant(a: HealthStatus, b: HealthStatus)
    requires
        is_health_record(a),
        is_health_record(b),
    ensures
        a.status@ == b.status@,
        a.service@ == b.service@,
{
}

/// Builds the valentine message for a selector draw of `i`: the bank's
/// quote at `i` (or the fallback when `i` is out of range), signed by
/// the fixed sender.
pub fn valentine_at(bank: &QuoteBank, i: usize) -> (m: ValentineMessage)
    ensures
        m.message@ == selected_quote(bank@, i as int),
        m.from@ == valentine_sender(),
{
    ValentineMessage { message: bank.pick_at(i), from: "Your Valentine".to_owned() }
}

/// Builds a valentine message from a random draw: the message is one of
/// the bank's quotes (the fallback only on an empty bank), and the
/// sender is always the fixed one.
pub fn valentine(bank: &QuoteBank) -> (m: ValentineMessage)
    ensures
        bank@.len() > 0 ==> bank@.contains(m.message@),
        bank@.len() == 0 ==> m.message@ == fallback_quote(),
        m.from@ == valentine_sender(),
{
    ValentineMessage { message: bank.pick(), from: "Your Valentine".to_owned() }
}

/// The wire body of a health record.
pub open spec fn health_body(h: HealthStatus) -> Seq<char> {
    json_object2("status"@, h.status@, "service"@, h.service@)
}

/// The wire body of a valentine message.
pub open spec fn valentine_body(m: ValentineMessage) -> Seq<char> {
    json_object2("message"@, m.message@, "from"@, m.from@)
}

/// Serializes a health record: `status` first, then `service`.
pub fn health_json(h: &HealthStatus) -> (r: String)
    ensures
        r@ == health_body(*h),
{
    to_json_object2("status", h.status.as_str(), "service", h.service.as_str())
}

/// Serializes a valentine message: `message` first, then `from`.
pub fn valentine_json(m: &ValentineMessage) -> (r: String)
    ensures
        r@ == valentine_body(*m),
{
    to_json_object2("message", m.message.as_str(), "from", m.from.as_str())
}

} // verus!
