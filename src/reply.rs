use vstd::prelude::*;
use crate::resolver::DiscoveryReply;
use crate::worker::{CrossCheckOutcome, OutcomeModel};

verus! {

/// The field of a reply that carries an instance's address.
pub const ADDRESS_FIELD: &'static str = "ip";

/// Whether `text` is one JSON document (serde_json's grammar and limits).
pub uninterp spec fn json_parses(text: Seq<char>) -> bool;

/// The member `key` of the JSON document `text`: `None` when the document is not
/// an object or has no such member, `Some(Some(s))` for a string member `s`, and
/// `Some(None)` for a member of any other type, `null` included.
pub uninterp spec fn json_member(text: Seq<char>, key: Seq<char>) -> Option<Option<Seq<char>>>;

/// The text of a looked-up member.
pub open spec fn member_view(m: Option<Option<String>>) -> Option<Option<Seq<char>>> {
    match m {
        Some(Some(s)) => Some(Some(s@)),
        Some(None) => Some(None),
        None => None,
    }
}

/// Relies on serde_json::from_str into a serde_json::Value (`Err` with the
/// parser's message when `text` is not one JSON document), then on Value::get
/// with a string key (a member of an object, `None` otherwise) and
/// Value::as_str (the text of a string value, `None` otherwise).
#[verifier::external_body]
fn lookup_member(text: &str, key: &str) -> (r: Result<Option<Option<String>>, String>)
    ensures
        r is Ok <==> json_parses(text@),
        r is Ok ==> member_view(r->Ok_0) == json_member(text@, key@),
{
    match serde_json::from_str::<serde_json::Value>(text) {
        Ok(v) => Ok(
            match v.get(key) {
                Some(m) => Some(m.as_str().map(|s| s.to_string())),
                None => None,
            },
        ),
        Err(e) => Err(e.to_string()),
    }
}

/// What a refresh reply whose body was read comes to: undecodable when the body
/// is not JSON, else a reply that has an address exactly when the body is an
/// object with an `ip` member, of whatever type.
pub fn classify_refresh_body(body: &str) -> (r: CrossCheckOutcome)
    ensures
        !json_parses(body@) ==> r@ is Undecodable,
        json_parses(body@) ==> r@ == (OutcomeModel::Replied {
            has_address: json_member(body@, ADDRESS_FIELD@) is Some,
        }),
{
    match lookup_member(body, ADDRESS_FIELD) {
        Ok(m) => CrossCheckOutcome::Replied { has_address: m.is_some() },
        Err(e) => CrossCheckOutcome::Undecodable(e),
    }
}

/// What a discovery reply whose body was read comes to: a failure when the body
/// is not JSON, the address when it is an object with a string `ip` member, and
/// no address yet otherwise.
pub fn classify_discovery_body(body: &str) -> (r: DiscoveryReply)
    ensures
        !json_parses(body@) ==> r is Failed,
        json_parses(body@) ==> match json_member(body@, ADDRESS_FIELD@) {
            Some(Some(a)) => r is Address && r->Address_0@ == a,
            _ => r is NotYet,
        },
{
    match lookup_member(body, ADDRESS_FIELD) {
        Ok(Some(Some(a))) => DiscoveryReply::Address(a),
        Ok(_) => DiscoveryReply::NotYet,
        Err(e) => DiscoveryReply::Failed(e),
    }
}

} // verus!
