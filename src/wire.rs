//! The registration record as the homeserver protocol defines it, taken from
//! `ruma`, and the facts about it that the conversions rely on.
use vstd::prelude::*;

use ruma::api::appservice::Namespace as WireNamespace;
use ruma::api::appservice::Namespaces as WireNamespaces;
use ruma::api::appservice::Registration as WireRegistration;

use crate::registration::{wire_record, WireRecord};

verus! {

#[verifier::external_type_specification]
pub struct ExWireNamespace(WireNamespace);

#[verifier::external_type_specification]
pub struct ExWireNamespaces(WireNamespaces);

#[verifier::external_type_specification]
pub struct ExWireRegistration(ruma::api::appservice::Registration);

#[verifier::external_type_specification]
pub struct ExWireRegistrationInit(ruma::api::appservice::RegistrationInit);

/// Relies on `Namespace::new`, which stores its two arguments as the fields.
pub assume_specification[ WireNamespace::new ](exclusive: bool, regex: String) -> (r:
    WireNamespace)
    ensures
        r.exclusive == exclusive,
        r.regex == regex,
;

/// Relies on `Namespaces::new`, which is the derived default: three empty lists.
pub assume_specification[ WireNamespaces::new ]() -> (r: WireNamespaces)
    ensures
        r.users@.len() == 0,
        r.aliases@.len() == 0,
        r.rooms@.len() == 0,
;

/// Relies on `From<RegistrationInit> for Registration`, which moves each field
/// over and sets `receive_ephemeral` to false.
pub assume_specification[ <ruma::api::appservice::Registration as core::convert::From<ruma::api::appservice::RegistrationInit>>::from ](
    init: ruma::api::appservice::RegistrationInit,
) -> (r: ruma::api::appservice::Registration)
    ensures
        r.id == init.id,
        r.url == init.url,
        r.as_token == init.as_token,
        r.hs_token == init.hs_token,
        r.sender_localpart == init.sender_localpart,
        r.namespaces == init.namespaces,
        r.rate_limited == init.rate_limited,
        r.protocols == init.protocols,
        r.receive_ephemeral == false,
;

/// The YAML text that `serde_yml` writes for a registration record.
pub uninterp spec fn yaml_text(w: WireRecord) -> Seq<char>;

/// The registration record that `serde_yml` reads from a text, if it reads one.
pub uninterp spec fn yaml_record(s: Seq<char>) -> Option<WireRecord>;

/// Relies on `serde_yml::to_string` (noyalib's `to_string`) on a
/// registration record: its text depends on the record's fields alone, and
/// it succeeds, since its only documented failures are a `Serialize` impl
/// that errs (ruma's derived one on strings, booleans and lists does not) and
/// nesting deeper than 128 levels (a record nests four).
#[verifier::external_body]
#[allow(deprecated)]
pub(crate) fn encode_yaml(w: &WireRegistration) -> (r: Result<String, String>)
    ensures
        r is Ok,
        r is Ok ==> r->Ok_0@ == yaml_text(wire_record(*w)),
{
    match serde_yml::to_string(w) {
        Ok(t) => Ok(t),
        Err(e) => Err(e.to_string()),
    }
}

/// Relies on `serde_yml::from_str` reading a registration record: whether it
/// succeeds, and the record read, depend on the text alone. The error, if
/// any, is kept as text.
#[verifier::external_body]
#[allow(deprecated)]
pub(crate) fn decode_yaml(text: &str) -> (r: Result<WireRegistration, String>)
    ensures
        r is Ok <==> yaml_record(text@) is Some,
        r is Ok ==> yaml_record(text@) == Some(wire_record(r->Ok_0)),
{
    match serde_yml::from_str::<WireRegistration>(text) {
        Ok(w) => Ok(w),
        Err(e) => Err(e.to_string()),
    }
}

} // verus!
