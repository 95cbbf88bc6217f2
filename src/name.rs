use vstd::prelude::*;
use hickory_client::proto::rr::Name;
use hickory_client::proto::ProtoError;
use std::str::FromStr;

verus! {

#[verifier::external_type_specification]
#[verifier::external_body]
pub struct ExName(Name);

#[verifier::external_type_specification]
#[verifier::external_body]
pub struct ExProtoError(ProtoError);

/// Whether hickory's `Name::from_str` accepts `s` as a domain name; its
/// verdict depends on the text alone.
pub uninterp spec fn name_accepted(s: Seq<char>) -> bool;

/// Relies on hickory's `Name::from_str`: turns a textual domain into the
/// protocol's name form, or reports why it cannot.
#[verifier::external_body]
pub(crate) fn parse_name(domain: &str) -> (r: Result<Name, ProtoError>)
    ensures
        r is Ok == name_accepted(domain@),
{
    Name::from_str(domain)
}

} // verus!
