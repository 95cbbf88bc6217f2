use vstd::prelude::*;
use crate::syntax::{ipv4_ok, is_ipv4};
use crate::text::{concat, copy_text, same_text};
use crate::validate::ValidationError;

verus! {

broadcast use vstd::string::group_string_axioms;

/// The well-known resolvers, by alias.
pub open spec fn directory(alias: Seq<char>) -> Option<Seq<char>> {
    if alias == "google"@ {
        Some("8.8.8.8"@)
    } else if alias == "open"@ {
        Some("8.8.4.4"@)
    } else if alias == "cloudflare"@ {
        Some("1.1.1.1"@)
    } else if alias == "ali"@ {
        Some("223.5.5.5"@)
    } else if alias == "114"@ {
        Some("114.114.114.114"@)
    } else {
        None
    }
}

/// The address an alias stands for; any other text stands for itself.
pub open spec fn resolved(alias: Seq<char>) -> Seq<char> {
    match directory(alias) {
        Some(a) => a,
        None => alias,
    }
}

/// The address of the resolver known by `alias`, if it is one of the
/// well-known ones.
pub fn lookup_alias(alias: &str) -> (r: Option<&'static str>)
    ensures
        match r {
            Some(a) => directory(alias@) == Some(a@),
            None => directory(alias@) is None,
        },
{
    if same_text(alias, "google") {
        Some("8.8.8.8")
    } else if same_text(alias, "open") {
        Some("8.8.4.4")
    } else if same_text(alias, "cloudflare") {
        Some("1.1.1.1")
    } else if same_text(alias, "ali") {
        Some("223.5.5.5")
    } else if same_text(alias, "114") {
        Some("114.114.114.114")
    } else {
        None
    }
}

/// The IPv4 address that `alias` resolves to, through the directory or as a
/// literal; never a network lookup.
pub fn resolve_address(alias: &str) -> (r: Result<String, ValidationError>)
    ensures
        ipv4_ok(resolved(alias@)) ==> r is Ok && r->Ok_0@ == resolved(alias@),
        !ipv4_ok(resolved(alias@)) ==> r == Err::<String, ValidationError>(
            ValidationError::InvalidResolverAddress,
        ),
{
    let addr = match lookup_alias(alias) {
        Some(a) => copy_text(a),
        None => copy_text(alias),
    };
    if is_ipv4(addr.as_str()) {
        Ok(addr)
    } else {
        Err(ValidationError::InvalidResolverAddress)
    }
}

/// The resolver's socket address: the IPv4 address on the DNS port.
pub fn target_address(ip: &str) -> (r: String)
    ensures
        r@ == ip@ + ":53"@,
{
    concat(copy_text(ip), ":53")
}

} // verus!
