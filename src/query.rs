use vstd::prelude::*;
use hickory_client::proto::rr::Name;
use crate::directory::{directory, resolve_address, resolved, target_address};
use crate::error::{AppError, BUS_EXP_CODE, QUERY_DNS_TIMEOUT};
use crate::name::{name_accepted, parse_name};
use crate::records::{
    kept, kind_name, kind_named, lemma_kind_names, no_lower_case, normalize_dnssec, normalize_plain, DnsRecordResult, DnsRecordSecResult,
    RecordKind, UpstreamRecord,
};
use crate::syntax::{domain_ok, ipv4_ok};
use crate::text::{blank, copy_text, upper_of};
use crate::validate::{check_spec, message_of, validate, ValidationError};

verus! {

broadcast use vstd::string::group_string_axioms;

/// Message of a domain that passed the syntax check but that the protocol
/// library cannot turn into a name.
pub const INVALID_NAME_MSG: &'static str = "domain cannot be used as a dns name!";

/// A request on the plain path.
#[derive(Debug)]
pub struct DnsQuery {
    pub domain: String,
    pub record_type: String,
    pub dns_server: String,
}

/// A request on the DNSSEC path.
#[derive(Debug)]
pub struct DnsSecQuery {
    pub domain: String,
    pub dns_server: String,
    pub record_type: String,
}

/// The answer on the plain path.
#[derive(Debug)]
pub struct DnsResult {
    /// The resolver as the request named it.
    pub dns_server: String,
    /// The requested record type, upper-case.
    pub record_type: String,
    pub dns_record: Vec<DnsRecordResult>,
}

/// The answer on the DNSSEC path.
#[derive(Debug)]
pub struct DnsSecResult {
    /// The resolver as the request named it.
    pub dns_server: String,
    pub dns_record: Vec<DnsRecordSecResult>,
}

/// What a valid request asks for: the record type, and the resolver's
/// address and socket address.
pub open spec fn plan_spec(domain: Seq<char>, record_type: Seq<char>, dns_server: Seq<char>) -> Result<
    (RecordKind, Seq<char>, Seq<char>),
    ValidationError,
> {
    match check_spec(domain, record_type, dns_server) {
        Err(e) => Err(e),
        Ok(k) => if ipv4_ok(resolved(dns_server)) {
            Ok((k, resolved(dns_server), resolved(dns_server) + ":53"@))
        } else {
            Err(ValidationError::InvalidResolverAddress)
        },
    }
}

/// A checked request, ready to be sent.
#[derive(Debug)]
pub struct QueryPlan {
    pub domain: String,
    pub kind: RecordKind,
    /// The resolver as the request named it.
    pub dns_server: String,
    /// The resolver's IPv4 address.
    pub address: String,
    /// The resolver's socket address, `<address>:53`.
    pub target: String,
}

/// Whether `p` is the plan that `plan_spec` gives for the request.
pub open spec fn plan_matches(
    p: QueryPlan,
    domain: Seq<char>,
    record_type: Seq<char>,
    dns_server: Seq<char>,
) -> bool {
    &&& plan_spec(domain, record_type, dns_server) is Ok
    &&& p.kind == plan_spec(domain, record_type, dns_server)->Ok_0.0
    &&& p.address@ == plan_spec(domain, record_type, dns_server)->Ok_0.1
    &&& p.target@ == plan_spec(domain, record_type, dns_server)->Ok_0.2
    &&& p.domain@ == domain
    &&& p.dns_server@ == dns_server
}

/// Checks a request and works out where its query goes.
pub fn plan_query(domain: &str, record_type: &str, dns_server: &str) -> (r: Result<
    QueryPlan,
    ValidationError,
>)
    ensures
        match plan_spec(domain@, record_type@, dns_server@) {
            Ok(_) => r is Ok && plan_matches(r->Ok_0, domain@, record_type@, dns_server@),
            Err(e) => r == Err::<QueryPlan, ValidationError>(e),
        },
{
    let kind = match validate(domain, record_type, dns_server) {
        Ok(k) => k,
        Err(e) => {
            return Err(e);
        },
    };
    let address = match resolve_address(dns_server) {
        Ok(a) => a,
        Err(e) => {
            return Err(e);
        },
    };
    let target = target_address(address.as_str());
    Ok(
        QueryPlan {
            domain: copy_text(domain),
            kind,
            dns_server: copy_text(dns_server),
            address,
            target,
        },
    )
}

/// A request whose domain is empty or white space only is refused as such,
/// before anything else is looked at.
pub proof fn lemma_blank_domain_refused(
    domain: Seq<char>,
    record_type: Seq<char>,
    dns_server: Seq<char>,
)
    requires
        blank(domain),
    ensures
        plan_spec(domain, record_type, dns_server) == Err::<
            (RecordKind, Seq<char>, Seq<char>),
            ValidationError,
        >(ValidationError::EmptyDomain),
{
}

/// With a well-formed domain, a record type outside the supported set, in
/// any letter case, is refused as unsupported.
pub proof fn lemma_unsupported_type_refused(
    domain: Seq<char>,
    record_type: Seq<char>,
    dns_server: Seq<char>,
)
    requires
        !blank(domain),
        domain_ok(domain),
        !blank(record_type),
        kind_named(upper_of(record_type)) is None,
    ensures
        plan_spec(domain, record_type, dns_server) == Err::<
            (RecordKind, Seq<char>, Seq<char>),
            ValidationError,
        >(ValidationError::UnsupportedRecordType),
{
}

/// A request that passes the checks is sent to its resolver's address on the
/// DNS port, whether the resolver was named by alias or by address.
pub proof fn lemma_target_is_resolved_address(
    domain: Seq<char>,
    record_type: Seq<char>,
    dns_server: Seq<char>,
)
    requires
        check_spec(domain, record_type, dns_server) is Ok,
        ipv4_ok(resolved(dns_server)),
    ensures
        plan_spec(domain, record_type, dns_server) is Ok,
        plan_spec(domain, record_type, dns_server)->Ok_0.2 == resolved(dns_server) + ":53"@,
        directory(dns_server) is None ==> plan_spec(domain, record_type, dns_server)->Ok_0.2
            == dns_server + ":53"@,
{
}

/// A resolver that is neither a known alias nor an IPv4 address is refused
/// as an invalid resolver address.
pub proof fn lemma_unknown_resolver_refused(
    domain: Seq<char>,
    record_type: Seq<char>,
    dns_server: Seq<char>,
)
    requires
        check_spec(domain, record_type, dns_server) is Ok,
        directory(dns_server) is None,
        !ipv4_ok(dns_server),
    ensures
        plan_spec(domain, record_type, dns_server) == Err::<
            (RecordKind, Seq<char>, Seq<char>),
            ValidationError,
        >(ValidationError::InvalidResolverAddress),
{
}

/// The record type that an accepted request echoes is the upper-case form of
/// the one it asked for, whatever letter case it used, and holds no
/// lower-case letter.
pub proof fn lemma_echoed_type_is_upper_case(
    domain: Seq<char>,
    record_type: Seq<char>,
    dns_server: Seq<char>,
)
    requires
        plan_spec(domain, record_type, dns_server) is Ok,
    ensures
        kind_name(plan_spec(domain, record_type, dns_server)->Ok_0.0) == upper_of(record_type),
        no_lower_case(kind_name(plan_spec(domain, record_type, dns_server)->Ok_0.0)),
{
    let k = plan_spec(domain, record_type, dns_server)->Ok_0.0;
    lemma_kind_names(k);
    assert(kind_named(upper_of(record_type)) == Some(k));
    reveal_strlit("A");
    reveal_strlit("AAAA");
    reveal_strlit("CNAME");
    reveal_strlit("NS");
    reveal_strlit("TXT");
}

/// A checked request with its domain in the protocol's name form.
#[derive(Debug)]
pub struct PreparedQuery {
    pub plan: QueryPlan,
    pub name: Name,
}

/// Everything before the network: checks the request, resolves the resolver
/// and converts the domain. A refusal is a business error with its message;
/// a domain the protocol library cannot convert is one too.
pub fn prepare(domain: &str, record_type: &str, dns_server: &str) -> (r: Result<
    PreparedQuery,
    AppError,
>)
    ensures
        match plan_spec(domain@, record_type@, dns_server@) {
            Err(e) => r is Err && r->Err_0.code@ == BUS_EXP_CODE@ && r->Err_0.msg@ == message_of(
                e,
            ),
            Ok(_) => (r is Ok <==> name_accepted(domain@)) && match r {
                Ok(p) => plan_matches(p.plan, domain@, record_type@, dns_server@),
                Err(e) => e.code@ == BUS_EXP_CODE@ && e.msg@ == INVALID_NAME_MSG@,
            },
        },
{
    let plan = match plan_query(domain, record_type, dns_server) {
        Ok(p) => p,
        Err(e) => {
            return Err(e.to_app_error());
        },
    };
    match parse_name(domain) {
        Ok(name) => Ok(PreparedQuery { plan, name }),
        Err(_) => Err(AppError::bus(copy_text(INVALID_NAME_MSG))),
    }
}

/// Everything before the network, for a plain request.
pub fn prepare_query(q: &DnsQuery) -> (r: Result<PreparedQuery, AppError>)
    ensures
        match plan_spec(q.domain@, q.record_type@, q.dns_server@) {
            Err(e) => r is Err && r->Err_0.code@ == BUS_EXP_CODE@ && r->Err_0.msg@ == message_of(
                e,
            ),
            Ok(_) => (r is Ok <==> name_accepted(q.domain@)) && match r {
                Ok(p) => plan_matches(p.plan, q.domain@, q.record_type@, q.dns_server@),
                Err(e) => e.code@ == BUS_EXP_CODE@ && e.msg@ == INVALID_NAME_MSG@,
            },
        },
{
    prepare(q.domain.as_str(), q.record_type.as_str(), q.dns_server.as_str())
}

/// Everything before the network, for a DNSSEC request.
pub fn prepare_dnssec_query(q: &DnsSecQuery) -> (r: Result<PreparedQuery, AppError>)
    ensures
        match plan_spec(q.domain@, q.record_type@, q.dns_server@) {
            Err(e) => r is Err && r->Err_0.code@ == BUS_EXP_CODE@ && r->Err_0.msg@ == message_of(
                e,
            ),
            Ok(_) => (r is Ok <==> name_accepted(q.domain@)) && match r {
                Ok(p) => plan_matches(p.plan, q.domain@, q.record_type@, q.dns_server@),
                Err(e) => e.code@ == BUS_EXP_CODE@ && e.msg@ == INVALID_NAME_MSG@,
            },
        },
{
    prepare(q.domain.as_str(), q.record_type.as_str(), q.dns_server.as_str())
}

/// How the exchange with the resolver went.
#[derive(Debug)]
pub enum QueryOutcome {
    /// The client session could not be set up; the text says why.
    ConnectFailed(String),
    /// The query timed out or failed while awaited; the text says why.
    QueryFailed(String),
    /// The resolver answered with these records, in its order.
    Answered(Vec<UpstreamRecord>),
}

/// The plain path's answer to a query, given how the exchange went: a setup
/// failure is a business error, a failed or timed-out query a timeout error,
/// and an answer keeps the records of the requested type.
pub fn finish_query(plan: &QueryPlan, outcome: QueryOutcome) -> (r: Result<DnsResult, AppError>)
    ensures
        match outcome {
            QueryOutcome::ConnectFailed(m) => r is Err && r->Err_0.code@ == BUS_EXP_CODE@
                && r->Err_0.msg@ == m@,
            QueryOutcome::QueryFailed(m) => r is Err && r->Err_0.code@ == QUERY_DNS_TIMEOUT@
                && r->Err_0.msg@ == m@,
            QueryOutcome::Answered(answers) => r is Ok && {
                let res = r->Ok_0;
                let rows = kept(plan.kind, answers@);
                &&& res.dns_server@ == plan.dns_server@
                &&& res.record_type@ == kind_name(plan.kind)
                &&& res.dns_record@.len() == rows.len()
                &&& forall|i: int|
                    0 <= i < rows.len() ==> {
                        &&& (#[trigger] res.dns_record@[i]).value@ == rows[i].value@
                        &&& res.dns_record@[i].ttl == rows[i].ttl
                    }
            },
        },
{
    match outcome {
        QueryOutcome::ConnectFailed(m) => Err(AppError::bus(m)),
        QueryOutcome::QueryFailed(m) => Err(AppError::query_dns_timeout(m)),
        QueryOutcome::Answered(answers) => {
            let records = normalize_plain(plan.kind, &answers);
            Ok(
                DnsResult {
                    dns_server: copy_text(plan.dns_server.as_str()),
                    record_type: copy_text(plan.kind.name()),
                    dns_record: records,
                },
            )
        },
    }
}

/// The DNSSEC path's answer to a query, given how the exchange went: errors
/// as on the plain path, and an answer keeps every record, whatever its type.
pub fn finish_dnssec_query(plan: &QueryPlan, outcome: QueryOutcome) -> (r: Result<
    DnsSecResult,
    AppError,
>)
    ensures
        match outcome {
            QueryOutcome::ConnectFailed(m) => r is Err && r->Err_0.code@ == BUS_EXP_CODE@
                && r->Err_0.msg@ == m@,
            QueryOutcome::QueryFailed(m) => r is Err && r->Err_0.code@ == QUERY_DNS_TIMEOUT@
                && r->Err_0.msg@ == m@,
            QueryOutcome::Answered(answers) => r is Ok && {
                let res = r->Ok_0;
                &&& res.dns_server@ == plan.dns_server@
                &&& res.dns_record@.len() == answers@.len()
                &&& forall|i: int|
                    0 <= i < answers@.len() ==> {
                        &&& (#[trigger] res.dns_record@[i]).record_type@ == upper_of(
                            answers@[i].kind_text@,
                        )
                        &&& res.dns_record@[i].value@ == answers@[i].value@
                        &&& res.dns_record@[i].ttl == answers@[i].ttl
                    }
            },
        },
{
    match outcome {
        QueryOutcome::ConnectFailed(m) => Err(AppError::bus(m)),
        QueryOutcome::QueryFailed(m) => Err(AppError::query_dns_timeout(m)),
        QueryOutcome::Answered(answers) => {
            let records = normalize_dnssec(&answers);
            Ok(DnsSecResult { dns_server: copy_text(plan.dns_server.as_str()), dns_record: records })
        },
    }
}

/// A failed or timed-out query is reported under a code of its own, never
/// under the business-error code.
pub proof fn lemma_timeout_code_is_distinct()
    ensures
        QUERY_DNS_TIMEOUT@ != BUS_EXP_CODE@,
{
    reveal_strlit("QUERY_DNS_TIMEOUT");
    reveal_strlit("BUS500");
    assert(QUERY_DNS_TIMEOUT@.len() != BUS_EXP_CODE@.len());
}

} // verus!
