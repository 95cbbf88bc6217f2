//! Validation, resolver lookup and answer shaping for DNS lookups made on
//! behalf of HTTP clients. The network exchange itself is left to the
//! caller: `prepare_query` says what to send and where, `finish_query`
//! turns what came back into the answer.

pub mod directory;
pub mod error;
pub mod name;
pub mod query;
pub mod records;
pub mod response;
pub mod syntax;
pub mod text;
pub mod validate;

pub use directory::{lookup_alias, resolve_address, target_address};
pub use error::{AppError, BUS_EXP_CODE, QUERY_DNS_TIMEOUT, TERA_RENDER_EXP_CODE};
pub use query::{
    finish_dnssec_query, finish_query, plan_query, prepare, prepare_dnssec_query, prepare_query,
    DnsQuery, DnsResult, DnsSecQuery, DnsSecResult, PreparedQuery, QueryOutcome, QueryPlan,
    INVALID_NAME_MSG,
};
pub use records::{
    kind_from_upper, normalize_dnssec, normalize_plain, DnsRecordResult, DnsRecordSecResult,
    RecordKind, UpstreamRecord,
};
pub use response::{ApiResponse, ERR_CODE, OKAY_CODE, OKAY_MSG};
pub use syntax::{is_domain, is_ipv4};
pub use text::{is_blank, same_text};
pub use validate::{get_record_type_from_str, validate, ValidationError};
