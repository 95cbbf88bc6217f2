use vstd::prelude::*;
use crate::error::{AppError, BUS_EXP_CODE};
use crate::records::{kind_from_upper, kind_named, RecordKind};
use crate::syntax::{domain_ok, is_domain};
use crate::text::{blank, concat, copy_text, is_blank, to_upper, upper_of};

verus! {

/// Why a request was refused before any query was sent.
#[derive(Clone, Copy, Debug, PartialEq, Eq, Structural)]
pub enum ValidationError {
    EmptyDomain,
    InvalidDomainFormat,
    EmptyRecordType,
    UnsupportedRecordType,
    EmptyResolver,
    InvalidResolverAddress,
}

/// The message reported for each refusal.
pub open spec fn message_of(e: ValidationError) -> Seq<char> {
    match e {
        ValidationError::EmptyDomain => "域名不能为空!"@,
        ValidationError::InvalidDomainFormat => "域名格式不正确!"@,
        ValidationError::EmptyRecordType => "记录类型不能为空!"@,
        ValidationError::UnsupportedRecordType => "不支持的记录类型!"@,
        ValidationError::EmptyResolver => "dns供应商不能为空!"@,
        ValidationError::InvalidResolverAddress => "dns 服务器 ip地址不正确!"@,
    }
}

impl ValidationError {
    /// The message reported for this refusal.
    pub fn message(&self) -> (r: &'static str)
        ensures
            r@ == message_of(*self),
    {
        match self {
            ValidationError::EmptyDomain => "域名不能为空!",
            ValidationError::InvalidDomainFormat => "域名格式不正确!",
            ValidationError::EmptyRecordType => "记录类型不能为空!",
            ValidationError::UnsupportedRecordType => "不支持的记录类型!",
            ValidationError::EmptyResolver => "dns供应商不能为空!",
            ValidationError::InvalidResolverAddress => "dns 服务器 ip地址不正确!",
        }
    }

    /// The business error that reports this refusal.
    pub fn to_app_error(&self) -> (r: AppError)
        ensures
            r.code@ == BUS_EXP_CODE@,
            r.msg@ == message_of(*self),
    {
        AppError::bus(copy_text(self.message()))
    }
}

/// The message of a record type that names no supported one.
pub open spec fn unsupported_type_msg(record_type: Seq<char>) -> Seq<char> {
    "Unsupported record type: "@ + record_type
}

/// The supported record type that `record_type` names, in any letter case;
/// any other text is a business error that quotes it.
pub fn get_record_type_from_str(record_type: &str) -> (r: Result<RecordKind, AppError>)
    ensures
        match kind_named(upper_of(record_type@)) {
            Some(k) => r is Ok && r->Ok_0 == k,
            None => r is Err && r->Err_0.code@ == BUS_EXP_CODE@ && r->Err_0.msg@
                == unsupported_type_msg(record_type@),
        },
{
    let u = to_upper(record_type);
    match kind_from_upper(u.as_str()) {
        Some(k) => Ok(k),
        None => Err(AppError::bus(concat(copy_text("Unsupported record type: "), record_type))),
    }
}

/// The checks on a request, in order, stopping at the first that fails; on
/// success, the record type asked for.
pub open spec fn check_spec(domain: Seq<char>, record_type: Seq<char>, dns_server: Seq<char>) -> Result<
    RecordKind,
    ValidationError,
> {
    if blank(domain) {
        Err(ValidationError::EmptyDomain)
    } else if !domain_ok(domain) {
        Err(ValidationError::InvalidDomainFormat)
    } else if blank(record_type) {
        Err(ValidationError::EmptyRecordType)
    } else if kind_named(upper_of(record_type)) is None {
        Err(ValidationError::UnsupportedRecordType)
    } else if blank(dns_server) {
        Err(ValidationError::EmptyResolver)
    } else {
        Ok(kind_named(upper_of(record_type))->Some_0)
    }
}

/// Checks the domain, the record type and the resolver choice of a request.
pub fn validate(domain: &str, record_type: &str, dns_server: &str) -> (r: Result<
    RecordKind,
    ValidationError,
>)
    ensures
        r == check_spec(domain@, record_type@, dns_server@),
{
    if is_blank(domain) {
        return Err(ValidationError::EmptyDomain);
    }
    if !is_domain(domain) {
        return Err(ValidationError::InvalidDomainFormat);
    }
    if is_blank(record_type) {
        return Err(ValidationError::EmptyRecordType);
    }
    let kind = match get_record_type_from_str(record_type) {
        Ok(k) => k,
        Err(_) => {
            return Err(ValidationError::UnsupportedRecordType);
        },
    };
    if is_blank(dns_server) {
        return Err(ValidationError::EmptyResolver);
    }
    Ok(kind)
}

} // verus!
