use dns_query_api::{
    get_record_type_from_str, is_blank, is_domain, is_ipv4, lookup_alias, plan_query, resolve_address,
    same_text, target_address, validate, RecordKind, ValidationError,
};

#[test]
fn blank_texts() {
    assert!(is_blank(""));
    assert!(is_blank("   "));
    assert!(is_blank("\t\n \u{3000}"));
    assert!(!is_blank(" a "));
}

#[test]
fn same_text_compares_characters() {
    assert!(same_text("google", "google"));
    assert!(!same_text("google", "Google"));
    assert!(!same_text("google", "googl"));
    assert!(same_text("", ""));
}

#[test]
fn domain_syntax_accepts_ordinary_names() {
    assert!(is_domain("example.com"));
    assert!(is_domain("sub.example.co.uk"));
    assert!(is_domain("xn--bcher-kva.example"));
    assert!(is_domain("a-b.c-d"));
    assert!(is_domain("1.23"));
    assert!(is_domain("example.c-"));
}

#[test]
fn domain_syntax_rejects_malformed_names() {
    assert!(!is_domain(""));
    assert!(!is_domain("example"));
    assert!(!is_domain("example.c"));
    assert!(!is_domain("-example.com"));
    assert!(!is_domain("example-.com"));
    assert!(!is_domain("exa_mple.com"));
    assert!(!is_domain("example..com"));
    assert!(!is_domain(".example.com"));
    assert!(!is_domain("example.com."));
    assert!(!is_domain(" example.com"));
    assert!(!is_domain("exämple.com"));
}

#[test]
fn domain_label_length_limit() {
    let ok = format!("{}.com", "a".repeat(63));
    let too_long = format!("{}.com", "a".repeat(64));
    assert!(is_domain(&ok));
    assert!(!is_domain(&too_long));
}

#[test]
fn ipv4_syntax() {
    assert!(is_ipv4("8.8.8.8"));
    assert!(is_ipv4("255.255.255.255"));
    assert!(is_ipv4("0.0.0.0"));
    assert!(is_ipv4("114.114.114.114"));
    assert!(!is_ipv4("001.02.3.4"));
    assert!(!is_ipv4("010.1.1.1"));
    assert!(!is_ipv4("1.1.1.00"));
    assert!(is_ipv4("10.0.100.200"));
    assert!(!is_ipv4("256.1.1.1"));
    assert!(!is_ipv4("1.2.3"));
    assert!(!is_ipv4("1.2.3.4.5"));
    assert!(!is_ipv4("1..2.3"));
    assert!(!is_ipv4("1.2.3.4 "));
    assert!(!is_ipv4("1234.1.1.1"));
    assert!(!is_ipv4("a.b.c.d"));
    assert!(!is_ipv4(""));
}

#[test]
fn record_kinds_in_any_case() {
    assert_eq!(get_record_type_from_str("A").unwrap(), RecordKind::A);
    assert_eq!(get_record_type_from_str("a").unwrap(), RecordKind::A);
    assert_eq!(get_record_type_from_str("aaaa").unwrap(), RecordKind::AAAA);
    assert_eq!(get_record_type_from_str("CName").unwrap(), RecordKind::CNAME);
    assert_eq!(get_record_type_from_str("ns").unwrap(), RecordKind::NS);
    assert_eq!(get_record_type_from_str("txt").unwrap(), RecordKind::TXT);
}

#[test]
fn unsupported_record_kind_quotes_input() {
    let e = get_record_type_from_str("MX").unwrap_err();
    assert_eq!(e.code, "BUS500");
    assert_eq!(e.msg, "Unsupported record type: MX");
    let e = get_record_type_from_str(" a").unwrap_err();
    assert_eq!(e.msg, "Unsupported record type:  a");
}

#[test]
fn record_kind_names_and_codes() {
    assert_eq!(RecordKind::A.name(), "A");
    assert_eq!(RecordKind::AAAA.name(), "AAAA");
    assert_eq!(RecordKind::CNAME.name(), "CNAME");
    assert_eq!(RecordKind::NS.name(), "NS");
    assert_eq!(RecordKind::TXT.name(), "TXT");
    assert_eq!(RecordKind::A.code(), 1);
    assert_eq!(RecordKind::NS.code(), 2);
    assert_eq!(RecordKind::CNAME.code(), 5);
    assert_eq!(RecordKind::TXT.code(), 16);
    assert_eq!(RecordKind::AAAA.code(), 28);
}

#[test]
fn validation_order_and_errors() {
    assert_eq!(validate("", "A", "google"), Err(ValidationError::EmptyDomain));
    assert_eq!(validate("   ", "A", "google"), Err(ValidationError::EmptyDomain));
    assert_eq!(validate("", "MX", ""), Err(ValidationError::EmptyDomain));
    assert_eq!(validate("bad_domain", "A", "google"), Err(ValidationError::InvalidDomainFormat));
    assert_eq!(validate("example.com", " ", "google"), Err(ValidationError::EmptyRecordType));
    assert_eq!(validate("example.com", "MX", "google"), Err(ValidationError::UnsupportedRecordType));
    assert_eq!(validate("example.com", "mx", ""), Err(ValidationError::UnsupportedRecordType));
    assert_eq!(validate("example.com", "A", "  "), Err(ValidationError::EmptyResolver));
    assert_eq!(validate("example.com", "a", "google"), Ok(RecordKind::A));
}

#[test]
fn validation_messages() {
    let e = ValidationError::EmptyDomain.to_app_error();
    assert_eq!(e.code, "BUS500");
    assert_eq!(e.msg, "域名不能为空!");
    let e = ValidationError::InvalidResolverAddress.to_app_error();
    assert_eq!(e.code, "BUS500");
    assert_eq!(e.msg, "dns 服务器 ip地址不正确!");
    assert_eq!(ValidationError::UnsupportedRecordType.message(), "不支持的记录类型!");
}

#[test]
fn directory_aliases() {
    assert_eq!(lookup_alias("google"), Some("8.8.8.8"));
    assert_eq!(lookup_alias("open"), Some("8.8.4.4"));
    assert_eq!(lookup_alias("cloudflare"), Some("1.1.1.1"));
    assert_eq!(lookup_alias("ali"), Some("223.5.5.5"));
    assert_eq!(lookup_alias("114"), Some("114.114.114.114"));
    assert_eq!(lookup_alias("Google"), None);
    assert_eq!(lookup_alias("8.8.8.8"), None);
}

#[test]
fn resolver_addresses() {
    assert_eq!(resolve_address("google"), Ok("8.8.8.8".to_string()));
    assert_eq!(resolve_address("9.9.9.9"), Ok("9.9.9.9".to_string()));
    assert_eq!(
        resolve_address("not-an-ip-and-not-an-alias"),
        Err(ValidationError::InvalidResolverAddress)
    );
    assert_eq!(target_address("1.1.1.1"), "1.1.1.1:53");
}

#[test]
fn alias_and_literal_reach_same_target() {
    let by_alias = plan_query("example.com", "A", "google").unwrap();
    let by_address = plan_query("example.com", "A", "8.8.8.8").unwrap();
    assert_eq!(by_alias.target, "8.8.8.8:53");
    assert_eq!(by_address.target, "8.8.8.8:53");
    assert_eq!(by_alias.address, "8.8.8.8");
    assert_eq!(by_alias.dns_server, "google");
    assert_eq!(by_address.dns_server, "8.8.8.8");
}

#[test]
fn unknown_resolver_is_refused() {
    let r = plan_query("example.com", "A", "not-an-ip-and-not-an-alias");
    assert_eq!(r.unwrap_err(), ValidationError::InvalidResolverAddress);
    let r = plan_query("example.com", "A", "300.1.1.1");
    assert_eq!(r.unwrap_err(), ValidationError::InvalidResolverAddress);
}
