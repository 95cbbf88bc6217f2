use dns_query_api::{
    finish_dnssec_query, finish_query, normalize_dnssec, normalize_plain, prepare_dnssec_query,
    prepare_query, DnsQuery, DnsRecordSecResult, DnsSecQuery, QueryOutcome, RecordKind,
    UpstreamRecord, INVALID_NAME_MSG,
};

fn record(code: u16, kind: &str, ttl: u32, value: &str) -> UpstreamRecord {
    UpstreamRecord { rtype: code, kind_text: kind.to_string(), ttl, value: value.to_string() }
}

fn mixed_answers() -> Vec<UpstreamRecord> {
    vec![
        record(5, "CNAME", 300, "www.example.net."),
        record(1, "A", 60, "93.184.216.34"),
        record(1, "A", 61, "93.184.216.35"),
    ]
}

fn query(domain: &str, record_type: &str, dns_server: &str) -> DnsQuery {
    DnsQuery {
        domain: domain.to_string(),
        record_type: record_type.to_string(),
        dns_server: dns_server.to_string(),
    }
}

#[test]
fn blank_domain_fails_before_network() {
    let e = prepare_query(&query("  ", "A", "google")).unwrap_err();
    assert_eq!(e.code, "BUS500");
    assert_eq!(e.msg, "域名不能为空!");
    let q = DnsSecQuery {
        domain: String::new(),
        dns_server: "google".to_string(),
        record_type: "A".to_string(),
    };
    let e = prepare_dnssec_query(&q).unwrap_err();
    assert_eq!(e.msg, "域名不能为空!");
}

#[test]
fn unsupported_type_fails_before_network() {
    for t in ["MX", "soa", "Ptr", "ANY"] {
        let e = prepare_query(&query("example.com", t, "google")).unwrap_err();
        assert_eq!(e.code, "BUS500");
        assert_eq!(e.msg, "不支持的记录类型!");
    }
}

#[test]
fn invalid_resolver_fails_before_network() {
    let e = prepare_query(&query("example.com", "A", "not-an-ip-and-not-an-alias")).unwrap_err();
    assert_eq!(e.code, "BUS500");
    assert_eq!(e.msg, "dns 服务器 ip地址不正确!");
}

#[test]
fn google_and_its_address_target_the_same_socket() {
    let p = prepare_query(&query("example.com", "A", "google")).unwrap();
    assert_eq!(p.plan.target, "8.8.8.8:53");
    let p = prepare_query(&query("example.com", "A", "8.8.8.8")).unwrap();
    assert_eq!(p.plan.target, "8.8.8.8:53");
}

#[test]
fn cloudflare_scenario() {
    let p = prepare_query(&query("example.com", "A", "cloudflare")).unwrap();
    assert_eq!(p.plan.target, "1.1.1.1:53");
    assert_eq!(p.plan.address, "1.1.1.1");
    assert_eq!(p.plan.kind, RecordKind::A);
    assert_eq!(p.plan.domain, "example.com");
    assert_eq!(p.name.to_string(), "example.com");
    let res = finish_query(&p.plan, QueryOutcome::Answered(mixed_answers())).unwrap();
    assert_eq!(res.dns_server, "cloudflare");
    assert_eq!(res.record_type, "A");
    assert_eq!(res.dns_record.len(), 2);
}

#[test]
fn echoed_type_is_upper_case() {
    for (input, expected) in [("a", "A"), ("aaaa", "AAAA"), ("cName", "CNAME"), ("Ns", "NS"), ("txt", "TXT")] {
        let p = prepare_query(&query("example.com", input, "google")).unwrap();
        let res = finish_query(&p.plan, QueryOutcome::Answered(vec![])).unwrap();
        assert_eq!(res.record_type, expected);
        assert!(res.dns_record.is_empty());
    }
}

#[test]
fn plain_path_keeps_requested_type_only() {
    let p = prepare_query(&query("example.com", "A", "google")).unwrap();
    let res = finish_query(&p.plan, QueryOutcome::Answered(mixed_answers())).unwrap();
    let values: Vec<&str> = res.dns_record.iter().map(|r| r.value.as_str()).collect();
    assert_eq!(values, vec!["93.184.216.34", "93.184.216.35"]);
    assert_eq!(res.dns_record[0].ttl, 60);
    assert_eq!(res.dns_record[1].ttl, 61);

    let p = prepare_query(&query("example.com", "cname", "google")).unwrap();
    let res = finish_query(&p.plan, QueryOutcome::Answered(mixed_answers())).unwrap();
    assert_eq!(res.dns_record.len(), 1);
    assert_eq!(res.dns_record[0].value, "www.example.net.");
    assert_eq!(res.dns_record[0].ttl, 300);
}

#[test]
fn dnssec_path_passes_every_type() {
    let q = DnsSecQuery {
        domain: "example.com".to_string(),
        dns_server: "open".to_string(),
        record_type: "a".to_string(),
    };
    let p = prepare_dnssec_query(&q).unwrap();
    assert_eq!(p.plan.target, "8.8.4.4:53");
    let mut answers = mixed_answers();
    answers.push(record(46, "rrsig", 60, "signature"));
    let res = finish_dnssec_query(&p.plan, QueryOutcome::Answered(answers)).unwrap();
    assert_eq!(res.dns_server, "open");
    let kinds: Vec<&str> = res.dns_record.iter().map(|r| r.record_type.as_str()).collect();
    assert_eq!(kinds, vec!["CNAME", "A", "A", "RRSIG"]);
    assert_eq!(res.dns_record[0].value, "www.example.net.");
    assert_eq!(res.dns_record[3].ttl, 60);
}

#[test]
fn timeout_is_not_a_business_error() {
    let p = prepare_query(&query("example.com", "A", "cloudflare")).unwrap();
    let e = finish_query(&p.plan, QueryOutcome::QueryFailed("timed out".to_string())).unwrap_err();
    assert_eq!(e.code, "QUERY_DNS_TIMEOUT");
    assert_eq!(e.msg, "timed out");
    let e = finish_dnssec_query(&p.plan, QueryOutcome::QueryFailed("timed out".to_string()))
        .unwrap_err();
    assert_eq!(e.code, "QUERY_DNS_TIMEOUT");
}

#[test]
fn session_failure_is_a_business_error() {
    let p = prepare_query(&query("example.com", "A", "cloudflare")).unwrap();
    let e = finish_query(&p.plan, QueryOutcome::ConnectFailed("refused".to_string())).unwrap_err();
    assert_eq!(e.code, "BUS500");
    assert_eq!(e.msg, "refused");
    let e = finish_dnssec_query(&p.plan, QueryOutcome::ConnectFailed("refused".to_string()))
        .unwrap_err();
    assert_eq!(e.code, "BUS500");
}

#[test]
fn normalizers_on_empty_answers() {
    assert!(normalize_plain(RecordKind::A, &vec![]).is_empty());
    assert!(normalize_dnssec(&vec![]).is_empty());
}

#[test]
fn sec_record_upper_cases_its_type() {
    let r = DnsRecordSecResult::new("aaaa", 30, "::1".to_string());
    assert_eq!(r.record_type, "AAAA");
    assert_eq!(r.ttl, 30);
    assert_eq!(r.value, "::1");
}

#[test]
fn leading_zero_resolver_is_refused() {
    let e = prepare_query(&query("example.com", "A", "010.1.1.1")).unwrap_err();
    assert_eq!(e.code, "BUS500");
    assert_eq!(e.msg, "dns 服务器 ip地址不正确!");
}

#[test]
fn name_refused_by_protocol_library_is_business_error() {
    let domain = format!("example.{}", "b".repeat(64));
    let e = prepare_query(&query(&domain, "A", "google")).unwrap_err();
    assert_eq!(e.code, "BUS500");
    assert_eq!(e.msg, INVALID_NAME_MSG);
}

#[test]
fn first_failing_check_decides_message() {
    let cases = [
        (" ", "MX", ""),
        ("bad_domain", "", ""),
        ("example.com", "\t", ""),
        ("example.com", "mx", ""),
        ("example.com", "a", " "),
    ];
    let expected = ["域名不能为空!", "域名格式不正确!", "记录类型不能为空!", "不支持的记录类型!", "dns供应商不能为空!"];
    for (c, m) in cases.iter().zip(expected.iter()) {
        let e = prepare_query(&query(c.0, c.1, c.2)).unwrap_err();
        assert_eq!(e.code, "BUS500");
        assert_eq!(&e.msg, m);
    }
}
