use vstd::prelude::*;
use crate::text::{copy_text, same_text, to_upper, upper_of};

verus! {

broadcast use vstd::string::group_string_axioms;

/// The record types a query may ask for.
#[derive(Clone, Copy, Debug, PartialEq, Eq, Structural)]
pub enum RecordKind {
    A,
    AAAA,
    CNAME,
    NS,
    TXT,
}

/// The upper-case name of a record type.
pub open spec fn kind_name(k: RecordKind) -> Seq<char> {
    match k {
        RecordKind::A => "A"@,
        RecordKind::AAAA => "AAAA"@,
        RecordKind::CNAME => "CNAME"@,
        RecordKind::NS => "NS"@,
        RecordKind::TXT => "TXT"@,
    }
}

/// The record type whose upper-case name is `u`, if it is a supported one.
pub open spec fn kind_named(u: Seq<char>) -> Option<RecordKind> {
    if u == "A"@ {
        Some(RecordKind::A)
    } else if u == "AAAA"@ {
        Some(RecordKind::AAAA)
    } else if u == "CNAME"@ {
        Some(RecordKind::CNAME)
    } else if u == "NS"@ {
        Some(RecordKind::NS)
    } else if u == "TXT"@ {
        Some(RecordKind::TXT)
    } else {
        None
    }
}

/// The protocol's numeric code of a record type.
pub open spec fn kind_code(k: RecordKind) -> u16 {
    match k {
        RecordKind::A => 1,
        RecordKind::NS => 2,
        RecordKind::CNAME => 5,
        RecordKind::TXT => 16,
        RecordKind::AAAA => 28,
    }
}

/// Whether `s` holds no lower-case ASCII letter.
pub open spec fn no_lower_case(s: Seq<char>) -> bool {
    forall|i: int| 0 <= i < s.len() ==> !('a' <= #[trigger] s[i] && s[i] <= 'z')
}

impl RecordKind {
    /// The upper-case name of this record type.
    pub fn name(&self) -> (r: &'static str)
        ensures
            r@ == kind_name(*self),
    {
        match self {
            RecordKind::A => "A",
            RecordKind::AAAA => "AAAA",
            RecordKind::CNAME => "CNAME",
            RecordKind::NS => "NS",
            RecordKind::TXT => "TXT",
        }
    }

    /// The protocol's numeric code of this record type.
    pub fn code(&self) -> (r: u16)
        ensures
            r == kind_code(*self),
    {
        match self {
            RecordKind::A => 1,
            RecordKind::NS => 2,
            RecordKind::CNAME => 5,
            RecordKind::TXT => 16,
            RecordKind::AAAA => 28,
        }
    }
}

/// Each supported name belongs to its record type alone, and holds no
/// lower-case letter.
pub proof fn lemma_kind_names(k: RecordKind)
    ensures
        kind_named(kind_name(k)) == Some(k),
        no_lower_case(kind_name(k)),
{
    reveal_strlit("A");
    reveal_strlit("AAAA");
    reveal_strlit("CNAME");
    reveal_strlit("NS");
    reveal_strlit("TXT");
    assert("A"@.len() == 1 && "AAAA"@.len() == 4 && "CNAME"@.len() == 5);
    assert("NS"@.len() == 2 && "TXT"@.len() == 3);
}

/// The supported record type named by the already upper-cased text `u`.
pub fn kind_from_upper(u: &str) -> (r: Option<RecordKind>)
    ensures
        r == kind_named(u@),
{
    if same_text(u, "A") {
        Some(RecordKind::A)
    } else if same_text(u, "AAAA") {
        Some(RecordKind::AAAA)
    } else if same_text(u, "CNAME") {
        Some(RecordKind::CNAME)
    } else if same_text(u, "NS") {
        Some(RecordKind::NS)
    } else if same_text(u, "TXT") {
        Some(RecordKind::TXT)
    } else {
        None
    }
}

/// One answer record as the upstream resolver returned it.
#[derive(Debug)]
pub struct UpstreamRecord {
    /// The protocol's numeric code of the record's type.
    pub rtype: u16,
    /// The record's type as the protocol library names it.
    pub kind_text: String,
    pub ttl: u32,
    /// The record's data, as text.
    pub value: String,
}

/// One answer record on the plain path.
#[derive(Debug)]
pub struct DnsRecordResult {
    pub value: String,
    pub ttl: u32,
}

/// One answer record on the DNSSEC path, with its own type.
#[derive(Debug)]
pub struct DnsRecordSecResult {
    pub value: String,
    pub record_type: String,
    pub ttl: u32,
}

impl DnsRecordSecResult {
    /// A record carrying the upper-case form of the type name `kind_text`.
    pub fn new(kind_text: &str, ttl: u32, value: String) -> (r: DnsRecordSecResult)
        ensures
            r.record_type@ == upper_of(kind_text@),
            r.ttl == ttl,
            r.value@ == value@,
    {
        DnsRecordSecResult { value, record_type: to_upper(kind_text), ttl }
    }
}

/// The answers whose type is `kind`, in upstream order.
pub open spec fn kept(kind: RecordKind, answers: Seq<UpstreamRecord>) -> Seq<UpstreamRecord> {
    answers.filter(|a: UpstreamRecord| a.rtype == kind_code(kind))
}

/// The plain path's records: the answers of the requested type, in upstream
/// order, each with its text and time to live.
pub fn normalize_plain(kind: RecordKind, answers: &Vec<UpstreamRecord>) -> (r: Vec<
    DnsRecordResult,
>)
    ensures
        r@.len() == kept(kind, answers@).len(),
        forall|i: int|
            0 <= i < r@.len() ==> {
                &&& (#[trigger] r@[i]).value@ == kept(kind, answers@)[i].value@
                &&& r@[i].ttl == kept(kind, answers@)[i].ttl
            },
{
    let code = kind.code();
    let mut out: Vec<DnsRecordResult> = Vec::new();
    let mut i: usize = 0;
    while i < answers.len()
        invariant
            i <= answers@.len(),
            code == kind_code(kind),
            out@.len() == kept(kind, answers@.take(i as int)).len(),
            forall|j: int|
                0 <= j < out@.len() ==> {
                    &&& (#[trigger] out@[j]).value@ == kept(kind, answers@.take(i as int))[j].value@
                    &&& out@[j].ttl == kept(kind, answers@.take(i as int))[j].ttl
                },
        decreases answers@.len() - i,
    {
        let a = &answers[i];
        assert(answers@.take(i + 1).drop_last() =~= answers@.take(i as int));
        assert(answers@.take(i + 1).last() == answers@[i as int]);
        reveal(Seq::filter);
        if a.rtype == code {
            out.push(DnsRecordResult { value: copy_text(a.value.as_str()), ttl: a.ttl });
        }
        i = i + 1;
    }
    assert(answers@.take(answers@.len() as int) =~= answers@);
    out
}

/// On the plain path only answers of the requested type remain, and every
/// answer of that type remains: from a mix of address and alias records, a
/// query for addresses keeps the address records alone.
pub proof fn lemma_plain_keeps_requested_type(kind: RecordKind, answers: Seq<UpstreamRecord>)
    ensures
        forall|i: int|
            0 <= i < kept(kind, answers).len() ==> (#[trigger] kept(kind, answers)[i]).rtype
                == kind_code(kind),
        forall|i: int|
            0 <= i < answers.len() && (#[trigger] answers[i]).rtype == kind_code(kind)
                ==> kept(kind, answers).contains(answers[i]),
{
    broadcast use vstd::seq_lib::group_filter_ensures;

    let pred = |a: UpstreamRecord| a.rtype == kind_code(kind);
    assert forall|i: int|
        0 <= i < answers.len() && (#[trigger] answers[i]).rtype == kind_code(kind) implies kept(
        kind,
        answers,
    ).contains(answers[i]) by {
        assert(pred(answers[i]));
    }
}

/// The DNSSEC path's records: every answer, whatever its type, in upstream
/// order, each with its upper-cased type name, text and time to live.
pub fn normalize_dnssec(answers: &Vec<UpstreamRecord>) -> (r: Vec<DnsRecordSecResult>)
    ensures
        r@.len() == answers@.len(),
        forall|i: int|
            0 <= i < r@.len() ==> {
                &&& (#[trigger] r@[i]).record_type@ == upper_of(answers@[i].kind_text@)
                &&& r@[i].value@ == answers@[i].value@
                &&& r@[i].ttl == answers@[i].ttl
            },
{
    let mut out: Vec<DnsRecordSecResult> = Vec::new();
    let mut i: usize = 0;
    while i < answers.len()
        invariant
            i <= answers@.len(),
            out@.len() == i,
            forall|j: int|
                0 <= j < i ==> {
                    &&& (#[trigger] out@[j]).record_type@ == upper_of(answers@[j].kind_text@)
                    &&& out@[j].value@ == answers@[j].value@
                    &&& out@[j].ttl == answers@[j].ttl
                },
        decreases answers@.len() - i,
    {
        let a = &answers[i];
        out.push(DnsRecordSecResult::new(a.kind_text.as_str(), a.ttl, copy_text(a.value.as_str())));
        i = i + 1;
    }
    out
}

} // verus!
