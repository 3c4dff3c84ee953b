//! The checking engine's pure core: the signal classifier that turns an
//! HTTP status and body into a verdict, the conversion of one probe's raw
//! outcome into a per-registry record, and the aggregation of records into
//! per-name and batch results.

use vstd::prelude::*;

use crate::registry::{browse_url, distinct_ids, placeholder, AvailableSignal, Registry};
use crate::text::{contains_substr, replace_with, seq_has_str, str_contains, str_eq, trim_str, trimmed,
    vec_has_str};
use crate::types::{count_with, summary_matches, Availability, CheckResult, PackageResult, Summary};

verus! {

/// The top level of a JSON document, with just what the classification
/// rules read: whether the text parses, the top-level kind, an array's
/// length, and an object's keys.
#[derive(Debug)]
pub enum JsonTop {
    Invalid,
    Null,
    Truth(bool),
    Num,
    Text,
    Arr(usize),
    Obj(Vec<String>),
}

/// The top level of the JSON document `s`, as `serde_json::from_str` parses
/// it: parse failure, or the top-level value's kind, with an array's length
/// and an object's key list (in the parser's deterministic key order). The
/// result depends on the text alone.
pub uninterp spec fn json_top_of(s: Seq<char>) -> JsonTop;

/// Relies on `serde_json::from_str::<serde_json::Value>`: parses the text as
/// a JSON document, deterministically.
#[verifier::external_body]
fn json_top(s: &str) -> (t: JsonTop)
    ensures
        t == json_top_of(s@),
{
    match serde_json::from_str::<serde_json::Value>(s) {
        Err(_) => JsonTop::Invalid,
        Ok(serde_json::Value::Null) => JsonTop::Null,
        Ok(serde_json::Value::Bool(b)) => JsonTop::Truth(b),
        Ok(serde_json::Value::Number(_)) => JsonTop::Num,
        Ok(serde_json::Value::String(_)) => JsonTop::Text,
        Ok(serde_json::Value::Array(a)) => JsonTop::Arr(a.len()),
        Ok(serde_json::Value::Object(m)) => JsonTop::Obj(m.keys().cloned().collect()),
    }
}

/// An HTTP status is a success exactly when it lies in the 2xx range, as
/// `reqwest::StatusCode::is_success` reports it.
pub open spec fn is_success(status: u16) -> bool {
    200 <= status < 300
}

/// The verdict for one signal kind, status and optional body, exactly as
/// the classifier computes it.
pub open spec fn spec_classify(
    signal: AvailableSignal,
    status: u16,
    body: Option<Seq<char>>,
) -> Availability {
    match signal {
        AvailableSignal::Http404 => {
            if status == 404 || status == 410 {
                Availability::Available
            } else if is_success(status) {
                Availability::Taken
            } else {
                Availability::Unknown
            }
        },
        AvailableSignal::EmptyResults => {
            if !is_success(status) {
                if status == 404 {
                    Availability::Available
                } else {
                    Availability::Unknown
                }
            } else {
                match body {
                    None => Availability::Unknown,
                    Some(text) => {
                        let t = trimmed(text);
                        if t.len() == 0 || t == "[]"@ {
                            Availability::Available
                        } else {
                            match json_top_of(t) {
                                JsonTop::Invalid => Availability::Unknown,
                                JsonTop::Arr(n) => {
                                    if n == 0 {
                                        Availability::Available
                                    } else {
                                        Availability::Taken
                                    }
                                },
                                _ => Availability::Taken,
                            }
                        }
                    },
                }
            }
        },
        AvailableSignal::NullOrError => {
            if status == 404 {
                Availability::Available
            } else if !is_success(status) {
                Availability::Unknown
            } else {
                match body {
                    None => Availability::Unknown,
                    Some(text) => {
                        let t = trimmed(text);
                        if t == "null"@ || t == "false"@ {
                            Availability::Available
                        } else {
                            match json_top_of(t) {
                                JsonTop::Invalid => Availability::Unknown,
                                JsonTop::Null => Availability::Available,
                                JsonTop::Obj(keys) => {
                                    if seq_has_str(keys@, "error"@) {
                                        Availability::Available
                                    } else {
                                        Availability::Taken
                                    }
                                },
                                _ => Availability::Taken,
                            }
                        }
                    },
                }
            }
        },
        AvailableSignal::XmlNoEntry => {
            if !is_success(status) {
                Availability::Unknown
            } else {
                match body {
                    None => Availability::Unknown,
                    Some(text) => {
                        if contains_substr(text, "<entry"@) {
                            Availability::Taken
                        } else {
                            Availability::Available
                        }
                    },
                }
            }
        },
    }
}

/// The view of an optional body.
pub open spec fn body_view(body: Option<&str>) -> Option<Seq<char>> {
    match body {
        Some(s) => Some(s@),
        None => None,
    }
}

/// Map one probe's signal kind, HTTP status and optional body text to a
/// verdict. Deterministic and side-effect free; the rules are the
/// registry-specific conventions (404-on-missing, empty-array-on-no-match,
/// null-or-error-object-on-missing, feed-entry presence).
pub fn dispatch_signal(signal: AvailableSignal, status: u16, body: Option<&str>) -> (r:
    Availability)
    ensures
        r == spec_classify(signal, status, body_view(body)),
{
    match signal {
        AvailableSignal::Http404 => {
            if status == 404 || status == 410 {
                Availability::Available
            } else if 200 <= status && status < 300 {
                Availability::Taken
            } else {
                Availability::Unknown
            }
        },
        AvailableSignal::EmptyResults => {
            if !(200 <= status && status < 300) {
                if status == 404 {
                    Availability::Available
                } else {
                    Availability::Unknown
                }
            } else {
                match body {
                    None => Availability::Unknown,
                    Some(text) => {
                        let t = trim_str(text);
                        if t.is_empty() || str_eq(t, "[]") {
                            Availability::Available
                        } else {
                            match json_top(t) {
                                JsonTop::Invalid => Availability::Unknown,
                                JsonTop::Arr(n) => {
                                    if n == 0 {
                                        Availability::Available
                                    } else {
                                        Availability::Taken
                                    }
                                },
                                _ => Availability::Taken,
                            }
                        }
                    },
                }
            }
        },
        AvailableSignal::NullOrError => {
            if status == 404 {
                Availability::Available
            } else if !(200 <= status && status < 300) {
                Availability::Unknown
            } else {
                match body {
                    None => Availability::Unknown,
                    Some(text) => {
                        let t = trim_str(text);
                        if str_eq(t, "null") || str_eq(t, "false") {
                            Availability::Available
                        } else {
                            match json_top(t) {
                                JsonTop::Invalid => Availability::Unknown,
                                JsonTop::Null => Availability::Available,
                                JsonTop::Obj(keys) => {
                                    if vec_has_str(&keys, "error") {
                                        Availability::Available
                                    } else {
                                        Availability::Taken
                                    }
                                },
                                _ => Availability::Taken,
                            }
                        }
                    },
                }
            }
        },
        AvailableSignal::XmlNoEntry => {
            if !(200 <= status && status < 300) {
                Availability::Unknown
            } else {
                match body {
                    None => Availability::Unknown,
                    Some(text) => {
                        if str_contains(text, "<entry") {
                            Availability::Taken
                        } else {
                            Availability::Available
                        }
                    },
                }
            }
        },
    }
}

/// Capacity of the permit pool that bounds simultaneous probes across one
/// whole checking invocation, names and registries together.
pub const PROBE_CONCURRENCY: usize = 20;

/// Hard timeout of one probe, in seconds.
pub const PROBE_TIMEOUT_SECS: u64 = 10;

/// Most names one batch request may carry.
pub const MAX_BATCH_NAMES: usize = 50;

/// What one probe came back with: a response, or a transport failure
/// (connect error, timeout, name resolution) with its description.
#[derive(Debug)]
pub enum ProbeOutcome {
    Response { status: u16, body: Option<String> },
    Failure { message: String },
}

/// One probe's outcome together with its elapsed time, measured from the
/// moment the probe's permit was acquired.
#[derive(Debug)]
pub struct ProbeReport {
    pub outcome: ProbeOutcome,
    pub elapsed_ms: u64,
}

/// The view of an optional owned string.
pub open spec fn opt_text_view(text: Option<String>) -> Option<Seq<char>> {
    match text {
        Some(s) => Some(s@),
        None => None,
    }
}

/// The verdict that one probe's outcome classifies to: a response goes
/// through the signal rules, a transport failure is never conclusive.
pub open spec fn outcome_verdict(signal: AvailableSignal, outcome: ProbeOutcome) -> Availability {
    match outcome {
        ProbeOutcome::Response { status, body } => spec_classify(
            signal,
            status,
            opt_text_view(body),
        ),
        ProbeOutcome::Failure { .. } => Availability::Unknown,
    }
}

/// The record that one probe of `registry` for `name` with report `report`
/// produces: id and display name taken from the registry, the verdict from
/// the outcome, the browse URL always filled in from the template, and an
/// error description exactly on transport failure.
pub open spec fn is_probe_record(
    r: PackageResult,
    registry: Registry,
    name: Seq<char>,
    report: ProbeReport,
) -> bool {
    &&& r.registry_id@ == registry.id@
    &&& r.registry_name@ == registry.name@
    &&& r.available == outcome_verdict(registry.signal, report.outcome)
    &&& r.browse_url matches Some(u) && u@ == replace_with(
        registry.browse_url_template@,
        placeholder(),
        name,
    )
    &&& r.elapsed_ms == report.elapsed_ms
    &&& (match report.outcome {
        ProbeOutcome::Failure { message } => r.error matches Some(e) && e@ == message@,
        ProbeOutcome::Response { .. } => r.error is None,
    })
}

/// Turn one probe's raw report into its per-registry record.
pub fn probe_result(registry: &Registry, name: &str, report: &ProbeReport) -> (r: PackageResult)
    ensures
        is_probe_record(r, *registry, name@, *report),
{
    let browse = browse_url(registry, name);
    match &report.outcome {
        ProbeOutcome::Response { status, body } => {
            let body_ref: Option<&str> = match body {
                Some(t) => Some(t.as_str()),
                None => None,
            };
            let available = dispatch_signal(registry.signal, *status, body_ref);
            PackageResult {
                registry_id: registry.id.clone(),
                registry_name: registry.name.clone(),
                available,
                browse_url: Some(browse),
                elapsed_ms: report.elapsed_ms,
                error: None,
            }
        },
        ProbeOutcome::Failure { message } => PackageResult {
            registry_id: registry.id.clone(),
            registry_name: registry.name.clone(),
            available: Availability::Unknown,
            browse_url: Some(browse),
            elapsed_ms: report.elapsed_ms,
            error: Some(message.clone()),
        },
    }
}

/// Count each verdict across one name's results.
pub fn summarize(results: &Vec<PackageResult>) -> (s: Summary)
    ensures
        summary_matches(s, results@),
        s.available + s.taken + s.unknown == s.total,
{
    let mut available: usize = 0;
    let mut taken: usize = 0;
    let mut unknown: usize = 0;
    let mut i: usize = 0;
    while i < results.len()
        invariant
            i <= results@.len(),
            available == count_with(results@.take(i as int), Availability::Available),
            taken == count_with(results@.take(i as int), Availability::Taken),
            unknown == count_with(results@.take(i as int), Availability::Unknown),
            available + taken + unknown == i,
        decreases results@.len() - i,
    {
        proof {
            assert(results@.take(i + 1).drop_last() =~= results@.take(i as int));
        }
        match results[i].available {
            Availability::Available => available = available + 1,
            Availability::Taken => taken = taken + 1,
            Availability::Unknown => unknown = unknown + 1,
        }
        i = i + 1;
    }
    proof {
        assert(results@.take(results@.len() as int) =~= results@);
    }
    Summary { available, taken, unknown, total: results.len() }
}

/// Assemble one name's record from the results its probes returned. The
/// summary counts partition the collection: available plus taken plus
/// unknown equals total, and total is the number of results.
pub fn check_name_results(name: String, results: Vec<PackageResult>, elapsed_ms: u64) -> (cr:
    CheckResult)
    ensures
        cr.name == name,
        cr.results == results,
        summary_matches(cr.summary, results@),
        cr.summary.available + cr.summary.taken + cr.summary.unknown == cr.summary.total,
        cr.summary.total == results@.len(),
        cr.elapsed_ms == elapsed_ms,
{
    let summary = summarize(&results);
    CheckResult { name, summary, results, elapsed_ms }
}

/// One name's whole check, given a report for every selected registry: what
/// the concurrent engine computes once each probe has reported back. The
/// name is trimmed first, one record is produced per registry in order, and
/// the summary counts the verdicts.
pub fn name_check_from_reports(
    name: &str,
    regs: &Vec<&Registry>,
    reports: &Vec<ProbeReport>,
    elapsed_ms: u64,
) -> (cr: CheckResult)
    requires
        reports@.len() == regs@.len(),
    ensures
        cr.name@ == trimmed(name@),
        cr.results@.len() == regs@.len(),
        forall|i: int|
            0 <= i < regs@.len() ==> is_probe_record(
                #[trigger] cr.results@[i],
                *regs@[i],
                trimmed(name@),
                reports@[i],
            ),
        summary_matches(cr.summary, cr.results@),
        cr.summary.available + cr.summary.taken + cr.summary.unknown == cr.summary.total,
        cr.elapsed_ms == elapsed_ms,
{
    let trimmed_name = trim_str(name).to_owned();
    let mut results: Vec<PackageResult> = Vec::new();
    let mut i: usize = 0;
    while i < regs.len()
        invariant
            i <= regs@.len(),
            reports@.len() == regs@.len(),
            trimmed_name@ == trimmed(name@),
            results@.len() == i,
            forall|j: int|
                0 <= j < i ==> is_probe_record(
                    #[trigger] results@[j],
                    *regs@[j],
                    trimmed(name@),
                    reports@[j],
                ),
        decreases regs@.len() - i,
    {
        results.push(probe_result(regs[i], trimmed_name.as_str(), &reports[i]));
        i = i + 1;
    }
    check_name_results(trimmed_name, results, elapsed_ms)
}

/// A whole batch, given each name's reports: as many per-name results as
/// names, each holding one per-registry record per selected registry,
/// whatever order the names come in.
pub fn batch_check_from_reports(
    names: &Vec<String>,
    regs: &Vec<&Registry>,
    reports: &Vec<Vec<ProbeReport>>,
    elapsed_ms: &Vec<u64>,
) -> (out: Vec<CheckResult>)
    requires
        reports@.len() == names@.len(),
        elapsed_ms@.len() == names@.len(),
        forall|k: int| 0 <= k < reports@.len() ==> (#[trigger] reports@[k])@.len() == regs@.len(),
    ensures
        out@.len() == names@.len(),
        forall|k: int|
            0 <= k < out@.len() ==> {
                &&& (#[trigger] out@[k]).name@ == trimmed(names@[k]@)
                &&& out@[k].results@.len() == regs@.len()
                &&& summary_matches(out@[k].summary, out@[k].results@)
                &&& out@[k].elapsed_ms == elapsed_ms@[k]
                &&& forall|i: int|
                    0 <= i < regs@.len() ==> is_probe_record(
                        #[trigger] out@[k].results@[i],
                        *regs@[i],
                        trimmed(names@[k]@),
                        reports@[k]@[i],
                    )
            },
{
    let mut out: Vec<CheckResult> = Vec::new();
    let mut k: usize = 0;
    while k < names.len()
        invariant
            k <= names@.len(),
            reports@.len() == names@.len(),
            elapsed_ms@.len() == names@.len(),
            forall|m: int| 0 <= m < reports@.len() ==> (#[trigger] reports@[m])@.len()
                == regs@.len(),
            out@.len() == k,
            forall|m: int|
                0 <= m < k ==> {
                    &&& (#[trigger] out@[m]).name@ == trimmed(names@[m]@)
                    &&& out@[m].results@.len() == regs@.len()
                    &&& summary_matches(out@[m].summary, out@[m].results@)
                    &&& out@[m].elapsed_ms == elapsed_ms@[m]
                    &&& forall|i: int|
                        0 <= i < regs@.len() ==> is_probe_record(
                            #[trigger] out@[m].results@[i],
                            *regs@[i],
                            trimmed(names@[m]@),
                            reports@[m]@[i],
                        )
                },
        decreases names@.len() - k,
    {
        out.push(name_check_from_reports(names[k].as_str(), regs, &reports[k], elapsed_ms[k]));
        k = k + 1;
    }
    out
}

/// The status rule of the `Http404` signal, for every body: 404 and 410 mean
/// the name is free, any other 2xx answer means it is taken, and any other
/// status is inconclusive.
pub proof fn lemma_http404_statuses(status: u16, body: Option<Seq<char>>)
    ensures
        (status == 404 || status == 410) ==> spec_classify(AvailableSignal::Http404, status, body)
            == Availability::Available,
        (is_success(status) && status != 404 && status != 410) ==> spec_classify(
            AvailableSignal::Http404,
            status,
            body,
        ) == Availability::Taken,
        (!is_success(status) && status != 404 && status != 410) ==> spec_classify(
            AvailableSignal::Http404,
            status,
            body,
        ) == Availability::Unknown,
{
}

/// The status rule of the `EmptyResults` signal, for every body: 404 means
/// the name is free whatever the body holds, and any other non-success
/// status is inconclusive.
pub proof fn lemma_empty_results_statuses(status: u16, body: Option<Seq<char>>)
    ensures
        status == 404 ==> spec_classify(AvailableSignal::EmptyResults, status, body)
            == Availability::Available,
        (!is_success(status) && status != 404) ==> spec_classify(
            AvailableSignal::EmptyResults,
            status,
            body,
        ) == Availability::Unknown,
{
}

/// The status rule of the `NullOrError` signal, for every body: 404 means
/// the name is free whatever the body holds, and any other non-success
/// status is inconclusive.
pub proof fn lemma_null_or_error_statuses(status: u16, body: Option<Seq<char>>)
    ensures
        status == 404 ==> spec_classify(AvailableSignal::NullOrError, status, body)
            == Availability::Available,
        (!is_success(status) && status != 404) ==> spec_classify(
            AvailableSignal::NullOrError,
            status,
            body,
        ) == Availability::Unknown,
{
}

/// The rules of the `XmlNoEntry` signal, for every body: any non-success
/// status is inconclusive, and on success the verdict turns on whether the
/// feed holds an entry element.
pub proof fn lemma_xml_no_entry_rule(status: u16, body: Option<Seq<char>>)
    ensures
        !is_success(status) ==> spec_classify(AvailableSignal::XmlNoEntry, status, body)
            == Availability::Unknown,
        (is_success(status) && body is Some) ==> spec_classify(
            AvailableSignal::XmlNoEntry,
            status,
            body,
        ) == (if contains_substr(body->Some_0, "<entry"@) {
            Availability::Taken
        } else {
            Availability::Available
        }),
{
}

/// Why a request was rejected before any probe was issued.
#[derive(Debug, Clone, Copy, PartialEq, Eq, Structural)]
pub enum ValidationError {
    EmptyNames,
    TooManyNames,
    NoRegistries,
}

impl ValidationError {
    /// The message shown for a rejected request.
    pub fn message(&self) -> (s: &'static str)
        ensures
            s@ == (match *self {
                ValidationError::EmptyNames => "names list cannot be empty"@,
                ValidationError::TooManyNames => "Maximum 50 names per request"@,
                ValidationError::NoRegistries => "No valid registries specified"@,
            }),
    {
        match self {
            ValidationError::EmptyNames => "names list cannot be empty",
            ValidationError::TooManyNames => "Maximum 50 names per request",
            ValidationError::NoRegistries => "No valid registries specified",
        }
    }
}

/// Reject an invalid batch request synchronously, before any network
/// activity: there must be at least one name, at most the cap, and at least
/// one resolved registry.
pub fn validate_batch(names_len: usize, registries_len: usize) -> (r: Result<(), ValidationError>)
    ensures
        r is Ok <==> (1 <= names_len <= MAX_BATCH_NAMES && registries_len > 0),
        (r matches Err(e) && e == ValidationError::EmptyNames) <==> names_len == 0,
        (r matches Err(e) && e == ValidationError::TooManyNames) <==> names_len > MAX_BATCH_NAMES,
        (r matches Err(e) && e == ValidationError::NoRegistries) <==> (1 <= names_len
            <= MAX_BATCH_NAMES && registries_len == 0),
{
    if names_len == 0 {
        Err(ValidationError::EmptyNames)
    } else if names_len > MAX_BATCH_NAMES {
        Err(ValidationError::TooManyNames)
    } else if registries_len == 0 {
        Err(ValidationError::NoRegistries)
    } else {
        Ok(())
    }
}

/// Reject a single-name request whose resolved registry set is empty.
pub fn validate_selection(registries_len: usize) -> (r: Result<(), ValidationError>)
    ensures
        r is Ok <==> registries_len > 0,
        r is Err ==> (r matches Err(e) && e == ValidationError::NoRegistries),
{
    if registries_len == 0 {
        Err(ValidationError::NoRegistries)
    } else {
        Ok(())
    }
}

/// The view of every field of a per-registry record.
pub open spec fn record_views(r: PackageResult) -> (
    Seq<char>,
    Seq<char>,
    Availability,
    Option<Seq<char>>,
    u64,
    Option<Seq<char>>,
) {
    (
        r.registry_id@,
        r.registry_name@,
        r.available,
        opt_text_view(r.browse_url),
        r.elapsed_ms,
        opt_text_view(r.error),
    )
}

/// Two records produced for the same registry, name and report agree in
/// every field, up to the identity of their strings.
pub proof fn lemma_record_determined(
    r1: PackageResult,
    r2: PackageResult,
    registry: Registry,
    name: Seq<char>,
    report: ProbeReport,
)
    requires
        is_probe_record(r1, registry, name, report),
        is_probe_record(r2, registry, name, report),
    ensures
        record_views(r1) == record_views(r2),
{
}

/// What a check yields for one name is fixed by that name, the registry
/// set and its reports alone — not by the other names of a batch or their
/// order: two results assembled for the same name and reports agree in
/// their name, in every record field, and in their summary.
pub proof fn lemma_name_check_determined(
    cr1: CheckResult,
    cr2: CheckResult,
    regs: Seq<Registry>,
    name: Seq<char>,
    reports: Seq<ProbeReport>,
)
    requires
        cr1.name@ == trimmed(name),
        cr2.name@ == trimmed(name),
        cr1.results@.len() == regs.len(),
        cr2.results@.len() == regs.len(),
        forall|i: int|
            0 <= i < regs.len() ==> is_probe_record(
                #[trigger] cr1.results@[i],
                regs[i],
                trimmed(name),
                reports[i],
            ),
        forall|i: int|
            0 <= i < regs.len() ==> is_probe_record(
                #[trigger] cr2.results@[i],
                regs[i],
                trimmed(name),
                reports[i],
            ),
        summary_matches(cr1.summary, cr1.results@),
        summary_matches(cr2.summary, cr2.results@),
    ensures
        cr1.name@ == cr2.name@,
        cr1.results@.len() == cr2.results@.len(),
        forall|i: int|
            0 <= i < regs.len() ==> record_views(#[trigger] cr1.results@[i]) == record_views(
                cr2.results@[i],
            ),
        cr1.summary == cr2.summary,
{
    assert forall|i: int| 0 <= i < regs.len() implies record_views(#[trigger] cr1.results@[i])
        == record_views(cr2.results@[i]) by {
        lemma_record_determined(cr1.results@[i], cr2.results@[i], regs[i], trimmed(name), reports[i]);
    }
    assert forall|i: int| 0 <= i < cr1.results@.len() implies (#[trigger] cr1.results@[i]).available
        == cr2.results@[i].available by {
        assert(record_views(cr1.results@[i]) == record_views(cr2.results@[i]));
    }
    crate::types::lemma_counts_pointwise(cr1.results@, cr2.results@, Availability::Available);
    crate::types::lemma_counts_pointwise(cr1.results@, cr2.results@, Availability::Taken);
    crate::types::lemma_counts_pointwise(cr1.results@, cr2.results@, Availability::Unknown);
}

/// A transport failure is contained: the failing probe's record is Unknown
/// and carries the failure's description verbatim, its browse URL is still
/// filled in from the template, and every sibling record is still fixed by
/// its own registry and report.
pub proof fn lemma_transport_failure_contained(
    results: Seq<PackageResult>,
    regs: Seq<Registry>,
    name: Seq<char>,
    reports: Seq<ProbeReport>,
    i: int,
)
    requires
        results.len() == regs.len(),
        reports.len() == regs.len(),
        forall|j: int|
            0 <= j < regs.len() ==> is_probe_record(#[trigger] results[j], regs[j], name, reports[j]),
        0 <= i < regs.len(),
        reports[i].outcome matches ProbeOutcome::Failure { .. },
    ensures
        results[i].available == Availability::Unknown,
        reports[i].outcome matches ProbeOutcome::Failure { message } ==> (results[i].error matches
            Some(e) && e@ == message@),
        results[i].browse_url matches Some(u) && u@ == replace_with(
            regs[i].browse_url_template@,
            placeholder(),
            name,
        ),
        forall|j: int|
            0 <= j < regs.len() && j != i ==> is_probe_record(
                #[trigger] results[j],
                regs[j],
                name,
                reports[j],
            ),
{
}

/// Within one name's check there is at most one record per registry id,
/// provided the selected registries carry pairwise distinct ids: each
/// record takes its id from its own registry.
pub proof fn lemma_results_distinct_ids(
    results: Seq<PackageResult>,
    regs: Seq<Registry>,
    name: Seq<char>,
    reports: Seq<ProbeReport>,
)
    requires
        distinct_ids(regs),
        results.len() == regs.len(),
        reports.len() == regs.len(),
        forall|i: int|
            0 <= i < regs.len() ==> is_probe_record(#[trigger] results[i], regs[i], name, reports[i]),
    ensures
        forall|i: int, j: int|
            0 <= i < j < results.len() ==> (#[trigger] results[i]).registry_id@ != (
            #[trigger] results[j]).registry_id@,
{
}

} // verus!
