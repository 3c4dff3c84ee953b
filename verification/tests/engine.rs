//! Tests of the probe-record conversion, the per-name and batch assembly,
//! and request validation.

use pkg_check::checker::{
    batch_check_from_reports, check_name_results, name_check_from_reports, probe_result, summarize,
    validate_batch, validate_selection, ProbeOutcome, ProbeReport, ValidationError,
    MAX_BATCH_NAMES, PROBE_CONCURRENCY,
};
use pkg_check::registry::{all_registries, Registry};
use pkg_check::types::{Availability, PackageResult};

fn find<'a>(regs: &'a [Registry], id: &str) -> &'a Registry {
    regs.iter().find(|r| r.id == id).unwrap()
}

fn response(status: u16, body: &str, elapsed_ms: u64) -> ProbeReport {
    ProbeReport {
        outcome: ProbeOutcome::Response {
            status,
            body: Some(body.to_string()),
        },
        elapsed_ms,
    }
}

fn failure(message: &str, elapsed_ms: u64) -> ProbeReport {
    ProbeReport {
        outcome: ProbeOutcome::Failure {
            message: message.to_string(),
        },
        elapsed_ms,
    }
}

#[test]
fn probe_result_on_success_classifies_and_fills_urls() {
    let regs = all_registries();
    let npm = find(&regs, "npm");
    let report = response(404, "{\"error\":\"Not found\"}", 42);
    let r = probe_result(npm, "left-pad", &report);
    assert_eq!(r.registry_id, "npm");
    assert_eq!(r.registry_name, "npm");
    assert_eq!(r.available, Availability::Available);
    assert_eq!(
        r.browse_url,
        Some("https://www.npmjs.com/package/left-pad".to_string())
    );
    assert_eq!(r.elapsed_ms, 42);
    assert_eq!(r.error, None);
}

#[test]
fn probe_result_on_transport_failure_is_unknown_with_error() {
    let regs = all_registries();
    let pypi = find(&regs, "pypi");
    let report = failure("connection refused", 7);
    let r = probe_result(pypi, "requests", &report);
    assert_eq!(r.available, Availability::Unknown);
    assert_eq!(r.error, Some("connection refused".to_string()));
    assert!(!r.error.unwrap().is_empty());
    assert_eq!(
        r.browse_url,
        Some("https://pypi.org/project/requests/".to_string())
    );
}

fn record(available: Availability) -> PackageResult {
    PackageResult {
        registry_id: "r".to_string(),
        registry_name: "R".to_string(),
        available,
        browse_url: None,
        elapsed_ms: 0,
        error: None,
    }
}

#[test]
fn summarize_counts_each_verdict() {
    let results = vec![
        record(Availability::Available),
        record(Availability::Taken),
        record(Availability::Available),
        record(Availability::Unknown),
    ];
    let s = summarize(&results);
    assert_eq!(s.available, 2);
    assert_eq!(s.taken, 1);
    assert_eq!(s.unknown, 1);
    assert_eq!(s.total, 4);
    assert_eq!(s.available + s.taken + s.unknown, s.total);
}

#[test]
fn check_name_results_summary_partitions_the_results() {
    let results = vec![
        record(Availability::Taken),
        record(Availability::Taken),
        record(Availability::Unknown),
    ];
    let cr = check_name_results("demo".to_string(), results, 12);
    assert_eq!(cr.name, "demo");
    assert_eq!(cr.summary.total, cr.results.len());
    assert_eq!(
        cr.summary.available + cr.summary.taken + cr.summary.unknown,
        cr.summary.total
    );
    assert_eq!(cr.summary.taken, 2);
    assert_eq!(cr.elapsed_ms, 12);
}

#[test]
fn name_check_trims_the_name_and_keeps_registry_order() {
    let regs = all_registries();
    let selected = vec![find(&regs, "npm"), find(&regs, "crates")];
    let reports = vec![response(200, "{}", 5), response(404, "", 6)];
    let cr = name_check_from_reports("  serde  ", &selected, &reports, 11);
    assert_eq!(cr.name, "serde");
    assert_eq!(cr.results.len(), 2);
    assert_eq!(cr.results[0].registry_id, "npm");
    assert_eq!(cr.results[0].available, Availability::Taken);
    assert_eq!(cr.results[1].registry_id, "crates");
    assert_eq!(cr.results[1].available, Availability::Available);
    assert_eq!(
        cr.results[0].browse_url,
        Some("https://www.npmjs.com/package/serde".to_string())
    );
}

#[test]
fn failed_probe_does_not_disturb_its_siblings() {
    let regs = all_registries();
    let selected = vec![find(&regs, "npm"), find(&regs, "pypi"), find(&regs, "crates")];
    let reports = vec![
        response(404, "", 1),
        failure("connection refused", 2),
        response(200, "{}", 3),
    ];
    let cr = name_check_from_reports("demo", &selected, &reports, 9);
    assert_eq!(cr.results.len(), 3);
    assert_eq!(cr.results[0].available, Availability::Available);
    assert_eq!(cr.results[1].available, Availability::Unknown);
    assert!(!cr.results[1].error.as_ref().unwrap().is_empty());
    assert_eq!(cr.results[2].available, Availability::Taken);
    assert_eq!(cr.summary.total, 3);
    assert_eq!(cr.summary.available, 1);
    assert_eq!(cr.summary.taken, 1);
    assert_eq!(cr.summary.unknown, 1);
}

#[test]
fn batch_produces_one_result_per_name_with_one_record_per_registry() {
    let regs = all_registries();
    let selected = vec![find(&regs, "npm"), find(&regs, "pypi"), find(&regs, "crates")];
    let names = vec!["alpha".to_string(), "beta".to_string()];
    let reports = vec![
        vec![response(404, "", 1), response(404, "", 2), response(404, "", 3)],
        vec![response(200, "{}", 4), response(200, "{}", 5), response(200, "{}", 6)],
    ];
    let elapsed = vec![10, 20];
    let out = batch_check_from_reports(&names, &selected, &reports, &elapsed);
    assert_eq!(out.len(), 2);
    for cr in &out {
        assert_eq!(cr.results.len(), 3);
        assert_eq!(cr.summary.total, 3);
    }
    assert_eq!(out[0].name, "alpha");
    assert_eq!(out[0].summary.available, 3);
    assert_eq!(out[1].name, "beta");
    assert_eq!(out[1].summary.taken, 3);

    // The shape is the same with the names the other way round.
    let names_rev = vec!["beta".to_string(), "alpha".to_string()];
    let reports_rev = vec![
        vec![response(200, "{}", 4), response(200, "{}", 5), response(200, "{}", 6)],
        vec![response(404, "", 1), response(404, "", 2), response(404, "", 3)],
    ];
    let out_rev = batch_check_from_reports(&names_rev, &selected, &reports_rev, &elapsed);
    assert_eq!(out_rev.len(), 2);
    for cr in &out_rev {
        assert_eq!(cr.results.len(), 3);
    }
    assert_eq!(out_rev[0].name, "beta");
    assert_eq!(out_rev[1].name, "alpha");
}

#[test]
fn validate_batch_rejects_an_empty_batch() {
    assert_eq!(validate_batch(0, 10), Err(ValidationError::EmptyNames));
}

#[test]
fn validate_batch_rejects_too_many_names() {
    assert_eq!(
        validate_batch(MAX_BATCH_NAMES + 1, 10),
        Err(ValidationError::TooManyNames)
    );
}

#[test]
fn validate_batch_rejects_an_empty_registry_set() {
    assert_eq!(validate_batch(3, 0), Err(ValidationError::NoRegistries));
}

#[test]
fn validate_batch_accepts_a_full_batch() {
    assert_eq!(validate_batch(MAX_BATCH_NAMES, 1), Ok(()));
    assert_eq!(validate_batch(1, 1), Ok(()));
}

#[test]
fn validate_selection_requires_a_registry() {
    assert_eq!(validate_selection(0), Err(ValidationError::NoRegistries));
    assert_eq!(validate_selection(4), Ok(()));
}

#[test]
fn validation_errors_carry_messages() {
    assert!(!ValidationError::EmptyNames.message().is_empty());
    assert_eq!(
        ValidationError::TooManyNames.message(),
        "Maximum 50 names per request"
    );
    assert_eq!(
        ValidationError::NoRegistries.message(),
        "No valid registries specified"
    );
}

#[test]
fn verdict_labels() {
    assert_eq!(Availability::Available.label(), "AVAILABLE");
    assert_eq!(Availability::Taken.label(), "TAKEN");
    assert_eq!(Availability::Unknown.label(), "UNKNOWN");
}

#[test]
fn probe_concurrency_is_twenty() {
    assert_eq!(PROBE_CONCURRENCY, 20);
}
