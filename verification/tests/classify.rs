//! Scenario tests for the signal classifier.

use pkg_check::checker::dispatch_signal;
use pkg_check::registry::AvailableSignal;
use pkg_check::types::Availability;

fn classify(signal: AvailableSignal, status: u16, body: Option<&str>) -> Availability {
    dispatch_signal(signal, status, body)
}

#[test]
fn http404_status_404_is_available() {
    assert_eq!(
        classify(AvailableSignal::Http404, 404, None),
        Availability::Available
    );
}

#[test]
fn http404_status_410_is_available() {
    assert_eq!(
        classify(AvailableSignal::Http404, 410, Some("gone")),
        Availability::Available
    );
}

#[test]
fn http404_any_2xx_is_taken() {
    for status in [200u16, 201, 204, 299] {
        assert_eq!(
            classify(AvailableSignal::Http404, status, Some("{}")),
            Availability::Taken
        );
    }
}

#[test]
fn http404_other_status_is_unknown() {
    for status in [301u16, 403, 429, 500, 503] {
        assert_eq!(
            classify(AvailableSignal::Http404, status, None),
            Availability::Unknown
        );
    }
}

#[test]
fn empty_results_empty_array_is_available() {
    assert_eq!(
        classify(AvailableSignal::EmptyResults, 200, Some("[]")),
        Availability::Available
    );
}

#[test]
fn empty_results_nonempty_array_is_taken() {
    assert_eq!(
        classify(AvailableSignal::EmptyResults, 200, Some("[{\"k\":1}]")),
        Availability::Taken
    );
}

#[test]
fn empty_results_unparsable_body_is_unknown() {
    assert_eq!(
        classify(AvailableSignal::EmptyResults, 200, Some("not json")),
        Availability::Unknown
    );
}

#[test]
fn empty_results_404_is_available_regardless_of_body() {
    assert_eq!(
        classify(AvailableSignal::EmptyResults, 404, Some("[{\"k\":1}]")),
        Availability::Available
    );
}

#[test]
fn empty_results_other_failure_status_is_unknown() {
    assert_eq!(
        classify(AvailableSignal::EmptyResults, 500, Some("[]")),
        Availability::Unknown
    );
}

#[test]
fn empty_results_whitespace_only_body_is_available() {
    // Distinguishes real trimming: untrimmed, "   " neither is empty nor
    // parses as JSON.
    assert_eq!(
        classify(AvailableSignal::EmptyResults, 200, Some("   ")),
        Availability::Available
    );
}

#[test]
fn empty_results_padded_empty_array_is_available() {
    assert_eq!(
        classify(AvailableSignal::EmptyResults, 200, Some("  [ ] ")),
        Availability::Available
    );
}

#[test]
fn empty_results_no_body_is_unknown() {
    assert_eq!(
        classify(AvailableSignal::EmptyResults, 200, None),
        Availability::Unknown
    );
}

#[test]
fn empty_results_json_object_is_taken() {
    assert_eq!(
        classify(AvailableSignal::EmptyResults, 200, Some("{\"a\":1}")),
        Availability::Taken
    );
}

#[test]
fn null_or_error_null_body_is_available() {
    assert_eq!(
        classify(AvailableSignal::NullOrError, 200, Some("null")),
        Availability::Available
    );
}

#[test]
fn null_or_error_false_body_is_available() {
    // Distinguishes the literal comparison: as JSON, `false` would be Taken.
    assert_eq!(
        classify(AvailableSignal::NullOrError, 200, Some("false")),
        Availability::Available
    );
}

#[test]
fn null_or_error_error_object_is_available() {
    assert_eq!(
        classify(AvailableSignal::NullOrError, 200, Some("{\"error\":\"x\"}")),
        Availability::Available
    );
}

#[test]
fn null_or_error_other_object_is_taken() {
    assert_eq!(
        classify(AvailableSignal::NullOrError, 200, Some("{\"ok\":true}")),
        Availability::Taken
    );
}

#[test]
fn null_or_error_404_is_available_regardless_of_body() {
    assert_eq!(
        classify(AvailableSignal::NullOrError, 404, Some("{\"ok\":true}")),
        Availability::Available
    );
}

#[test]
fn null_or_error_true_body_is_taken() {
    assert_eq!(
        classify(AvailableSignal::NullOrError, 200, Some("true")),
        Availability::Taken
    );
}

#[test]
fn null_or_error_unparsable_body_is_unknown() {
    assert_eq!(
        classify(AvailableSignal::NullOrError, 200, Some("nope")),
        Availability::Unknown
    );
}

#[test]
fn null_or_error_other_failure_status_is_unknown() {
    assert_eq!(
        classify(AvailableSignal::NullOrError, 500, Some("null")),
        Availability::Unknown
    );
}

#[test]
fn xml_no_entry_feed_without_entry_is_available() {
    assert_eq!(
        classify(AvailableSignal::XmlNoEntry, 200, Some("<feed></feed>")),
        Availability::Available
    );
}

#[test]
fn xml_no_entry_feed_with_entry_is_taken() {
    assert_eq!(
        classify(AvailableSignal::XmlNoEntry, 200, Some("<feed><entry/></feed>")),
        Availability::Taken
    );
}

#[test]
fn xml_no_entry_failure_status_is_unknown() {
    assert_eq!(
        classify(AvailableSignal::XmlNoEntry, 500, Some("<feed></feed>")),
        Availability::Unknown
    );
}

#[test]
fn xml_no_entry_no_body_is_unknown() {
    assert_eq!(
        classify(AvailableSignal::XmlNoEntry, 200, None),
        Availability::Unknown
    );
}
