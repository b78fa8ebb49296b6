//! Counting, triggering and exhausting on small code paths with errors that
//! are plain strings.

use std::sync::{Arc, Mutex};

use failpoint::{
    failpoint, failpoint2, failpoint3, get_count, get_counted_locs, get_triggered_locs, has_room,
    is_enabled, log_if_verbose, set_logger, set_verbosity, start_counter, start_trigger,
    test_codepath, Location, Logger, State, Verbosity,
};

type Injection = State<Logger, true>;

type Dormant = State<Logger, false>;

const FIRST_TEXT: &str = "Failpoint \"first\" at tests/scenarios.rs:1 in crate scenarios";

fn at(line_no: u32, desc: &'static str) -> Location {
    Location {
        crate_name: Some("scenarios"),
        file_name: "tests/scenarios.rs",
        line_no,
        desc: Some(desc),
    }
}

fn collecting_logger() -> (Logger, Arc<Mutex<Vec<String>>>) {
    let lines: Arc<Mutex<Vec<String>>> = Arc::new(Mutex::new(Vec::new()));
    let sink = lines.clone();
    let logger: Logger = Box::new(move |msg: String| {
        sink.lock().unwrap().push(msg);
    });
    (logger, lines)
}

fn logged(lines: &Arc<Mutex<Vec<String>>>) -> Vec<String> {
    lines.lock().unwrap().clone()
}

fn single_probe(state: &mut Injection) -> Result<u32, String> {
    let res: Result<u32, String> = Ok(7);
    failpoint(state, res, "E1".to_string(), &at(1, "first"))
}

fn two_probes(state: &mut Injection) -> Result<u32, String> {
    let first: Result<u32, String> = Ok(1);
    let first = failpoint(state, first, "E1".to_string(), &at(1, "first"));
    if first.is_err() {
        return first;
    }
    let second: Result<u32, String> = Ok(2);
    failpoint(state, second, "E2".to_string(), &at(2, "second"))
}

fn second_probe_swallowed(state: &mut Injection) -> Result<u32, String> {
    let first: Result<u32, String> = Ok(1);
    let first = failpoint(state, first, "E1".to_string(), &at(1, "first"));
    if first.is_err() {
        return first;
    }
    let second: Result<u32, String> = Ok(2);
    let _ = failpoint(state, second, "E2".to_string(), &at(2, "second"));
    Ok(3)
}

fn three_probes_no_skipping(state: &mut Injection) -> Vec<Result<u32, String>> {
    let mut out = Vec::new();
    out.push(failpoint(state, Ok(10), "E1".to_string(), &at(1, "first")));
    out.push(failpoint(state, Ok(20), "E2".to_string(), &at(2, "second")));
    out.push(failpoint(state, Ok(30), "E3".to_string(), &at(3, "third")));
    out
}

fn abc(state: &mut Injection, res: Result<u32, String>) -> Result<u32, String> {
    failpoint3(state, res, "A".to_string(), "B".to_string(), "C".to_string(), &at(1, "three"))
}

fn de(state: &mut Injection, res: Result<u32, String>) -> Result<u32, String> {
    failpoint2(state, res, "D".to_string(), "E".to_string(), &at(2, "two"))
}

fn no_probes(_state: &mut Injection) -> Result<u32, String> {
    Ok(0)
}

fn always_fails(_state: &mut Injection) -> Result<u32, String> {
    Err("broken".to_string())
}

fn dormant_probe(state: &mut Dormant) -> Result<u32, String> {
    failpoint(state, Ok(5), "E1".to_string(), &at(1, "first"))
}

#[test]
fn single_probe_counts_one_and_fails_when_triggered() {
    let mut state = Injection::default();
    start_counter(&mut state);
    assert_eq!(single_probe(&mut state), Ok(7));
    assert_eq!(get_count(&state), 1);

    start_trigger(&mut state, 1);
    assert_eq!(single_probe(&mut state), Err("E1".to_string()));
}

#[test]
fn two_sequential_probes_fail_by_ordinal() {
    let mut state = Injection::default();
    start_counter(&mut state);
    assert_eq!(two_probes(&mut state), Ok(2));
    assert_eq!(get_count(&state), 2);

    start_trigger(&mut state, 1);
    assert_eq!(two_probes(&mut state), Err("E1".to_string()));

    start_trigger(&mut state, 2);
    assert_eq!(two_probes(&mut state), Err("E2".to_string()));
}

#[test]
fn exhaustion_of_two_probes_succeeds() {
    let mut state = Injection::default();
    let result = test_codepath(&mut state, || {}, two_probes, || {});
    assert_eq!(result.expected_trigger_count, 2);
    assert_eq!(result.trigger_count, 2);
    assert_eq!(result.unexpected_result, None);
    assert!(result.success());
}

#[test]
fn exhaustion_stops_at_the_swallowed_error() {
    let mut state = Injection::default();
    let result = test_codepath(&mut state, || {}, second_probe_swallowed, || {});
    assert_eq!(result.expected_trigger_count, 2);
    assert_eq!(result.trigger_count, 1);
    assert_eq!(result.unexpected_result, Some(Ok(3)));
    assert!(!result.success());
}

#[test]
fn exhaustion_stops_when_discovery_fails() {
    let mut state = Injection::default();
    let result = test_codepath(&mut state, || {}, always_fails, || {});
    assert_eq!(result.trigger_count, 0);
    assert_eq!(result.expected_trigger_count, i64::MAX);
    assert_eq!(result.unexpected_result, Some(Err("broken".to_string())));
    assert!(!result.success());
}

#[test]
fn exhaustion_of_a_path_without_probes_succeeds() {
    let mut state = Injection::default();
    let result = test_codepath(&mut state, || {}, no_probes, || {});
    assert_eq!(result.expected_trigger_count, 0);
    assert_eq!(result.trigger_count, 0);
    assert_eq!(result.unexpected_result, None);
    assert!(result.success());
}

#[test]
fn setup_runs_before_every_pass_and_teardown_after_every_expected_one() {
    let mut state = Injection::default();
    let mut setups = 0;
    let mut teardowns = 0;
    let result = test_codepath(&mut state, || setups += 1, two_probes, || teardowns += 1);
    assert!(result.success());
    assert_eq!(setups, 3);
    assert_eq!(teardowns, 3);

    let mut setups = 0;
    let mut teardowns = 0;
    let result =
        test_codepath(&mut state, || setups += 1, second_probe_swallowed, || teardowns += 1);
    assert!(!result.success());
    assert_eq!(setups, 3);
    assert_eq!(teardowns, 2);

    let mut setups = 0;
    let mut teardowns = 0;
    let result = test_codepath(&mut state, || setups += 1, always_fails, || teardowns += 1);
    assert!(!result.success());
    assert_eq!(setups, 1);
    assert_eq!(teardowns, 0);
}

#[test]
fn start_counter_twice_reads_zero_both_times() {
    let mut state = Injection::default();
    start_counter(&mut state);
    assert_eq!(get_count(&state), 0);
    start_counter(&mut state);
    assert_eq!(get_count(&state), 0);

    let _ = two_probes(&mut state);
    assert_eq!(get_count(&state), 2);
    start_counter(&mut state);
    assert_eq!(get_count(&state), 0);
    start_counter(&mut state);
    assert_eq!(get_count(&state), 0);
}

#[test]
fn discovery_counts_every_probe_and_changes_no_result() {
    let mut state = Injection::default();
    start_counter(&mut state);
    let results = three_probes_no_skipping(&mut state);
    assert_eq!(results, vec![Ok(10), Ok(20), Ok(30)]);
    assert_eq!(get_count(&state), 3);

    // A failure is handed back as it is, and still counted.
    let failed: Result<u32, String> = Err("natural".to_string());
    let out = failpoint(&mut state, failed, "E4".to_string(), &at(4, "fourth"));
    assert_eq!(out, Err("natural".to_string()));
    assert_eq!(get_count(&state), 4);
}

#[test]
fn trigger_fires_exactly_the_probe_at_the_ordinal() {
    let mut state = Injection::default();
    start_trigger(&mut state, 1);
    assert_eq!(
        three_probes_no_skipping(&mut state),
        vec![Err("E1".to_string()), Ok(20), Ok(30)]
    );
    start_trigger(&mut state, 2);
    assert_eq!(
        three_probes_no_skipping(&mut state),
        vec![Ok(10), Err("E2".to_string()), Ok(30)]
    );
    start_trigger(&mut state, 3);
    assert_eq!(
        three_probes_no_skipping(&mut state),
        vec![Ok(10), Ok(20), Err("E3".to_string())]
    );
    start_trigger(&mut state, 4);
    assert_eq!(three_probes_no_skipping(&mut state), vec![Ok(10), Ok(20), Ok(30)]);
    start_trigger(&mut state, 0);
    assert_eq!(three_probes_no_skipping(&mut state), vec![Ok(10), Ok(20), Ok(30)]);
    start_trigger(&mut state, -1);
    assert_eq!(three_probes_no_skipping(&mut state), vec![Ok(10), Ok(20), Ok(30)]);
}

#[test]
fn at_most_one_probe_fires_after_one_start_trigger() {
    let mut state = Injection::default();
    start_trigger(&mut state, 1);
    assert_eq!(single_probe(&mut state), Err("E1".to_string()));
    assert_eq!(state.inner.get_trigger(), 0);
    // The countdown has passed zero and goes on below it.
    assert_eq!(single_probe(&mut state), Ok(7));
    assert_eq!(state.inner.get_trigger(), -1);
    assert_eq!(three_probes_no_skipping(&mut state), vec![Ok(10), Ok(20), Ok(30)]);
    assert_eq!(state.inner.get_trigger(), -4);
}

#[test]
fn a_failure_is_not_replaced_and_is_reported_as_unexpected() {
    let mut state = Injection::default();
    let (logger, lines) = collecting_logger();
    set_logger(&mut state, Some(logger));
    set_verbosity(&mut state, Verbosity::Extreme);
    start_counter(&mut state);
    start_trigger(&mut state, 1);

    let natural: Result<u32, String> = Err("natural".to_string());
    let out = failpoint(&mut state, natural, "E1".to_string(), &at(11, "A"));
    assert_eq!(out, Err("natural".to_string()));
    assert_eq!(
        logged(&lines),
        vec![format!(
            "Unexpected error in {} got Err(\"natural\")",
            "Failpoint \"A\" at tests/scenarios.rs:11 in crate scenarios"
        )]
    );
    assert!(get_triggered_locs(&state).is_empty());

    // The ordinal was used up: the next failpoint does not fire.
    assert_eq!(single_probe(&mut state), Ok(7));
}

#[test]
fn candidates_take_ordinals_in_declaration_order() {
    let mut state = Injection::default();
    start_counter(&mut state);
    let res = abc(&mut state, Ok(1));
    assert_eq!(res, Ok(1));
    assert_eq!(get_count(&state), 3);
    let res = de(&mut state, res);
    assert_eq!(res, Ok(1));
    assert_eq!(get_count(&state), 5);

    let expected = ["A", "B", "C", "D", "E"];
    for ordinal in 1..=5 {
        start_trigger(&mut state, ordinal);
        let first = abc(&mut state, Ok(1));
        let second = de(&mut state, Ok(2));
        let want = Err(expected[(ordinal - 1) as usize].to_string());
        if ordinal <= 3 {
            assert_eq!(first, want);
            assert_eq!(second, Ok(2));
        } else {
            assert_eq!(first, Ok(1));
            assert_eq!(second, want);
        }
    }

    start_trigger(&mut state, 6);
    let first = abc(&mut state, Ok(1));
    assert_eq!(first, Ok(1));
    assert_eq!(state.inner.get_trigger(), 3);
}

#[test]
fn the_countdown_stops_at_the_candidate_that_fires() {
    let mut state = Injection::default();
    start_trigger(&mut state, 2);
    let res = abc(&mut state, Ok(1));
    assert_eq!(res, Err("B".to_string()));
    assert_eq!(state.inner.get_trigger(), 0);
}

#[test]
fn events_are_logged_from_moderate_and_recorded_at_extreme() {
    let mut state = Injection::default();
    let (logger, lines) = collecting_logger();
    set_logger(&mut state, Some(logger));

    // Silent: nothing is logged, nothing recorded.
    start_counter(&mut state);
    let _ = single_probe(&mut state);
    start_trigger(&mut state, 1);
    let _ = single_probe(&mut state);
    assert!(logged(&lines).is_empty());
    assert!(get_counted_locs(&state).is_empty());
    assert!(get_triggered_locs(&state).is_empty());

    // Moderate: logged, not recorded.
    set_verbosity(&mut state, Verbosity::Moderate);
    start_counter(&mut state);
    let _ = single_probe(&mut state);
    start_trigger(&mut state, 1);
    let _ = single_probe(&mut state);
    assert_eq!(
        logged(&lines),
        vec![
            format!("Found {}", FIRST_TEXT),
            format!("Triggered {} injecting Err(\"E1\")", FIRST_TEXT),
        ]
    );
    assert!(get_counted_locs(&state).is_empty());
    assert!(get_triggered_locs(&state).is_empty());

    // Extreme: logged and recorded, in visit order.
    set_verbosity(&mut state, Verbosity::Extreme);
    start_counter(&mut state);
    let _ = two_probes(&mut state);
    let counted = get_counted_locs(&state);
    assert_eq!(counted.len(), 2);
    assert_eq!(counted[0].line_no, 1);
    assert_eq!(counted[0].desc, Some("first"));
    assert_eq!(counted[1].line_no, 2);
    assert_eq!(counted[1].desc, Some("second"));
    assert!(get_triggered_locs(&state).is_empty());

    // Entering trigger mode keeps the histories.
    start_trigger(&mut state, 2);
    let _ = two_probes(&mut state);
    assert_eq!(get_counted_locs(&state).len(), 2);
    let triggered = get_triggered_locs(&state);
    assert_eq!(triggered.len(), 1);
    assert_eq!(triggered[0].line_no, 2);
    assert_eq!(triggered[0].file_name, "tests/scenarios.rs");
    assert_eq!(triggered[0].crate_name, Some("scenarios"));
    assert_eq!(logged(&lines).len(), 5);

    // Starting the counter clears both.
    start_counter(&mut state);
    assert!(get_counted_locs(&state).is_empty());
    assert!(get_triggered_locs(&state).is_empty());
}

#[test]
fn a_multi_candidate_probe_is_recorded_once_per_visit() {
    let mut state = Injection::default();
    set_verbosity(&mut state, Verbosity::Extreme);
    start_counter(&mut state);
    let _ = abc(&mut state, Ok(1));
    assert_eq!(get_count(&state), 3);
    assert_eq!(get_counted_locs(&state).len(), 1);
}

#[test]
fn log_if_verbose_is_gated_by_level_and_logger() {
    let mut state = Injection::default();
    // Without a logger nothing happens.
    log_if_verbose(&mut state, Verbosity::Silent, "lost".to_string());

    let (logger, lines) = collecting_logger();
    set_logger(&mut state, Some(logger));
    log_if_verbose(&mut state, Verbosity::Silent, "always".to_string());
    log_if_verbose(&mut state, Verbosity::Moderate, "not yet".to_string());
    set_verbosity(&mut state, Verbosity::Moderate);
    log_if_verbose(&mut state, Verbosity::Moderate, "moderate".to_string());
    log_if_verbose(&mut state, Verbosity::Extreme, "too much".to_string());
    set_verbosity(&mut state, Verbosity::Extreme);
    log_if_verbose(&mut state, Verbosity::Extreme, "extreme".to_string());
    set_logger(&mut state, None);
    log_if_verbose(&mut state, Verbosity::Silent, "gone".to_string());
    assert_eq!(logged(&lines), vec!["always", "moderate", "extreme"]);
}

#[test]
fn verbosity_levels_are_ordered() {
    assert!(Verbosity::Silent < Verbosity::Moderate);
    assert!(Verbosity::Moderate < Verbosity::Extreme);
    assert!(Verbosity::Extreme >= Verbosity::Moderate);
    assert!(Verbosity::Moderate.at_least(Verbosity::Silent));
    assert!(Verbosity::Moderate.at_least(Verbosity::Moderate));
    assert!(!Verbosity::Moderate.at_least(Verbosity::Extreme));
    assert!(!Verbosity::Silent.at_least(Verbosity::Moderate));
    assert!(Verbosity::Extreme.at_least(Verbosity::Extreme));
    assert!(Verbosity::Silent.at_least(Verbosity::Silent));
}

#[test]
fn has_room_tells_when_a_counter_would_overflow() {
    let mut state = Injection::default();
    start_counter(&mut state);
    assert!(has_room(&state, 3));
    start_trigger(&mut state, i64::MIN);
    assert!(!has_room(&state, 1));
    start_trigger(&mut state, i64::MIN + 3);
    assert!(has_room(&state, 3));
    start_trigger(&mut state, i64::MIN + 2);
    assert!(!has_room(&state, 3));
    assert!(has_room(&state, 2));

    let mut dormant = Dormant::default();
    start_trigger(&mut dormant, i64::MIN);
    assert!(has_room(&dormant, 3));
}

#[test]
fn without_fault_injection_everything_passes_through() {
    let mut state = Dormant::default();
    assert!(!is_enabled(&state));
    assert!(is_enabled(&Injection::default()));

    set_verbosity(&mut state, Verbosity::Extreme);
    let (logger, lines) = collecting_logger();
    set_logger(&mut state, Some(logger));

    start_counter(&mut state);
    assert_eq!(dormant_probe(&mut state), Ok(5));
    assert_eq!(get_count(&state), 0);
    assert!(get_counted_locs(&state).is_empty());

    start_trigger(&mut state, 1);
    assert_eq!(dormant_probe(&mut state), Ok(5));
    assert!(get_triggered_locs(&state).is_empty());
    let res: Result<u32, String> = Ok(1);
    assert_eq!(
        failpoint2(&mut state, res, "A".to_string(), "B".to_string(), &at(1, "two")),
        Ok(1)
    );
    let res: Result<u32, String> = Ok(1);
    assert_eq!(
        failpoint3(
            &mut state,
            res,
            "A".to_string(),
            "B".to_string(),
            "C".to_string(),
            &at(1, "three")
        ),
        Ok(1)
    );

    log_if_verbose(&mut state, Verbosity::Silent, "unheard".to_string());
    assert!(logged(&lines).is_empty());

    let mut setups = 0;
    let mut teardowns = 0;
    let result = test_codepath(&mut state, || setups += 1, dormant_probe, || teardowns += 1);
    assert_eq!(result.expected_trigger_count, 0);
    assert_eq!(result.trigger_count, 0);
    assert_eq!(result.unexpected_result, Some(Ok(5)));
    assert!(result.success());
    assert_eq!(setups, 1);
    assert_eq!(teardowns, 1);
    assert!(logged(&lines).is_empty());

    result.report(&mut state, "dormant");
    assert!(logged(&lines).is_empty());
}

#[test]
fn the_exhauster_logs_its_progress() {
    let mut state = Injection::default();
    let (logger, lines) = collecting_logger();
    set_logger(&mut state, Some(logger));
    set_verbosity(&mut state, Verbosity::Extreme);
    let result = test_codepath(&mut state, || {}, single_probe, || {});
    assert!(result.success());
    let found = format!("Found {}", FIRST_TEXT);
    let triggered = format!("Triggered {} injecting Err(\"E1\")", FIRST_TEXT);
    assert_eq!(
        logged(&lines),
        vec![
            "\n------------------------------------------------------------",
            "Testing codepath in COUNT mode",
            "Running before block",
            "Running codepath in COUNT mode",
            found.as_str(),
            "Running after block",
            "\n------------------------------------------------------------",
            "Testing codepath in TRIGGER mode",
            "Running before block",
            "Running codepath in TRIGGER mode, will trigger error 1",
            triggered.as_str(),
            "Running after block",
            "Triggered 1 of 1 errors",
        ]
    );
}

#[test]
fn deviations_are_logged_at_every_verbosity() {
    let mut state = Injection::default();
    let (logger, lines) = collecting_logger();
    set_logger(&mut state, Some(logger));

    let result = test_codepath(&mut state, || {}, always_fails, || {});
    assert!(!result.success());
    assert_eq!(
        logged(&lines),
        vec!["Error returned by codepath in count mode. Expected codepath to succeed."]
    );

    let result = test_codepath(&mut state, || {}, second_probe_swallowed, || {});
    assert!(!result.success());
    assert_eq!(
        logged(&lines)[1..],
        ["Codepath did not fail in trigger mode for error 2.  Expected codepath to fail."]
    );

    set_verbosity(&mut state, Verbosity::Moderate);
    let result = test_codepath(&mut state, || {}, second_probe_swallowed, || {});
    assert_eq!(result.trigger_count, 1);
    let all = logged(&lines);
    assert_eq!(all.last().unwrap(), "Triggered 1 of 2 errors");
}
