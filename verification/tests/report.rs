use calliper::{CallgrindResultFilename, CalliperError, Report, Runner, Scenario};
use std::cell::RefCell;

fn target() {}

fn place(path: &str) -> CallgrindResultFilename {
    CallgrindResultFilename { path: path.to_string() }
}

fn reports_for<'a>(
    settings: &Vec<&'a Scenario<fn()>>,
    paths: &[&str],
) -> Vec<Report<'a, fn()>> {
    Runner::assemble(settings, paths.iter().map(|p| place(p)).collect())
}

#[test]
fn raw_hands_the_reader_the_place_of_the_report() {
    let scenario = Scenario::new(target as fn());
    let settings = vec![&scenario];
    let reports = reports_for(&settings, &["callgrind.out.0"]);
    let asked = RefCell::new(Vec::new());
    let read = |at: &CallgrindResultFilename| -> Result<String, String> {
        asked.borrow_mut().push(at.path.clone());
        Ok("events: Ir".to_string())
    };
    assert_eq!(reports[0].raw(&read), Ok("events: Ir".to_string()));
    assert_eq!(*asked.borrow(), vec!["callgrind.out.0".to_string()]);
}

#[test]
fn raw_passes_on_a_failure_of_the_reader() {
    let scenario = Scenario::new(target as fn());
    let settings = vec![&scenario];
    let reports = reports_for(&settings, &["missing.out"]);
    let read = |at: &CallgrindResultFilename| -> Result<String, String> {
        Err(format!("no such file: {}", at.path))
    };
    assert_eq!(reports[0].raw(read), Err("no such file: missing.out".to_string()));
}

#[test]
fn raw_does_not_turn_an_empty_output_into_a_failure() {
    let scenario = Scenario::new(target as fn());
    let settings = vec![&scenario];
    let reports = reports_for(&settings, &["empty.out"]);
    let read = |_: &CallgrindResultFilename| -> Result<String, String> { Ok(String::new()) };
    assert_eq!(reports[0].raw(read), Ok(String::new()));
}

#[test]
fn raw_twice_gives_the_same_contents() {
    let scenario = Scenario::new(target as fn());
    let settings = vec![&scenario];
    let reports = reports_for(&settings, &["callgrind.out.0"]);
    let reads = RefCell::new(0usize);
    let read = |at: &CallgrindResultFilename| -> Result<String, String> {
        *reads.borrow_mut() += 1;
        Ok(format!("contents of {}", at.path))
    };
    let first = reports[0].raw(&read);
    let second = reports[0].raw(&read);
    assert_eq!(first, Ok("contents of callgrind.out.0".to_string()));
    assert_eq!(first, second);
    // nothing is kept between calls: each call reads again
    assert_eq!(*reads.borrow(), 2);
    // and the report is as it was
    assert_eq!(reports[0].results(), &place("callgrind.out.0"));
}

#[test]
fn parse_hands_the_parser_the_place_and_passes_its_answer_on() {
    let scenario = Scenario::new(target as fn());
    let settings = vec![&scenario];
    let reports = reports_for(&settings, &["callgrind.out.7"]);
    let parser = |at: &CallgrindResultFilename| -> Result<usize, String> { Ok(at.path.len()) };
    assert_eq!(reports[0].parse(parser), Ok(15));
}

#[test]
fn parse_passes_on_a_failure_of_the_parser_unchanged() {
    let scenario = Scenario::new(target as fn());
    let settings = vec![&scenario];
    let reports = reports_for(&settings, &["garbled.out"]);
    let parser = |at: &CallgrindResultFilename| -> Result<u64, CalliperError> {
        Err(CalliperError::WorkerFailure { run_idx: 0, details: at.path.clone() })
    };
    assert_eq!(
        reports[0].parse(parser),
        Err(CalliperError::WorkerFailure { run_idx: 0, details: "garbled.out".to_string() })
    );
}

#[test]
fn report_accessors_give_what_was_bound() {
    let first = Scenario::new(target as fn());
    let second = Scenario::new(target as fn())
        .config(calliper::ScenarioConfig::default().branch_sim(true));
    let settings = vec![&first, &second];
    let reports = reports_for(&settings, &["a.out", "b.out"]);
    assert_eq!(reports[1].run_idx(), 1);
    assert_eq!(reports[1].results(), &place("b.out"));
    assert_eq!(reports[1].scenario(), &second);
    assert_eq!(reports[0].run_idx(), 0);
    assert_eq!(reports[0].results(), &place("a.out"));
    assert_eq!(reports[0].scenario(), &first);
}
