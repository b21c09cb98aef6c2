use rtest::discovery::{DirEntry, DiscoveryProblem, Problem};

fn file(name: &str) -> DirEntry {
    DirEntry { name: name.to_string(), is_file: true }
}

fn problem(pattern: &str) -> Problem {
    Problem { input_regex: pattern.to_string(), output_rep: "$test.out".to_string() }
}

#[test]
fn finds_pairs_and_ignores_other_files() {
    let p = problem(r"(?i)^(\d+)\.in$");
    let entries = vec![file("1.in"), file("1.out"), file("2.IN"), file("2.out"), file("notes.txt")];
    let d = p.find_tests("tests", &entries).unwrap();
    assert_eq!(d.tests.len(), 2);
    assert_eq!(d.tests[0].input, "tests/1.in");
    assert_eq!(d.tests[0].answer, "tests/1.out");
    assert_eq!(d.tests[1].input, "tests/2.IN");
    assert_eq!(d.tests[1].answer, "tests/2.out");
    assert_eq!(d.problems.len(), 0);
}

#[test]
fn missing_answer_is_reported_and_scan_completes() {
    let p = problem(r"(?i)^(\d+)\.in$");
    let entries = vec![file("1.in"), file("1.out"), file("3.in")];
    let d = p.find_tests("t", &entries).unwrap();
    assert_eq!(d.tests.len(), 1);
    assert_eq!(d.tests[0].input, "t/1.in");
    assert_eq!(d.tests[0].answer, "t/1.out");
    assert_eq!(d.problems.len(), 1);
    match &d.problems[0] {
        DiscoveryProblem::MissingAnswer { id } => assert_eq!(id, "3"),
        _ => panic!("expected a missing-answer report"),
    }
}

#[test]
fn ambiguous_identifier_is_an_error_not_a_choice() {
    let p = problem(r"(?i)^0*([1-9]\d*)\.in$");
    let entries = vec![file("4.in"), file("04.in"), file("4.out")];
    let d = p.find_tests("t", &entries).unwrap();
    assert_eq!(d.tests.len(), 0);
    assert_eq!(d.problems.len(), 1);
    match &d.problems[0] {
        DiscoveryProblem::AmbiguousId { id } => assert_eq!(id, "4"),
        _ => panic!("expected an ambiguity report"),
    }
}

#[test]
fn answer_file_matches_without_regard_to_case() {
    let p = problem(r"(?i)^(\d+)\.in$");
    let entries = vec![file("5.in"), file("5.OUT")];
    let d = p.find_tests("dir", &entries).unwrap();
    assert_eq!(d.tests.len(), 1);
    assert_eq!(d.tests[0].input, "dir/5.in");
    assert_eq!(d.tests[0].answer, "dir/5.OUT");
    assert_eq!(d.problems.len(), 0);
}

#[test]
fn non_file_entries_are_ignored() {
    let p = problem(r"(?i)^(\d+)\.in$");
    let entries = vec![
        DirEntry { name: "6.in".to_string(), is_file: false },
        DirEntry { name: "6.out".to_string(), is_file: true },
    ];
    let d = p.find_tests("t", &entries).unwrap();
    assert_eq!(d.tests.len(), 0);
    assert_eq!(d.problems.len(), 0);
}

#[test]
fn invalid_pattern_is_reported_not_swallowed() {
    let p = problem("(");
    let entries = vec![file("1.in"), file("1.out")];
    let e = p.find_tests("t", &entries).unwrap_err();
    assert_eq!(e.pattern, "(");
}

#[test]
fn identifier_drives_answer_name_through_template() {
    let p = Problem {
        input_regex: r"^([a-z]+)_input\.txt$".to_string(),
        output_rep: "$test_answer.txt".to_string(),
    };
    let entries = vec![file("abc_input.txt"), file("abc_answer.txt")];
    let d = p.find_tests("cases", &entries).unwrap();
    assert_eq!(d.tests.len(), 1);
    assert_eq!(d.tests[0].input, "cases/abc_input.txt");
    assert_eq!(d.tests[0].answer, "cases/abc_answer.txt");
}

#[test]
fn scan_reports_every_problem_and_keeps_valid_pairs() {
    let p = Problem {
        input_regex: r"(?i)^0*([1-9]\d*)\.in$".to_string(),
        output_rep: "$test.out".to_string(),
    };
    let entries = vec![
        file("1.in"),
        file("1.out"),
        file("3.in"),
        file("4.in"),
        file("04.in"),
        file("4.out"),
    ];
    let d = p.find_tests("t", &entries).unwrap();
    assert_eq!(d.tests.len(), 1);
    assert_eq!(d.tests[0].input, "t/1.in");
    assert_eq!(d.tests[0].answer, "t/1.out");
    assert_eq!(d.problems.len(), 2);
    match &d.problems[0] {
        DiscoveryProblem::MissingAnswer { id } => assert_eq!(id, "3"),
        _ => panic!("expected the missing answer first, in directory order"),
    }
    match &d.problems[1] {
        DiscoveryProblem::AmbiguousId { id } => assert_eq!(id, "4"),
        _ => panic!("expected the ambiguity second, in directory order"),
    }
}
