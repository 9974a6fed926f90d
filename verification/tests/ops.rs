use text_ops::ops::{
    list, lookup, notice, perform, requested, run, usage, Operation, Report, NORMAL_STATUS,
    USAGE_STATUS,
};

fn command(words: &[&str]) -> Vec<String> {
    words.iter().map(|w| w.to_string()).collect()
}

#[test]
fn list_holds_the_seven_operations_in_order() {
    let names: Vec<&str> = list().iter().map(|op| op.name()).collect();
    assert_eq!(
        names,
        vec!["lowercase", "uppercase", "trimspaces", "slugify", "reverse", "novowels", "csv"]
    );
}

#[test]
fn lookup_finds_each_operation_by_its_name() {
    for op in list() {
        assert_eq!(lookup(op.name()), Some(op));
    }
    assert_eq!(lookup("csv"), Some(Operation::Csv));
    assert_eq!(lookup("novowels"), Some(Operation::NoVowels));
}

#[test]
fn lookup_knows_no_other_name() {
    assert_eq!(lookup("foo"), None);
    assert_eq!(lookup(""), None);
    assert_eq!(lookup("Lowercase"), None);
    assert_eq!(lookup("csv "), None);
    assert_eq!(lookup("lowercas"), None);
}

#[test]
fn apply_runs_the_operation() {
    assert_eq!(Operation::Lowercase.apply("AbC").unwrap(), "abc");
    assert_eq!(Operation::Uppercase.apply("AbC").unwrap(), "ABC");
    assert_eq!(Operation::TrimSpaces.apply("a b c").unwrap(), "abc");
    assert_eq!(Operation::Slugify.apply("A b!").unwrap(), "a-b");
    assert_eq!(Operation::Reverse.apply("abc").unwrap(), "cba");
    assert_eq!(Operation::NoVowels.apply("abcde").unwrap(), "bcd");
    assert_eq!(Operation::Csv.apply("a\n1").unwrap(), "+---+\n| a |\n+===+\n| 1 |\n+---+");
}

#[test]
fn missing_operation_is_a_usage_error() {
    assert_eq!(requested(&vec!["program".to_string()]), None);
    assert_eq!(requested(&Vec::new()), None);
    assert_eq!(
        usage(),
        "Usage: <program> <operation>\nAvailable operations: lowercase, uppercase, trimspaces, slugify, reverse, novowels, csv"
    );
    assert_eq!(USAGE_STATUS, 1);
    assert_ne!(USAGE_STATUS, 0);
}

#[test]
fn run_without_operation_reports_usage_and_is_fatal() {
    for args in [command(&["program"]), command(&[])] {
        let report = run(&args, "input that is never looked at");
        assert!(matches!(&report, Report::Usage { text } if *text == usage()));
        assert_eq!(report.stdout_text(), None);
        assert_eq!(
            report.stderr_text(),
            Some(
                "Usage: <program> <operation>\nAvailable operations: lowercase, uppercase, trimspaces, slugify, reverse, novowels, csv\nError: Missing operation"
                    .to_string()
            )
        );
        assert_eq!(report.status(), 1);
    }
}

#[test]
fn run_applies_the_first_argument_and_ignores_the_rest() {
    let report = run(&command(&["program", "uppercase", "reverse"]), " abc ");
    assert!(matches!(&report, Report::Done { result } if result == "ABC"));
    assert_eq!(report.status(), 0);
    let unknown = run(&command(&["program", "foo"]), "abc");
    assert_eq!(unknown.stderr_text(), Some("Unknown operation: foo".to_string()));
    assert_eq!(unknown.status(), 0);
}

#[test]
fn requested_operation_is_the_first_argument() {
    let args = vec!["program".to_string(), "reverse".to_string(), "extra".to_string()];
    assert_eq!(requested(&args), Some("reverse".to_string()));
    assert_eq!(notice("reverse"), "Selected operation: reverse");
}

#[test]
fn unknown_operation_is_reported_and_not_fatal() {
    let report = run(&command(&["program", "foo"]), "some input");
    assert!(matches!(&report, Report::Unknown { operation } if operation == "foo"));
    assert_eq!(report.stdout_text(), None);
    assert_eq!(report.stderr_text(), Some("Unknown operation: foo".to_string()));
    assert_eq!(report.status(), 0);
    assert_eq!(NORMAL_STATUS, 0);
}

#[test]
fn run_trims_the_input_and_prints_the_result_under_its_label() {
    let report = perform("reverse", "  abc \n");
    assert!(matches!(&report, Report::Done { result } if result == "cba"));
    assert_eq!(report.stdout_text(), Some("\nResult:\ncba\n".to_string()));
    assert_eq!(report.stderr_text(), None);
    assert_eq!(report.status(), 0);
}

#[test]
fn run_renders_csv_from_untrimmed_input() {
    let report = perform("csv", "\nname,age\nAlice,30\nBob,25\n\n");
    let expected = "\nResult:\n\
+-------+-----+
| name  | age |
+=============+
| Alice | 30  |
|-------+-----|
| Bob   | 25  |
+-------+-----+\n";
    assert_eq!(report.stdout_text(), Some(expected.to_string()));
}

#[test]
fn failed_operation_is_reported_with_its_message_and_prints_no_result() {
    let report = perform("csv", "a,b\n1,2\n3\n");
    assert_eq!(report.stdout_text(), None);
    assert_eq!(
        report.stderr_text(),
        Some(
            "Error executing operation: CSV error: record 2 (line: 3, byte: 8): found record with 1 fields, but the previous record has 2 fields"
                .to_string()
        )
    );
    assert_eq!(report.status(), 0);

    let open = perform("csv", "name,age\n\"Alice,30\nBob,25\n");
    assert_eq!(open.stdout_text(), None);
    assert_eq!(
        open.stderr_text(),
        Some(
            "Error executing operation: CSV error: a quoted field is still open at the end of the input"
                .to_string()
        )
    );
    assert_eq!(open.status(), 0);

    let empty = perform("csv", "   \n ");
    assert_eq!(
        empty.stderr_text(),
        Some("Error executing operation: CSV error: the input has no header record".to_string())
    );
}
