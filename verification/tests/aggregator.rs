use lidar_batch::aggregator::Aggregator;
use lidar_batch::outcome::{BatchError, ConversionOutcome};

fn converted(name: &str) -> ConversionOutcome {
    ConversionOutcome::Converted { short_name: name.to_string() }
}

#[test]
fn status_line_of_a_converted_file_in_a_batch() {
    assert_eq!(converted("tile7").status_line(2), "Completed conversion of tile7");
    assert_eq!(converted("tile7").status_line(100), "Completed conversion of tile7");
}

#[test]
fn status_line_of_a_single_converted_file_is_the_bare_name() {
    assert_eq!(converted("tile7").status_line(1), "tile7");
}

#[test]
fn status_line_of_a_blank_token_is_the_diagnostic() {
    assert_eq!(
        ConversionOutcome::EmptyPath { index: 3 }.status_line(5),
        "Empty file name for tile 3."
    );
    assert_eq!(
        ConversionOutcome::EmptyPath { index: 0 }.status_line(1),
        "Empty file name for tile 0."
    );
    assert_eq!(
        ConversionOutcome::EmptyPath { index: 1204 }.status_line(2000),
        "Empty file name for tile 1204."
    );
}

#[test]
fn file_named_like_the_diagnostic_is_still_announced() {
    assert_eq!(converted("Empty").status_line(2), "Completed conversion of Empty");
}

#[test]
fn batch_errors_have_messages() {
    assert_eq!(
        BatchError::SourceUnreadable { path: "/wd/a.zlidar".to_string() }.message(),
        "Error reading file: /wd/a.zlidar"
    );
    assert_eq!(
        BatchError::WrongExtension.message(),
        "All input files should be of zlidar format."
    );
}

#[test]
fn aggregator_receives_exactly_one_outcome_per_file() {
    for num_files in 1..6 {
        let mut aggregator = Aggregator::new(num_files, false);
        assert_eq!(aggregator.num_files(), num_files);
        let mut received = 0;
        while !aggregator.is_complete() {
            assert_eq!(aggregator.received(), received);
            aggregator.receive(&converted("x"));
            received += 1;
        }
        assert_eq!(received, num_files);
        assert_eq!(aggregator.received(), num_files);
    }
}

#[test]
fn quiet_aggregator_prints_only_status_lines() {
    let mut aggregator = Aggregator::new(2, false);
    assert_eq!(aggregator.receive(&converted("b")), vec!["Completed conversion of b".to_string()]);
    assert_eq!(
        aggregator.receive(&ConversionOutcome::EmptyPath { index: 0 }),
        vec!["Empty file name for tile 0.".to_string()]
    );
    assert!(aggregator.is_complete());
}

#[test]
fn verbose_aggregator_reports_progress() {
    let mut aggregator = Aggregator::new(3, true);
    assert_eq!(
        aggregator.receive(&converted("c")),
        vec!["Completed conversion of c".to_string(), "Progress: 50%".to_string()]
    );
    assert_eq!(
        aggregator.receive(&ConversionOutcome::EmptyPath { index: 1 }),
        vec!["Empty file name for tile 1.".to_string(), "Progress: 100%".to_string()]
    );
    assert_eq!(
        aggregator.receive(&converted("a")),
        vec!["Completed conversion of a".to_string(), "Progress: 150%".to_string()]
    );
    assert!(aggregator.is_complete());
}

#[test]
fn verbose_aggregator_keeps_silent_while_the_figure_stands() {
    let mut aggregator = Aggregator::new(401, true);
    assert_eq!(aggregator.receive(&converted("a")).len(), 2);
    assert_eq!(aggregator.receive(&converted("b")), vec!["Completed conversion of b".to_string()]);
    assert_eq!(aggregator.receive(&converted("c")), vec!["Completed conversion of c".to_string()]);
    assert_eq!(
        aggregator.receive(&converted("d")),
        vec!["Completed conversion of d".to_string(), "Progress: 1%".to_string()]
    );
}

#[test]
fn single_file_batch_reports_one_hundred_directly() {
    let mut aggregator = Aggregator::new(1, true);
    assert_eq!(
        aggregator.receive(&converted("only")),
        vec!["only".to_string(), "Progress: 100%".to_string()]
    );
    assert!(aggregator.is_complete());
}

#[test]
fn outcomes_may_arrive_in_any_order() {
    let outcomes = [converted("a"), converted("b"), ConversionOutcome::EmptyPath { index: 2 }];
    for order in [[0, 1, 2], [2, 1, 0], [1, 2, 0]] {
        let mut aggregator = Aggregator::new(3, false);
        let mut lines: Vec<String> = Vec::new();
        for i in order {
            lines.extend(aggregator.receive(&outcomes[i]));
        }
        assert!(aggregator.is_complete());
        lines.sort();
        assert_eq!(
            lines,
            vec![
                "Completed conversion of a".to_string(),
                "Completed conversion of b".to_string(),
                "Empty file name for tile 2.".to_string()
            ]
        );
    }
}
