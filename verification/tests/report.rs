use fibonacci::report::{report_lines, term_line, TERM_COUNT};

#[test]
fn one_header_and_ten_data_lines() {
    let lines = report_lines();
    assert_eq!(TERM_COUNT, 10);
    assert_eq!(lines.len(), 11);
    assert_eq!(lines[0], "First 10 Fibonacci numbers:");
    for line in &lines[1..] {
        assert!(line.starts_with("Fibonacci("));
    }
}

#[test]
fn data_lines_come_in_index_order() {
    let expected: [u64; 10] = [0, 1, 1, 2, 3, 5, 8, 13, 21, 34];
    let lines = report_lines();
    for k in 0..10usize {
        assert_eq!(lines[k + 1], format!("Fibonacci({}) = {}", k, expected[k]));
    }
}

#[test]
fn lines_for_index_five_and_nine() {
    let lines = report_lines();
    assert!(lines.contains(&String::from("Fibonacci(5) = 5")));
    assert!(lines.contains(&String::from("Fibonacci(9) = 34")));
    assert_eq!(lines[6], "Fibonacci(5) = 5");
    assert_eq!(lines[10], "Fibonacci(9) = 34");
}

#[test]
fn whole_report() {
    let expected = vec![
        "First 10 Fibonacci numbers:",
        "Fibonacci(0) = 0",
        "Fibonacci(1) = 1",
        "Fibonacci(2) = 1",
        "Fibonacci(3) = 2",
        "Fibonacci(4) = 3",
        "Fibonacci(5) = 5",
        "Fibonacci(6) = 8",
        "Fibonacci(7) = 13",
        "Fibonacci(8) = 21",
        "Fibonacci(9) = 34",
    ];
    assert_eq!(report_lines(), expected);
}

#[test]
fn no_line_is_blank() {
    for line in report_lines() {
        assert!(!line.is_empty());
    }
}

#[test]
fn repeated_reports_are_identical() {
    let first = report_lines().join("\n").into_bytes();
    let second = report_lines().join("\n").into_bytes();
    assert_eq!(first, second);
}

#[test]
fn term_line_shows_index_and_value() {
    assert_eq!(term_line(0), "Fibonacci(0) = 0");
    assert_eq!(term_line(12), "Fibonacci(12) = 144");
    assert_eq!(term_line(20), "Fibonacci(20) = 6765");
}

#[test]
fn term_lines_differ_between_indices() {
    for a in 0..15u32 {
        for b in (a + 1)..15u32 {
            assert_ne!(term_line(a), term_line(b));
        }
    }
}
