use my_project::lines::{count_lines, greet, pair_line, separator, size_line};
use my_project::program::{report, standard_report};

const EXPECTED: [&str; 13] = [
    "Hello, world!",
    "--------------",
    "x: 5, y: 15",
    "--------------",
    "Single digit",
    "--------------",
    "Number: 1",
    "Number: 2",
    "Number: 3",
    "Number: 4",
    "Number: 5",
    "--------------",
    "Hello, Rustacean!",
];

#[test]
fn standard_report_is_the_thirteen_lines_in_order() {
    let lines = standard_report();
    assert_eq!(lines.len(), 13);
    assert_eq!(lines, EXPECTED.to_vec());
}

#[test]
fn standard_report_as_printed() {
    let mut printed = String::new();
    for line in standard_report() {
        printed.push_str(&line);
        printed.push('\n');
    }
    assert_eq!(
        printed,
        "Hello, world!\n--------------\nx: 5, y: 15\n--------------\nSingle digit\n\
         --------------\nNumber: 1\nNumber: 2\nNumber: 3\nNumber: 4\nNumber: 5\n\
         --------------\nHello, Rustacean!\n"
    );
}

#[test]
fn standard_report_is_the_same_on_every_run() {
    assert_eq!(standard_report(), standard_report());
    assert_eq!(standard_report(), report("Rustacean"));
}

#[test]
fn arithmetic_line_reads_five_and_fifteen() {
    assert_eq!(standard_report()[2], "x: 5, y: 15");
    assert_eq!(report("anyone")[2], "x: 5, y: 15");
}

#[test]
fn branch_line_reads_single_digit() {
    assert_eq!(standard_report()[4], "Single digit");
    assert_eq!(standard_report()[4], size_line(7));
}

#[test]
fn loop_lines_count_from_one_to_five() {
    let lines = standard_report();
    assert_eq!(
        lines[6..11].to_vec(),
        vec!["Number: 1", "Number: 2", "Number: 3", "Number: 4", "Number: 5"]
    );
    assert_eq!(lines.iter().filter(|line| line.starts_with("Number: ")).count(), 5);
}

#[test]
fn separators_stand_between_the_parts() {
    let lines = standard_report();
    for (index, line) in lines.iter().enumerate() {
        let is_separator = line == "--------------";
        assert_eq!(is_separator, [1, 3, 5, 11].contains(&index));
    }
}

#[test]
fn last_line_greets_rustacean() {
    let lines = standard_report();
    assert_eq!(lines.last().unwrap(), "Hello, Rustacean!");
}

#[test]
fn another_name_changes_the_last_line_only() {
    let ada = report("Ada");
    let standard = standard_report();
    assert_eq!(ada.len(), standard.len());
    assert_eq!(ada[..12], standard[..12]);
    assert_eq!(ada[12], "Hello, Ada!");
    assert_ne!(ada[12], standard[12]);
}

#[test]
fn report_with_the_empty_name() {
    let lines = report("");
    assert_eq!(lines.len(), 13);
    assert_eq!(lines[..12], EXPECTED[..12]);
    assert_eq!(lines[12], "Hello, !");
}

#[test]
fn report_is_made_of_its_parts() {
    let name = "Lovelace";
    let mut expected = vec![
        String::from("Hello, world!"),
        separator(),
        pair_line(5, 10 + 5),
        separator(),
        size_line(7),
        separator(),
    ];
    expected.extend(count_lines(1, 5));
    expected.push(separator());
    expected.push(greet(name));
    assert_eq!(report(name), expected);
}
