use manufacturers::args::{filter_argument, help_text};
use manufacturers::failure::{Failure, Shape};
use manufacturers::listing::result_text;
use manufacturers::record::AutoManufacturer;

#[test]
fn display_shows_three_fields_and_a_blank_line() {
    let m = AutoManufacturer {
        name: Some("TESLA, INC."),
        common_name: Some("Tesla"),
        country: Some("United States"),
    };
    assert_eq!(
        m.display(),
        "\t Manufacturer Name: TESLA, INC.\n\t Manufacturer Common Name: Tesla\n\t Country: United States\n\n"
    );
}

#[test]
fn display_shows_absent_fields_as_nothing() {
    let m = AutoManufacturer { name: None, common_name: None, country: None };
    assert_eq!(
        m.display(),
        "\t Manufacturer Name: \n\t Manufacturer Common Name: \n\t Country: \n\n"
    );
    let partly = AutoManufacturer { name: Some("ACME"), common_name: None, country: Some("") };
    assert_eq!(
        partly.display(),
        "\t Manufacturer Name: ACME\n\t Manufacturer Common Name: \n\t Country: \n\n"
    );
}

#[test]
fn result_text_counts_and_numbers_from_one() {
    let found = vec![
        AutoManufacturer { name: Some("A"), common_name: Some("a"), country: Some("X") },
        AutoManufacturer { name: Some("B"), common_name: None, country: Some("Y") },
    ];
    assert_eq!(
        result_text(&found),
        "2 manufacturers found\n\
         Manufacturer #1\n\
         \t Manufacturer Name: A\n\
         \t Manufacturer Common Name: a\n\
         \t Country: X\n\
         \n\
         Manufacturer #2\n\
         \t Manufacturer Name: B\n\
         \t Manufacturer Common Name: \n\
         \t Country: Y\n\
         \n"
    );
}

#[test]
fn result_text_of_nothing_is_the_count_alone() {
    assert_eq!(result_text(&Vec::new()), "0 manufacturers found\n");
}

#[test]
fn result_text_writes_numbers_in_decimal() {
    let one = AutoManufacturer { name: Some("N"), common_name: None, country: None };
    let found = vec![one; 120];
    let text = result_text(&found);
    assert!(text.starts_with("120 manufacturers found\nManufacturer #1\n"));
    assert!(text.contains("\n\nManufacturer #9\n"));
    assert!(text.contains("\n\nManufacturer #10\n"));
    assert!(text.contains("\n\nManufacturer #99\n"));
    assert!(text.contains("\n\nManufacturer #100\n"));
    assert!(text.contains("\n\nManufacturer #120\n"));
    assert!(!text.contains("Manufacturer #121\n"));
    assert!(!text.contains("Manufacturer #0\n"));
    assert_eq!(text.matches("\t Manufacturer Name: N\n").count(), 120);
    let mut expected = String::from("120 manufacturers found\n");
    for ordinal in 1..=120 {
        expected.push_str(&format!(
            "Manufacturer #{}\n\t Manufacturer Name: N\n\t Manufacturer Common Name: \n\t Country: \n\n",
            ordinal
        ));
    }
    assert_eq!(text, expected);
}

fn command_line(words: &[&str]) -> Vec<String> {
    words.iter().map(|w| w.to_string()).collect()
}

#[test]
fn filter_argument_without_filter_is_empty() {
    assert_eq!(filter_argument(&command_line(&["prog"])), Ok(""));
    assert_eq!(filter_argument(&command_line(&[])), Ok(""));
}

#[test]
fn filter_argument_takes_the_one_filter() {
    assert_eq!(filter_argument(&command_line(&["prog", "TESLA"])), Ok("TESLA"));
    assert_eq!(filter_argument(&command_line(&["prog", ""])), Ok(""));
    assert_eq!(filter_argument(&command_line(&["prog", "two words"])), Ok("two words"));
}

#[test]
fn filter_argument_rejects_more_than_one_filter() {
    assert_eq!(filter_argument(&command_line(&["prog", "a", "b"])), Err(Failure::Usage));
    assert_eq!(filter_argument(&command_line(&["prog", "", ""])), Err(Failure::Usage));
    assert_eq!(
        filter_argument(&command_line(&["prog", "TESLA", "x", "y", "z"])),
        Err(Failure::Usage)
    );
}

#[test]
fn help_text_is_the_usage_line() {
    assert_eq!(help_text(), "Usage: <executable_path> [ARG]\n");
}

#[test]
fn failure_messages() {
    assert_eq!(Failure::Usage.message(), "help");
    assert_eq!(Failure::Shape(Shape::NotAnObject).message(), "Response is not a json object");
    assert_eq!(Failure::Shape(Shape::ResultsMissing).message(), "Results not found in response");
    assert_eq!(Failure::Shape(Shape::ResultsNotAList).message(), "Results is not a json array");
    assert_eq!(
        Failure::Shape(Shape::EntryNotAnObject).message(),
        "Manufacturer is not a json object"
    );
    assert_eq!(Failure::NoneFound.message(), "No manufacturer found");
}
