use release_installer::error::InstallError;
use release_installer::prompt::{selection, selector_command, selector_input};

#[test]
fn selector_is_started_without_arguments() {
    let command = selector_command();
    assert_eq!(command.program, "fzf");
    assert!(command.args.is_empty());
}

#[test]
fn selector_reads_one_label_per_line() {
    let labels = vec!["v1.2.0".to_string(), "v1.1.0".to_string(), "v1.0.0".to_string()];
    assert_eq!(selector_input(&labels), "v1.2.0\nv1.1.0\nv1.0.0");
    assert_eq!(selector_input(&vec!["only".to_string()]), "only");
    assert_eq!(selector_input(&Vec::new()), "");
}

#[test]
fn selection_is_the_output_without_its_line_end() {
    assert_eq!(selection("v1.2.0\n"), Ok("v1.2.0".to_string()));
    assert_eq!(selection("tool.tar.gz\r\n"), Ok("tool.tar.gz".to_string()));
    assert_eq!(selection("tool"), Ok("tool".to_string()));
    assert_eq!(selection("  indented name \n"), Ok("  indented name".to_string()));
}

#[test]
fn empty_output_is_an_aborted_selection() {
    assert_eq!(selection(""), Err(InstallError::SelectionAborted));
}

#[test]
fn picked_empty_label_is_a_choice() {
    assert_eq!(selection("\n"), Ok(String::new()));
    assert_eq!(selection("\r\n"), Ok(String::new()));
    assert_eq!(selection(" \t\r\n"), Ok(String::new()));
}

#[test]
fn every_offered_label_is_read_back_when_picked() {
    let labels = ["v1.2.0", "tool.tar.gz", "", " leading", "two words", "\u{1f980}", "."];
    for label in labels {
        let output = format!("{label}\n");
        assert_eq!(selection(&output), Ok(label.to_string()), "{label:?}");
    }
}
