use std::convert::TryFrom;

use ticket_status::{ParseStatusError, Status};

fn rejected(text: &str) -> ParseStatusError {
    ParseStatusError::InvalidStatus { status: text.to_string() }
}

#[test]
fn test_try_from_string() {
    let status = Status::try_from("ToDO".to_string()).unwrap();
    assert_eq!(status, Status::ToDo);

    let status = Status::try_from("inproGress".to_string()).unwrap();
    assert_eq!(status, Status::InProgress);

    let status = Status::try_from("Done".to_string()).unwrap();
    assert_eq!(status, Status::Done);
}

#[test]
fn test_try_from_str() {
    let status = Status::try_from("ToDO").unwrap();
    assert_eq!(status, Status::ToDo);

    let status = Status::try_from("inproGress").unwrap();
    assert_eq!(status, Status::InProgress);

    let status = Status::try_from("Done").unwrap();
    assert_eq!(status, Status::Done);
}

#[test]
fn test_try_from_invalid() {
    let status = Status::try_from("Invalid");
    assert!(status.is_err());
}

#[test]
fn every_casing_gives_the_same_status() {
    for text in ["ToDo", "TODO", "todo", "tOdO", "TodO"] {
        assert_eq!(Status::parse(text), Ok(Status::ToDo));
    }
    for text in ["InProgress", "INPROGRESS", "inprogress", "iNpRoGrEsS"] {
        assert_eq!(Status::parse(text), Ok(Status::InProgress));
    }
    for text in ["Done", "DONE", "done", "dOnE"] {
        assert_eq!(Status::parse(text), Ok(Status::Done));
    }
}

#[test]
fn surrounding_whitespace_is_ignored() {
    assert_eq!(Status::parse("  done  "), Ok(Status::Done));
    assert_eq!(Status::parse("  ToDo  "), Ok(Status::ToDo));
    assert_eq!(Status::parse("\tInProgress\n"), Ok(Status::InProgress));
    assert_eq!(Status::parse("\r\n DONE \t"), Ok(Status::Done));
}

#[test]
fn unicode_whitespace_is_trimmed() {
    assert_eq!(Status::parse("\u{3000}done\u{a0}"), Ok(Status::Done));
    assert_eq!(Status::parse("\u{2003}todo\u{85}"), Ok(Status::ToDo));
}

#[test]
fn other_text_is_rejected_unchanged() {
    assert_eq!(Status::parse("Invalid"), Err(rejected("Invalid")));
    assert_eq!(Status::parse(""), Err(rejected("")));
    assert_eq!(Status::parse("Todo2"), Err(rejected("Todo2")));
    assert_eq!(Status::parse("   "), Err(rejected("   ")));
    assert_eq!(Status::parse("  Nope  "), Err(rejected("  Nope  ")));
}

#[test]
fn inner_whitespace_is_kept() {
    assert_eq!(Status::parse("to do"), Err(rejected("to do")));
    assert_eq!(Status::parse("In Progress"), Err(rejected("In Progress")));
}

#[test]
fn canonical_names_parse_alike_every_time() {
    for (text, status) in [
        ("ToDo", Status::ToDo),
        ("InProgress", Status::InProgress),
        ("Done", Status::Done),
    ] {
        let first = Status::parse(text);
        let second = Status::parse(text);
        assert_eq!(first, Ok(status));
        assert_eq!(first, second);
    }
}

#[test]
fn scenario_to_do_mixed_case() {
    assert_eq!(Status::try_from("ToDO"), Ok(Status::ToDo));
}

#[test]
fn scenario_in_progress_mixed_case() {
    assert_eq!(Status::try_from("inproGress"), Ok(Status::InProgress));
}

#[test]
fn scenario_done() {
    assert_eq!(Status::try_from("Done"), Ok(Status::Done));
}

#[test]
fn scenario_invalid_carries_its_text() {
    assert_eq!(Status::try_from("Invalid"), Err(rejected("Invalid")));
}

#[test]
fn scenario_empty_carries_empty_text() {
    assert_eq!(Status::try_from(""), Err(rejected("")));
    assert_eq!(Status::try_from(String::new()), Err(rejected("")));
}

#[test]
fn scenario_padded_to_do() {
    assert_eq!(Status::try_from("  ToDo  "), Ok(Status::ToDo));
    assert_eq!(Status::try_from("  ToDo  ".to_string()), Ok(Status::ToDo));
}

#[test]
fn owned_and_borrowed_text_agree() {
    for text in ["ToDO", " done", "INPROGRESS ", "nothing", "", "to do"] {
        assert_eq!(Status::try_from(text), Status::try_from(text.to_string()));
    }
}

#[test]
fn normalized_text_matches_exactly() {
    assert_eq!(Status::from_normalized("todo", "ToDo"), Ok(Status::ToDo));
    assert_eq!(Status::from_normalized("inprogress", "x"), Ok(Status::InProgress));
    assert_eq!(Status::from_normalized("done", "x"), Ok(Status::Done));
    assert_eq!(Status::from_normalized("ToDo", "ToDo"), Err(rejected("ToDo")));
    assert_eq!(Status::from_normalized(" done", " Done"), Err(rejected(" Done")));
}

#[test]
fn error_message_names_the_text_and_the_choices() {
    let err = Status::parse("  Later ").unwrap_err();
    assert_eq!(
        err.message(),
        "`  Later ` is not a valid status. Use one of: ToDo, InProgress, Done"
    );
    assert_eq!(
        rejected("").message(),
        "`` is not a valid status. Use one of: ToDo, InProgress, Done"
    );
}
