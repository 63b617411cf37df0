use ticket_v2::status::Status;
use ticket_v2::{Ticket, TicketNewError};

fn valid_title() -> String {
    "A title".into()
}

fn valid_description() -> String {
    "A description".into()
}

#[test]
fn invalid_status() {
    let err = Ticket::new(valid_title(), valid_description(), "invalid".into()).unwrap_err();
    assert_eq!(
        err.to_string(),
        "`invalid` is not a valid status. Use one of: ToDo, InProgress, Done"
    );
    assert!(err.source().is_some());
}

#[test]
fn invalid_status_cause_keeps_the_text() {
    let err = Ticket::new(valid_title(), valid_description(), "invalid".into()).unwrap_err();
    let cause = err.source().unwrap();
    assert_eq!(cause.invalid_status(), "invalid");
    assert_eq!(cause.to_string(), err.to_string());
    assert!(matches!(err, TicketNewError::InvalidStatus(_)));
}

#[test]
fn valid_fields_are_kept() {
    for (name, status) in [
        ("ToDo", Status::ToDo),
        ("InProgress", Status::InProgress),
        ("Done", Status::Done),
    ] {
        let ticket = Ticket::new(valid_title(), valid_description(), name.into()).unwrap();
        assert_eq!(ticket.title(), "A title");
        assert_eq!(ticket.description(), "A description");
        assert_eq!(ticket.status(), status);
    }
}

#[test]
fn status_names_are_exact() {
    for name in ["todo", "TODO", "Done ", " InProgress", ""] {
        let err = Ticket::new(valid_title(), valid_description(), name.into()).unwrap_err();
        assert_eq!(
            err.to_string(),
            format!("`{}` is not a valid status. Use one of: ToDo, InProgress, Done", name)
        );
    }
}

#[test]
fn empty_title_is_rejected() {
    let err = Ticket::new(String::new(), valid_description(), "ToDo".into()).unwrap_err();
    assert!(matches!(err, TicketNewError::TitleCannotBeEmpty));
    assert_eq!(err.to_string(), "Title cannot be empty");
    assert!(err.source().is_none());
}

#[test]
fn title_of_51_bytes_is_too_long() {
    let err = Ticket::new("a".repeat(51), valid_description(), "ToDo".into()).unwrap_err();
    assert!(matches!(err, TicketNewError::TitleTooLong));
    assert_eq!(err.to_string(), "Title cannot be longer than 50 bytes");
    assert!(err.source().is_none());
}

#[test]
fn title_of_50_bytes_is_accepted() {
    let ticket = Ticket::new("a".repeat(50), valid_description(), "Done".into()).unwrap();
    assert_eq!(ticket.title(), "a".repeat(50));
}

#[test]
fn title_limit_counts_bytes() {
    // 25 two-byte characters take 50 bytes; 26 take 52.
    let ticket = Ticket::new("é".repeat(25), valid_description(), "ToDo".into()).unwrap();
    assert_eq!(ticket.title(), "é".repeat(25));
    let err = Ticket::new("é".repeat(26), valid_description(), "ToDo".into()).unwrap_err();
    assert!(matches!(err, TicketNewError::TitleTooLong));
}

#[test]
fn empty_description_is_rejected() {
    let err = Ticket::new(valid_title(), String::new(), "ToDo".into()).unwrap_err();
    assert!(matches!(err, TicketNewError::DescriptionCannotBeEmpty));
    assert_eq!(err.to_string(), "Description cannot be empty");
    assert!(err.source().is_none());
}

#[test]
fn description_of_501_bytes_is_too_long() {
    let err = Ticket::new(valid_title(), "d".repeat(501), "ToDo".into()).unwrap_err();
    assert!(matches!(err, TicketNewError::DescriptionTooLong));
    assert_eq!(
        err.to_string(),
        "Description cannot be longer than 500 bytes"
    );
    assert!(err.source().is_none());
}

#[test]
fn description_of_500_bytes_is_accepted() {
    let ticket = Ticket::new(valid_title(), "d".repeat(500), "InProgress".into()).unwrap();
    assert_eq!(ticket.description(), "d".repeat(500));
    assert_eq!(ticket.status(), Status::InProgress);
}

#[test]
fn earliest_failure_is_reported() {
    let err = Ticket::new(String::new(), String::new(), "invalid".into()).unwrap_err();
    assert!(matches!(err, TicketNewError::TitleCannotBeEmpty));
    let err = Ticket::new("a".repeat(51), String::new(), "invalid".into()).unwrap_err();
    assert!(matches!(err, TicketNewError::TitleTooLong));
    let err = Ticket::new(valid_title(), String::new(), "invalid".into()).unwrap_err();
    assert!(matches!(err, TicketNewError::DescriptionCannotBeEmpty));
    let err = Ticket::new(valid_title(), "d".repeat(501), "invalid".into()).unwrap_err();
    assert!(matches!(err, TicketNewError::DescriptionTooLong));
}

#[test]
fn same_inputs_give_equal_results() {
    let first = Ticket::new(valid_title(), valid_description(), "Done".into()).unwrap();
    let second = Ticket::new(valid_title(), valid_description(), "Done".into()).unwrap();
    assert!(first == second);
    assert!(first.clone() == first);
    let other = Ticket::new(valid_title(), valid_description(), "ToDo".into()).unwrap();
    assert!(first != other);
    let a = Ticket::new(valid_title(), valid_description(), "nope".into()).unwrap_err();
    let b = Ticket::new(valid_title(), valid_description(), "nope".into()).unwrap_err();
    assert_eq!(a.to_string(), b.to_string());
}

#[test]
fn status_parses_its_names_only() {
    assert_eq!(Status::parse("ToDo".into()).unwrap(), Status::ToDo);
    assert_eq!(Status::parse("InProgress".into()).unwrap(), Status::InProgress);
    assert_eq!(Status::parse("Done".into()).unwrap(), Status::Done);
    let err = Status::parse("Doing".into()).unwrap_err();
    assert_eq!(err.invalid_status(), "Doing");
    assert_eq!(
        err.to_string(),
        "`Doing` is not a valid status. Use one of: ToDo, InProgress, Done"
    );
}
