use acetics_cli::acetics::{Acetics, AceticsConfig};
use acetics_cli::clock::{CalendarDate, DateTime, TimeOfDay};
use acetics_cli::task::{Staff, Task, TaskStatus};
use acetics_cli::workflow::{Answer, FormError, Outcome, Step, TaskForm};

fn staff(id: i32, name: &str) -> Staff {
    Staff { id, name: name.to_string() }
}

fn settings(default_staff_index: usize) -> Acetics {
    Acetics::new(AceticsConfig {
        endpoint: "https://example.test/api".to_string(),
        token: "abc".to_string(),
        default_staff_index,
        staffs: vec![staff(3, "Alice"), staff(8, "Bob"), staff(12, "Chloe")],
    })
    .unwrap()
}

fn noon() -> DateTime {
    DateTime {
        date: CalendarDate { year: 2024, month: 3, day: 1 },
        time: TimeOfDay { secs: 12 * 3600 + 5 * 60 + 7, nanos: 0 },
    }
}

fn text(s: &str) -> Answer {
    Answer::Text(s.to_string())
}

fn expect_ask(o: Outcome, step: Step) {
    match o {
        Outcome::Ask(s) => assert_eq!(s, step),
        other => panic!("expected a question, got {:?}", other),
    }
}

/// Answers up to the status question and returns the form there.
fn up_to_status(a: &Acetics, start: &str, description: Answer, end: &str, pick: usize) -> TaskForm {
    let mut f = TaskForm::new();
    expect_ask(f.answer(text(start), a, noon()), Step::Description);
    expect_ask(f.answer(description, a, noon()), Step::Title);
    expect_ask(f.answer(text("Appel client"), a, noon()), Step::EndTime);
    expect_ask(f.answer(text(end), a, noon()), Step::Assignee);
    expect_ask(f.answer(Answer::Pick(pick), a, noon()), Step::Status);
    f
}

fn submitted(o: Outcome) -> Task {
    match o {
        Outcome::Submit(t) => t,
        other => panic!("expected a task, got {:?}", other),
    }
}

#[test]
fn work_time_of_an_hour_and_a_half() {
    let a = settings(1);
    let f = up_to_status(&a, "09:00", text("Rappel"), "10:30", 0);
    assert_eq!(f.work_time.as_deref(), Some("01:30"));
}

#[test]
fn work_time_with_end_before_start() {
    let a = settings(1);
    let f = up_to_status(&a, "10:00", text("Rappel"), "09:45", 0);
    assert_eq!(f.work_time.as_deref(), Some("00:-15"));
}

#[test]
fn work_time_counts_seconds_typed() {
    let a = settings(1);
    let f = up_to_status(&a, "09:00:30", text(""), "09:02", 0);
    assert_eq!(f.work_time.as_deref(), Some("00:01"));
}

#[test]
fn closed_task_is_due_at_the_status_answer() {
    let a = settings(1);
    let mut f = up_to_status(&a, "09:00", text("Rappel"), "09:20", 1);
    assert_eq!(f.status_cursor(&a), 0);
    let later = DateTime {
        date: CalendarDate { year: 2030, month: 1, day: 1 },
        time: TimeOfDay { secs: 0, nanos: 0 },
    };
    expect_ask(f.answer(Answer::Pick(0), &a, noon()), Step::Confirm);
    let t = submitted(f.answer(Answer::Confirm(true), &a, later));
    assert_eq!(t.due_date, noon());
    assert_eq!(t.status, TaskStatus::Closed);
    assert_eq!(t.fk_assigned_staff, Some(8));
    assert_eq!(t.fk_type, 1);
    assert_eq!(t.title, "Appel client");
    assert_eq!(t.description, "Rappel");
    assert_eq!(t.work_time.as_deref(), Some("00:20"));
    assert_eq!(f.step, Step::Finished);
}

#[test]
fn ongoing_task_is_due_at_the_entered_date_and_time() {
    let a = settings(1);
    let mut f = up_to_status(&a, "09:00", text("Rappel"), "09:20", 2);
    assert_eq!(f.status_cursor(&a), 1);
    expect_ask(f.answer(Answer::Pick(1), &a, noon()), Step::DueDate);
    expect_ask(f.answer(text("25/12/2024"), &a, noon()), Step::DueTime);
    expect_ask(f.answer(text("14:30:45"), &a, noon()), Step::Confirm);
    let t = submitted(f.answer(Answer::Confirm(true), &a, noon()));
    assert_eq!(t.status, TaskStatus::Ongoing);
    assert_eq!(t.fk_assigned_staff, Some(12));
    assert_eq!(
        t.due_date,
        DateTime {
            date: CalendarDate { year: 2024, month: 12, day: 25 },
            time: TimeOfDay { secs: 14 * 3600 + 30 * 60, nanos: 0 },
        }
    );
}

#[test]
fn invalid_due_date_is_asked_again() {
    let a = settings(1);
    let mut f = up_to_status(&a, "09:00", text("Rappel"), "09:20", 2);
    expect_ask(f.answer(Answer::Pick(1), &a, noon()), Step::DueDate);
    match f.answer(text("31/02/2024"), &a, noon()) {
        Outcome::Retry(s, m) => {
            assert_eq!(s, Step::DueDate);
            assert_eq!(m, "Please type a valid date.");
        }
        other => panic!("expected a retry, got {:?}", other),
    }
    assert_eq!(f.step, Step::DueDate);
    expect_ask(f.answer(text("29/02/2024"), &a, noon()), Step::DueTime);
    assert_eq!(f.due_date, Some(CalendarDate { year: 2024, month: 2, day: 29 }));
}

#[test]
fn invalid_due_time_fails() {
    let a = settings(1);
    let mut f = up_to_status(&a, "09:00", text("Rappel"), "09:20", 2);
    expect_ask(f.answer(Answer::Pick(1), &a, noon()), Step::DueDate);
    expect_ask(f.answer(text("02/01/2025"), &a, noon()), Step::DueTime);
    match f.answer(text("25:00"), &a, noon()) {
        Outcome::Failed(e) => assert_eq!(e, FormError::InvalidTime),
        other => panic!("expected a failure, got {:?}", other),
    }
}

#[test]
fn invalid_start_time_fails_at_end_time() {
    let a = settings(0);
    let mut f = TaskForm::new();
    expect_ask(f.answer(text("nine"), &a, noon()), Step::Description);
    expect_ask(f.answer(text("x"), &a, noon()), Step::Title);
    expect_ask(f.answer(text("t"), &a, noon()), Step::EndTime);
    match f.answer(text("10:00"), &a, noon()) {
        Outcome::Failed(e) => assert_eq!(e, FormError::InvalidTime),
        other => panic!("expected a failure, got {:?}", other),
    }
    assert_eq!(f.step, Step::Finished);
}

#[test]
fn empty_title_is_refused_until_given() {
    let a = settings(0);
    let mut f = TaskForm::new();
    expect_ask(f.answer(text("09:00"), &a, noon()), Step::Description);
    expect_ask(f.answer(text("x"), &a, noon()), Step::Title);
    for _ in 0..3 {
        match f.answer(text(""), &a, noon()) {
            Outcome::Retry(s, m) => {
                assert_eq!(s, Step::Title);
                assert_eq!(m, "Le champ est obligatoire");
            }
            other => panic!("expected a retry, got {:?}", other),
        }
        assert_eq!(f.step, Step::Title);
    }
    expect_ask(f.answer(text("Titre"), &a, noon()), Step::EndTime);
    assert_eq!(f.title, "Titre");
}

#[test]
fn skipped_description_is_stored_empty() {
    let a = settings(1);
    let mut f = up_to_status(&a, "09:00", Answer::Cancelled, "09:10", 1);
    assert_eq!(f.description, "");
    expect_ask(f.answer(Answer::Pick(0), &a, noon()), Step::Confirm);
    let t = submitted(f.answer(Answer::Confirm(true), &a, noon()));
    assert_eq!(t.description, "");
}

#[test]
fn empty_description_is_stored_empty() {
    let a = settings(1);
    let mut f = up_to_status(&a, "09:00", text(""), "09:10", 1);
    expect_ask(f.answer(Answer::Pick(0), &a, noon()), Step::Confirm);
    let t = submitted(f.answer(Answer::Confirm(true), &a, noon()));
    assert_eq!(t.description, "");
}

#[test]
fn declined_confirmation_sends_nothing() {
    let a = settings(1);
    let mut f = up_to_status(&a, "09:00", text("d"), "09:10", 1);
    expect_ask(f.answer(Answer::Pick(0), &a, noon()), Step::Confirm);
    assert!(matches!(f.answer(Answer::Confirm(false), &a, noon()), Outcome::Aborted));
    assert_eq!(f.step, Step::Finished);
}

#[test]
fn cancelled_title_aborts() {
    let a = settings(0);
    let mut f = TaskForm::new();
    expect_ask(f.answer(text("09:00"), &a, noon()), Step::Description);
    expect_ask(f.answer(text("x"), &a, noon()), Step::Title);
    assert!(matches!(f.answer(Answer::Cancelled, &a, noon()), Outcome::Aborted));
    assert_eq!(f.step, Step::Finished);
}

#[test]
fn wrong_kind_of_answer_fails() {
    let a = settings(0);
    let mut f = TaskForm::new();
    match f.answer(Answer::Pick(0), &a, noon()) {
        Outcome::Failed(e) => assert_eq!(e, FormError::UnexpectedAnswer),
        other => panic!("expected a failure, got {:?}", other),
    }
}

#[test]
fn pick_past_the_roster_fails() {
    let a = settings(0);
    let mut f = TaskForm::new();
    expect_ask(f.answer(text("09:00"), &a, noon()), Step::Description);
    expect_ask(f.answer(text("x"), &a, noon()), Step::Title);
    expect_ask(f.answer(text("t"), &a, noon()), Step::EndTime);
    expect_ask(f.answer(text("09:30"), &a, noon()), Step::Assignee);
    match f.answer(Answer::Pick(3), &a, noon()) {
        Outcome::Failed(e) => assert_eq!(e, FormError::UnexpectedAnswer),
        other => panic!("expected a failure, got {:?}", other),
    }
}

#[test]
fn status_pick_past_the_list_fails() {
    let a = settings(1);
    let mut f = up_to_status(&a, "09:00", text("d"), "09:10", 1);
    match f.answer(Answer::Pick(2), &a, noon()) {
        Outcome::Failed(e) => assert_eq!(e, FormError::UnexpectedAnswer),
        other => panic!("expected a failure, got {:?}", other),
    }
}

#[test]
fn cursors_start_on_defaults() {
    let a = settings(2);
    assert_eq!(TaskForm::assignee_cursor(&a), 2);
    let f = up_to_status(&a, "09:00", text("d"), "09:10", 2);
    assert_eq!(f.status_cursor(&a), 0);
    let g = up_to_status(&a, "09:00", text("d"), "09:10", 0);
    assert_eq!(g.status_cursor(&a), 1);
}
