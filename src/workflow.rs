//! The task entry form: the order in which answers are asked for, what each
//! answer does to the form, and the task that comes out at the end.
//!
//! Whoever drives the form shows the prompt for `step`, hands the operator's
//! answer to [`TaskForm::answer`] and acts on the [`Outcome`]: ask the next
//! question, ask the same one again with a message, submit the task, or stop.

use vstd::prelude::*;
use crate::acetics::Acetics;
use crate::clock::{
    CalendarDate,
    DateTime,
    TimeOfDay,
    elapsed_minutes,
    elapsed_minutes_spec,
    parse_dmy_date,
    parse_time_of_day,
    parsed_dmy_date,
    parsed_time,
};
use crate::task::{Staff, Task, TaskPriority, TaskStatus, TaskType};
use crate::text::{format_duration_to_hhmm, hhmm_text, push_prefix, push_str};

verus! {

/// Shown when the title is left empty.
pub const REQUIRED_FIELD_MESSAGE: &'static str = "Le champ est obligatoire";

/// Shown when the due date is not a day of the calendar in `dd/mm/yyyy`.
pub const INVALID_DATE_MESSAGE: &'static str = "Please type a valid date.";

/// How an empty description is echoed back.
pub const SKIPPED_MARK: &'static str = "<skipped>";

/// How a description is echoed back: `<skipped>` when empty, whole up to
/// twenty characters, else its first seventeen characters and `...`.
pub open spec fn preview_spec(s: Seq<char>) -> Seq<char> {
    if s.len() == 0 {
        SKIPPED_MARK@
    } else if s.len() <= 20 {
        s
    } else {
        s.subrange(0, 17) + "..."@
    }
}

pub fn description_preview(s: &str) -> (r: String)
    ensures
        r@ == preview_spec(s@),
{
    let n = s.unicode_len();
    let mut r = String::new();
    if n == 0 {
        push_str(&mut r, SKIPPED_MARK);
    } else if n <= 20 {
        push_str(&mut r, s);
    } else {
        push_prefix(&mut r, s, 17);
        push_str(&mut r, "...");
    }
    r
}

/// The message that refuses a title, if it is refused: only an empty title is.
pub fn title_error(title: &str) -> (r: Option<String>)
    ensures
        r is Some <==> title@.len() == 0,
        r matches Some(m) ==> m@ == REQUIRED_FIELD_MESSAGE@,
{
    if title.unicode_len() == 0 {
        let mut m = String::new();
        push_str(&mut m, REQUIRED_FIELD_MESSAGE);
        Some(m)
    } else {
        None
    }
}

/// The questions of the form, in the order they are asked.
#[derive(Clone, Copy, Debug, PartialEq, Eq, Structural)]
pub enum Step {
    StartTime,
    Description,
    Title,
    EndTime,
    Assignee,
    Status,
    DueDate,
    DueTime,
    Confirm,
    Finished,
}

impl Step {
    pub open spec fn rank(self) -> int {
        match self {
            Step::StartTime => 0,
            Step::Description => 1,
            Step::Title => 2,
            Step::EndTime => 3,
            Step::Assignee => 4,
            Step::Status => 5,
            Step::DueDate => 6,
            Step::DueTime => 7,
            Step::Confirm => 8,
            Step::Finished => 9,
        }
    }
}

/// What the operator gave at a prompt.
#[derive(Debug)]
pub enum Answer {
    /// Typed text.
    Text(String),
    /// The position picked in a list.
    Pick(usize),
    /// Yes or no.
    Confirm(bool),
    /// The operator left the prompt without answering.
    Cancelled,
}

/// Why the form stopped with an error.
#[derive(Clone, Copy, Debug, PartialEq, Eq, Structural)]
pub enum FormError {
    /// A start, end or due time is not a time of day.
    InvalidTime,
    /// The answer is not of the kind the prompt asks for, or picks past the
    /// end of the list.
    UnexpectedAnswer,
}

/// What to do after an answer.
#[derive(Debug)]
pub enum Outcome {
    /// Show the prompt for this step.
    Ask(Step),
    /// Show the prompt for this step again, with this message.
    Retry(Step, String),
    /// The task to send; nothing more is asked.
    Submit(Task),
    /// Stop without sending anything; not an error.
    Aborted,
    /// Stop with this error.
    Failed(FormError),
}

/// The form's contents as plain values.
pub struct FormView {
    pub step: Step,
    pub start_text: Seq<char>,
    pub description: Seq<char>,
    pub title: Seq<char>,
    pub work_time: Option<Seq<char>>,
    pub assignee: Option<(i32, Seq<char>)>,
    pub status: TaskStatus,
    pub due_date: Option<CalendarDate>,
    pub due: Option<DateTime>,
}

impl FormView {
    /// The id of the staff member picked, when one is.
    pub open spec fn assignee_id(self) -> i32 {
        match self.assignee {
            Some((id, _)) => id,
            None => 0,
        }
    }

    /// What each step can count on from the answers before it.
    pub open spec fn wf(self) -> bool {
        &&& self.step != Step::Finished ==> {
            &&& self.step.rank() > Step::Title.rank() ==> self.title.len() > 0
            &&& self.step.rank() > Step::EndTime.rank() ==> self.work_time is Some
            &&& self.step.rank() > Step::Assignee.rank() ==> self.assignee is Some
            &&& self.step == Step::DueTime ==> self.due_date is Some
            &&& self.step == Step::Confirm ==> self.due is Some
        }
    }
}

/// The task that confirming the form `f` sends.
pub open spec fn task_of(f: FormView, t: Task) -> bool {
    &&& t.fk_type == TaskType::CustomerCall.spec_code()
    &&& t.fk_assigned_staff == Some(f.assignee_id())
    &&& t.fk_assigned_group is None
    &&& t.fk_customer is None
    &&& t.fk_contract is None
    &&& t.title@ == f.title
    &&& t.description@ == f.description
    &&& t.due_date == f.due->0
    &&& t.work_time matches Some(w) && w@ == f.work_time->0
    &&& t.estimated_time is None
    &&& t.priority == TaskPriority::Normal
    &&& t.status == f.status
}

/// The form stops: nothing changes but the step.
pub open spec fn stops(f0: FormView, f1: FormView) -> bool {
    f1 == FormView { step: Step::Finished, ..f0 }
}

pub open spec fn fails(f0: FormView, f1: FormView, r: Outcome, e: FormError) -> bool {
    stops(f0, f1) && (r matches Outcome::Failed(x) && x == e)
}

pub open spec fn aborts(f0: FormView, f1: FormView, r: Outcome) -> bool {
    stops(f0, f1) && r is Aborted
}

/// The form moves on to `f1` and asks for its step.
pub open spec fn asks(f1: FormView, r: Outcome) -> bool {
    r matches Outcome::Ask(s) && s == f1.step
}

/// The form stays as it is and asks for the same step again with `msg`.
pub open spec fn retries(f0: FormView, f1: FormView, r: Outcome, msg: Seq<char>) -> bool {
    f1 == f0 && (r matches Outcome::Retry(s, m) && s == f0.step && m@ == msg)
}

/// What the answer `a` does to the form `f0`, given the settings and the
/// time of the answer: the form becomes `f1` and `r` says what to do next.
/// A cancelled description counts as an empty one; any other cancelled
/// prompt stops the form without an error.
pub open spec fn transition(
    f0: FormView,
    a: Answer,
    acetics: Acetics,
    now: DateTime,
    f1: FormView,
    r: Outcome,
) -> bool {
    match f0.step {
        Step::StartTime => match a {
            Answer::Text(t) => f1 == FormView { step: Step::Description, start_text: t@, ..f0 }
                && asks(f1, r),
            Answer::Cancelled => aborts(f0, f1, r),
            _ => fails(f0, f1, r, FormError::UnexpectedAnswer),
        },
        Step::Description => match a {
            Answer::Text(d) => f1 == FormView { step: Step::Title, description: d@, ..f0 } && asks(
                f1,
                r,
            ),
            Answer::Cancelled => f1 == FormView {
                step: Step::Title,
                description: Seq::empty(),
                ..f0
            } && asks(f1, r),
            _ => fails(f0, f1, r, FormError::UnexpectedAnswer),
        },
        Step::Title => match a {
            Answer::Text(t) => if t@.len() == 0 {
                retries(f0, f1, r, REQUIRED_FIELD_MESSAGE@)
            } else {
                f1 == FormView { step: Step::EndTime, title: t@, ..f0 } && asks(f1, r)
            },
            Answer::Cancelled => aborts(f0, f1, r),
            _ => fails(f0, f1, r, FormError::UnexpectedAnswer),
        },
        Step::EndTime => match a {
            Answer::Text(e) => match (parsed_time(f0.start_text), parsed_time(e@)) {
                (Some(s), Some(t)) => f1 == FormView {
                    step: Step::Assignee,
                    work_time: Some(hhmm_text(elapsed_minutes_spec(s, t))),
                    ..f0
                } && asks(f1, r),
                _ => fails(f0, f1, r, FormError::InvalidTime),
            },
            Answer::Cancelled => aborts(f0, f1, r),
            _ => fails(f0, f1, r, FormError::UnexpectedAnswer),
        },
        Step::Assignee => match a {
            Answer::Pick(i) => if i < acetics.config.staffs@.len() {
                f1 == FormView {
                    step: Step::Status,
                    assignee: Some(
                        (
                            acetics.config.staffs@[i as int].id,
                            acetics.config.staffs@[i as int].name@,
                        ),
                    ),
                    ..f0
                } && asks(f1, r)
            } else {
                fails(f0, f1, r, FormError::UnexpectedAnswer)
            },
            Answer::Cancelled => aborts(f0, f1, r),
            _ => fails(f0, f1, r, FormError::UnexpectedAnswer),
        },
        Step::Status => match a {
            Answer::Pick(i) => if i == 0 {
                f1 == FormView {
                    step: Step::Confirm,
                    status: TaskStatus::Closed,
                    due: Some(now),
                    ..f0
                } && asks(f1, r)
            } else if i == 1 {
                f1 == FormView { step: Step::DueDate, status: TaskStatus::Ongoing, ..f0 } && asks(
                    f1,
                    r,
                )
            } else {
                fails(f0, f1, r, FormError::UnexpectedAnswer)
            },
            Answer::Cancelled => aborts(f0, f1, r),
            _ => fails(f0, f1, r, FormError::UnexpectedAnswer),
        },
        Step::DueDate => match a {
            Answer::Text(s) => match parsed_dmy_date(s@) {
                Some(d) => f1 == FormView { step: Step::DueTime, due_date: Some(d), ..f0 } && asks(
                    f1,
                    r,
                ),
                None => retries(f0, f1, r, INVALID_DATE_MESSAGE@),
            },
            Answer::Cancelled => aborts(f0, f1, r),
            _ => fails(f0, f1, r, FormError::UnexpectedAnswer),
        },
        Step::DueTime => match a {
            Answer::Text(s) => match parsed_time(s@) {
                Some(t) => f1 == FormView {
                    step: Step::Confirm,
                    due: Some(
                        DateTime {
                            date: f0.due_date->0,
                            time: TimeOfDay::at(t.hour(), t.minute()),
                        },
                    ),
                    ..f0
                } && asks(f1, r),
                None => fails(f0, f1, r, FormError::InvalidTime),
            },
            Answer::Cancelled => aborts(f0, f1, r),
            _ => fails(f0, f1, r, FormError::UnexpectedAnswer),
        },
        Step::Confirm => match a {
            Answer::Confirm(yes) => if yes {
                stops(f0, f1) && (r matches Outcome::Submit(t) && task_of(f0, t))
            } else {
                aborts(f0, f1, r)
            },
            Answer::Cancelled => aborts(f0, f1, r),
            _ => fails(f0, f1, r, FormError::UnexpectedAnswer),
        },
        Step::Finished => false,
    }
}

/// The answers gathered so far.
#[derive(Debug)]
pub struct TaskForm {
    pub step: Step,
    pub start_text: String,
    pub description: String,
    pub title: String,
    pub work_time: Option<String>,
    pub assignee: Option<Staff>,
    pub status: TaskStatus,
    pub due_date: Option<CalendarDate>,
    pub due: Option<DateTime>,
}

impl View for TaskForm {
    type V = FormView;

    open spec fn view(&self) -> FormView {
        FormView {
            step: self.step,
            start_text: self.start_text@,
            description: self.description@,
            title: self.title@,
            work_time: match self.work_time {
                Some(w) => Some(w@),
                None => None,
            },
            assignee: match self.assignee {
                Some(s) => Some((s.id, s.name@)),
                None => None,
            },
            status: self.status,
            due_date: self.due_date,
            due: self.due,
        }
    }
}

impl TaskForm {
    /// An empty form, at its first question.
    pub fn new() -> (r: TaskForm)
        ensures
            r@.step == Step::StartTime,
            r@.start_text.len() == 0,
            r@.description.len() == 0,
            r@.title.len() == 0,
            r@.work_time is None,
            r@.assignee is None,
            r@.status == TaskStatus::Ongoing,
            r@.due_date is None,
            r@.due is None,
            r@.wf(),
    {
        TaskForm {
            step: Step::StartTime,
            start_text: String::new(),
            description: String::new(),
            title: String::new(),
            work_time: None,
            assignee: None,
            status: TaskStatus::Ongoing,
            due_date: None,
            due: None,
        }
    }

    /// Where the cursor starts in the staff list: on the default staff member.
    pub fn assignee_cursor(acetics: &Acetics) -> (r: usize)
        ensures
            r == acetics.config.default_staff_index,
    {
        acetics.default_staff_index()
    }

    /// Where the cursor starts in the status list (closed, then ongoing): the
    /// default staff member mostly logs calls already dealt with, so on
    /// closed for them and on ongoing for anyone else.
    pub fn status_cursor(&self, acetics: &Acetics) -> (r: usize)
        requires
            self@.assignee is Some,
            acetics.wf(),
        ensures
            r == if self@.assignee_id() == acetics.default_staff_id() {
                0usize
            } else {
                1usize
            },
    {
        let staff = self.assignee.as_ref().unwrap();
        if acetics.is_default_staff(staff) {
            0
        } else {
            1
        }
    }

    fn stop(&mut self)
        ensures
            stops(old(self)@, final(self)@),
    {
        self.step = Step::Finished;
    }

    fn fail(&mut self, e: FormError) -> (r: Outcome)
        ensures
            fails(old(self)@, final(self)@, r, e),
    {
        self.stop();
        Outcome::Failed(e)
    }

    fn abort(&mut self) -> (r: Outcome)
        ensures
            aborts(old(self)@, final(self)@, r),
    {
        self.stop();
        Outcome::Aborted
    }

    fn build_task(&self) -> (t: Task)
        requires
            self@.work_time is Some,
            self@.assignee is Some,
            self@.due is Some,
        ensures
            task_of(self@, t),
    {
        let staff = self.assignee.as_ref().unwrap();
        let assignee = Staff { id: staff.id, name: staff.name.clone() };
        let work_time = match &self.work_time {
            Some(w) => Some(w.clone()),
            None => None,
        };
        Task::new(TaskType::CustomerCall, self.title.clone(), self.description.clone())
            .with_assigned_staff(assignee)
            .with_work_time(work_time)
            .with_due_date(self.due.unwrap())
            .with_status(self.status)
    }

    /// Takes the answer to the current question, given the settings and the
    /// local time at which it was given.
    pub fn answer(&mut self, a: Answer, acetics: &Acetics, now: DateTime) -> (r: Outcome)
        requires
            old(self)@.wf(),
            old(self)@.step != Step::Finished,
            acetics.wf(),
        ensures
            final(self)@.wf(),
            transition(old(self)@, a, *acetics, now, final(self)@, r),
    {
        match self.step {
            Step::StartTime => match a {
                Answer::Text(t) => {
                    self.start_text = t;
                    self.step = Step::Description;
                    Outcome::Ask(Step::Description)
                },
                Answer::Cancelled => self.abort(),
                _ => self.fail(FormError::UnexpectedAnswer),
            },
            Step::Description => match a {
                Answer::Text(d) => {
                    self.description = d;
                    self.step = Step::Title;
                    Outcome::Ask(Step::Title)
                },
                Answer::Cancelled => {
                    self.description = String::new();
                    self.step = Step::Title;
                    Outcome::Ask(Step::Title)
                },
                _ => self.fail(FormError::UnexpectedAnswer),
            },
            Step::Title => match a {
                Answer::Text(t) => match title_error(t.as_str()) {
                    Some(m) => Outcome::Retry(Step::Title, m),
                    None => {
                        self.title = t;
                        self.step = Step::EndTime;
                        Outcome::Ask(Step::EndTime)
                    },
                },
                Answer::Cancelled => self.abort(),
                _ => self.fail(FormError::UnexpectedAnswer),
            },
            Step::EndTime => match a {
                Answer::Text(e) => {
                    let start = parse_time_of_day(self.start_text.as_str());
                    let end = parse_time_of_day(e.as_str());
                    match (start, end) {
                        (Some(s), Some(t)) => {
                            let minutes = elapsed_minutes(s, t);
                            self.work_time = Some(format_duration_to_hhmm(minutes));
                            self.step = Step::Assignee;
                            Outcome::Ask(Step::Assignee)
                        },
                        _ => self.fail(FormError::InvalidTime),
                    }
                },
                Answer::Cancelled => self.abort(),
                _ => self.fail(FormError::UnexpectedAnswer),
            },
            Step::Assignee => match a {
                Answer::Pick(i) => {
                    let staffs = acetics.staffs();
                    if i < staffs.len() {
                        let picked = &staffs[i];
                        self.assignee = Some(Staff { id: picked.id, name: picked.name.clone() });
                        self.step = Step::Status;
                        Outcome::Ask(Step::Status)
                    } else {
                        self.fail(FormError::UnexpectedAnswer)
                    }
                },
                Answer::Cancelled => self.abort(),
                _ => self.fail(FormError::UnexpectedAnswer),
            },
            Step::Status => match a {
                Answer::Pick(i) => if i == 0 {
                    self.status = TaskStatus::Closed;
                    self.due = Some(now);
                    self.step = Step::Confirm;
                    Outcome::Ask(Step::Confirm)
                } else if i == 1 {
                    self.status = TaskStatus::Ongoing;
                    self.step = Step::DueDate;
                    Outcome::Ask(Step::DueDate)
                } else {
                    self.fail(FormError::UnexpectedAnswer)
                },
                Answer::Cancelled => self.abort(),
                _ => self.fail(FormError::UnexpectedAnswer),
            },
            Step::DueDate => match a {
                Answer::Text(s) => match parse_dmy_date(s.as_str()) {
                    Some(d) => {
                        self.due_date = Some(d);
                        self.step = Step::DueTime;
                        Outcome::Ask(Step::DueTime)
                    },
                    None => {
                        let mut m = String::new();
                        push_str(&mut m, INVALID_DATE_MESSAGE);
                        Outcome::Retry(Step::DueDate, m)
                    },
                },
                Answer::Cancelled => self.abort(),
                _ => self.fail(FormError::UnexpectedAnswer),
            },
            Step::DueTime => match a {
                Answer::Text(s) => match parse_time_of_day(s.as_str()) {
                    Some(t) => {
                        let date = self.due_date.unwrap();
                        let hour = t.secs / 3600;
                        let minute = (t.secs % 3600) / 60;
                        self.due = Some(
                            DateTime {
                                date,
                                time: TimeOfDay { secs: 3600 * hour + 60 * minute, nanos: 0 },
                            },
                        );
                        self.step = Step::Confirm;
                        Outcome::Ask(Step::Confirm)
                    },
                    None => self.fail(FormError::InvalidTime),
                },
                Answer::Cancelled => self.abort(),
                _ => self.fail(FormError::UnexpectedAnswer),
            },
            Step::Confirm => match a {
                Answer::Confirm(yes) => if yes {
                    let task = self.build_task();
                    self.stop();
                    Outcome::Submit(task)
                } else {
                    self.abort()
                },
                Answer::Cancelled => self.abort(),
                _ => self.fail(FormError::UnexpectedAnswer),
            },
            Step::Finished => self.abort(),
        }
    }
}

} // verus!
