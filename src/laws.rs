//! What holds of the form over every answer: the work time it writes, what it
//! keeps of the description and title, and how it settles the due date.

use vstd::prelude::*;
use crate::acetics::Acetics;
use crate::clock::{DateTime, TimeOfDay, elapsed_minutes_spec, parsed_time};
use crate::task::TaskStatus;
use crate::text::{
    clock_text,
    clock_total_minutes,
    decimal,
    digit_char,
    digit_value,
    hhmm_text,
    is_clock_shaped,
    pad2,
    trunc_div,
    trunc_rem,
};
use crate::workflow::{Answer, FormView, Outcome, Step, transition};

verus! {

proof fn lemma_digit_round_trip(k: int)
    requires
        0 <= k < 10,
    ensures
        digit_value(digit_char(k)) == k,
{
}

/// A number below a hundred, zero-padded, is its two digits.
proof fn lemma_pad2_two_digits(n: int)
    requires
        0 <= n < 100,
    ensures
        pad2(n) == seq![digit_char(n / 10), digit_char(n % 10)],
{
    if n >= 10 {
        let n1 = n as nat;
        assert(decimal(n1 / 10) == seq![digit_char((n1 / 10) as int)]);
        assert(pad2(n) =~= seq![digit_char(n / 10), digit_char(n % 10)]);
    } else {
        assert(n / 10 == 0);
        assert(n % 10 == n);
    }
}

/// Between two whole-minute times of day, `start` no later than `end`, the
/// work time is the difference written as zero-padded hours and minutes, and
/// reading that text back gives the same number of minutes.
pub proof fn lemma_work_time_of_whole_minutes(sh: int, sm: int, eh: int, em: int)
    requires
        0 <= sh < 24,
        0 <= sm < 60,
        0 <= eh < 24,
        0 <= em < 60,
        60 * sh + sm <= 60 * eh + em,
    ensures
        ({
            let d = (60 * eh + em) - (60 * sh + sm);
            &&& elapsed_minutes_spec(TimeOfDay::at(sh, sm), TimeOfDay::at(eh, em)) == d
            &&& hhmm_text(d) == clock_text(d / 60, d % 60)
            &&& is_clock_shaped(hhmm_text(d))
            &&& clock_total_minutes(hhmm_text(d)) == d
        }),
{
    let d = (60 * eh + em) - (60 * sh + sm);
    let s = TimeOfDay::at(sh, sm);
    let e = TimeOfDay::at(eh, em);
    assert(s.secs as int == 3600 * sh + 60 * sm);
    assert(e.secs as int == 3600 * eh + 60 * em);
    assert(crate::clock::delta_nanos(s, e) == 60_000_000_000 * d);
    assert(trunc_div(60_000_000_000 * d, 1_000_000_000) == 60 * d) by (nonlinear_arith)
        requires
            d >= 0,
    ;
    assert(trunc_div(60 * d, 60) == d) by (nonlinear_arith)
        requires
            d >= 0,
    ;
    assert(d < 1440);
    let h = d / 60;
    let m = d % 60;
    assert(trunc_div(d, 60) == h);
    assert(trunc_rem(d, 60) == m);
    assert(0 <= h < 24);
    lemma_pad2_two_digits(h);
    lemma_pad2_two_digits(m);
    let t = hhmm_text(d);
    assert(t =~= clock_text(h, m));
    lemma_digit_round_trip(h / 10);
    lemma_digit_round_trip(h % 10);
    lemma_digit_round_trip(m / 10);
    lemma_digit_round_trip(m % 10);
    assert(t[0] == digit_char(h / 10));
    assert(t[1] == digit_char(h % 10));
    assert(t[3] == digit_char(m / 10));
    assert(t[4] == digit_char(m % 10));
}

/// An empty or skipped description is kept as the empty text, and every later
/// answer carries the description unchanged into the task sent.
pub proof fn lemma_description_kept(
    f0: FormView,
    a: Answer,
    acetics: Acetics,
    now: DateTime,
    f1: FormView,
    r: Outcome,
)
    requires
        transition(f0, a, acetics, now, f1, r),
    ensures
        f0.step == Step::Description && ((a matches Answer::Text(d) && d@.len() == 0)
            || a is Cancelled) ==> f1.description == Seq::<char>::empty(),
        f0.step != Step::Description ==> f1.description == f0.description,
        r matches Outcome::Submit(t) ==> t.description@ == f0.description,
{
}

/// An empty title is refused and asked for again, with the form unchanged;
/// so no task leaves the form with an empty title.
pub proof fn lemma_title_required(
    f0: FormView,
    a: Answer,
    acetics: Acetics,
    now: DateTime,
    f1: FormView,
    r: Outcome,
)
    requires
        f0.wf(),
        transition(f0, a, acetics, now, f1, r),
    ensures
        f0.step == Step::Title && (a matches Answer::Text(t) && t@.len() == 0) ==> f1 == f0
            && (r matches Outcome::Retry(s, _) && s == Step::Title),
        r matches Outcome::Submit(t) ==> t.title@.len() > 0,
{
}

/// Closing the task at the status question makes it due at the time of that
/// answer; the due date questions are skipped and confirming sends that time.
pub proof fn lemma_closed_task_due_now(
    f0: FormView,
    a0: Answer,
    now0: DateTime,
    f1: FormView,
    r1: Outcome,
    a1: Answer,
    now1: DateTime,
    f2: FormView,
    r2: Outcome,
    acetics: Acetics,
)
    requires
        f0.step == Step::Status,
        a0 matches Answer::Pick(i) && i == 0,
        transition(f0, a0, acetics, now0, f1, r1),
        transition(f1, a1, acetics, now1, f2, r2),
    ensures
        f1.step == Step::Confirm,
        r1 matches Outcome::Ask(s) && s == Step::Confirm,
        r2 matches Outcome::Submit(t) ==> t.due_date == now0 && t.status == TaskStatus::Closed,
{
}

/// An ongoing task is due on the date entered at the hour and minute entered,
/// with the seconds set to zero; confirming sends that due date.
pub proof fn lemma_ongoing_task_due_entered(
    f0: FormView,
    a0: Answer,
    now0: DateTime,
    f1: FormView,
    r1: Outcome,
    a1: Answer,
    now1: DateTime,
    f2: FormView,
    r2: Outcome,
    acetics: Acetics,
)
    requires
        f0.step == Step::DueTime,
        f0.status == TaskStatus::Ongoing,
        a0 matches Answer::Text(s) && parsed_time(s@) is Some,
        transition(f0, a0, acetics, now0, f1, r1),
        transition(f1, a1, acetics, now1, f2, r2),
    ensures
        ({
            let t = parsed_time(a0->Text_0@)->0;
            &&& f1.due == Some(DateTime { date: f0.due_date->0, time: TimeOfDay::at(t.hour(), t.minute()) })
            &&& r2 matches Outcome::Submit(task) ==> {
                &&& task.due_date.date == f0.due_date->0
                &&& task.due_date.time.secs as int == 3600 * t.hour() + 60 * t.minute()
                &&& task.due_date.time.secs % 60 == 0
                &&& task.due_date.time.nanos == 0
                &&& task.status == TaskStatus::Ongoing
            }
        }),
{
}

} // verus!
