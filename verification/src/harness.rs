//! The test harness: a closed list of cases, run one after the other.
//!
//! [`Harness`] holds the decisions of a run. It is told what happened and
//! answers with the text to emit and what to do next; whoever drives it owns
//! the diagnostic channel and the machine. [`test_runner`] drives it over
//! cases that report their own end, and gathers what a run emits.

use vstd::prelude::*;
use vstd::string::StringExecFns;
use crate::report::{
    announcement,
    announcement_text,
    failure_report,
    failure_text,
    ok_marker,
    ok_text,
    passed_line,
    passed_lines,
    passed_lines_grow,
    summary_line,
    summary_text,
    transcript,
};
use crate::status::{Outcome, QemuExitCode};

verus! {

/// A test case: a named unit of work without arguments.
pub trait Testable {
    /// The name under which the case is announced.
    fn name(&self) -> String;

    /// Runs the case once. A case that returns normally has passed; one that
    /// raised a fault from which nothing recovered hands back the fault's
    /// description.
    fn run(&self) -> Result<(), String>;
}

/// A list of texts as plain values.
pub open spec fn texts(list: Seq<String>) -> Seq<Seq<char>> {
    Seq::new(list.len(), |i: int| list[i]@)
}

/// A case made of a name and a function to call.
pub struct Case<F: Fn() -> Result<(), String>> {
    name: String,
    body: F,
}

impl<F: Fn() -> Result<(), String>> Case<F> {
    #[verifier::type_invariant]
    spec fn callable(self) -> bool {
        call_requires(self.body, ())
    }

    /// The name under which the case is announced.
    pub closed spec fn label(self) -> Seq<char> {
        self.name@
    }

    /// The function that the case calls.
    pub closed spec fn body(self) -> F {
        self.body
    }

    /// A case that is announced as `name` and runs `body`.
    pub fn new(name: &str, body: F) -> (case: Case<F>)
        requires
            call_requires(body, ()),
        ensures
            case.label() == name@,
            case.body() == body,
    {
        Case { name: String::from_str(name), body }
    }
}

impl<F: Fn() -> Result<(), String>> Testable for Case<F> {
    fn name(&self) -> (text: String)
        ensures
            text@ == self.label(),
    {
        self.name.clone()
    }

    fn run(&self) -> (result: Result<(), String>)
        ensures
            call_ensures(self.body(), (), result),
    {
        proof {
            use_type_invariant(self);
        }
        (self.body)()
    }
}

/// What the harness is told.
pub enum Event {
    /// The run begins.
    Start,
    /// The case that was running has returned normally.
    Returned,
    /// The case that was running raised a fault from which nothing
    /// recovered; the text describes the fault.
    Faulted(String),
}

/// What is to be done once the text of an [`Action`] has been emitted.
#[derive(Clone, Copy, Debug, PartialEq, Eq, Structural)]
pub enum Next {
    /// Run the case at this place in the list.
    Run(usize),
    /// Stop the machine with this status, and park the CPU in case the
    /// machine keeps running.
    Exit(QemuExitCode),
}

/// What the harness answers: text for the diagnostic channel, and what to do
/// after it has been emitted.
pub struct Action {
    pub text: String,
    pub next: Next,
}

/// Where a run stands.
#[derive(Clone, Copy, Debug, PartialEq, Eq, Structural)]
pub enum Progress {
    /// Nothing has been emitted yet.
    Idle,
    /// The case at this place in the list has been announced and is running.
    Running(usize),
    /// The machine has been told to stop.
    Stopped,
}

/// What happens when the run arrives at place `at` of the list: the case
/// there is announced and run, or, past the last case, the machine is stopped
/// with the success status.
pub open spec fn arrival(names: Seq<Seq<char>>, at: int) -> (Seq<char>, Next) {
    if 0 <= at < names.len() {
        (announcement(names[at]), Next::Run(at as usize))
    } else {
        (Seq::empty(), Next::Exit(QemuExitCode::Success))
    }
}

/// The text emitted and the thing done in answer to an event, or `None` for
/// an event that cannot occur where the run stands.
///
/// The start emits the summary line and arrives at the first case. A return
/// emits the ok marker and arrives at the following case. A fault emits the
/// failure report and stops the machine as failed, so that no case runs
/// after it. Nothing can occur before the start but the start, and nothing
/// at all once the machine has been told to stop.
pub open spec fn reaction(names: Seq<Seq<char>>, progress: Progress, event: Event) -> Option<
    (Seq<char>, Next),
> {
    match (progress, event) {
        (Progress::Idle, Event::Start) => Some(
            (summary_line(names.len()) + arrival(names, 0).0, arrival(names, 0).1),
        ),
        (Progress::Running(at), Event::Returned) => Some(
            (ok_marker() + arrival(names, at + 1).0, arrival(names, at + 1).1),
        ),
        (Progress::Running(_), Event::Faulted(diagnostic)) => Some(
            (failure_report(diagnostic@), Next::Exit(QemuExitCode::Failed)),
        ),
        _ => None,
    }
}

/// Where the run stands once the given thing is being done.
pub open spec fn standing(next: Next) -> Progress {
    match next {
        Next::Run(at) => Progress::Running(at),
        Next::Exit(_) => Progress::Stopped,
    }
}

/// Where a run over cases of these names stands after a series of events,
/// and everything that it has emitted by then. An event that cannot occur
/// where the run stands changes nothing.
pub open spec fn replay(names: Seq<Seq<char>>, events: Seq<Event>) -> (Progress, Seq<char>)
    decreases events.len(),
{
    if events.len() == 0 {
        (Progress::Idle, Seq::empty())
    } else {
        let (progress, text) = replay(names, events.drop_last());
        match reaction(names, progress, events.last()) {
            Some((more, next)) => (standing(next), text + more),
            None => (progress, text),
        }
    }
}

/// The events of a run up to the point where `count` cases have returned
/// normally: the start, then one return for each of them.
pub open spec fn clean_events(count: nat) -> Seq<Event> {
    seq![Event::Start] + Seq::new(count, |i: int| Event::Returned)
}

/// The decisions of one run over a list of named cases.
pub struct Harness<'a> {
    names: &'a [String],
    progress: Progress,
}

impl<'a> Harness<'a> {
    #[verifier::type_invariant]
    spec fn in_range(self) -> bool {
        self.progress matches Progress::Running(at) ==> at < self.names.len()
    }

    /// The names of the cases, in the order in which they were declared.
    pub closed spec fn names(&self) -> Seq<Seq<char>> {
        texts(self.names@)
    }

    /// Where the run stands.
    pub closed spec fn progress_spec(&self) -> Progress {
        self.progress
    }

    /// A run over the cases of these names that has not begun.
    pub fn new(names: &'a [String]) -> (harness: Harness<'a>)
        ensures
            harness.names() == texts(names@),
            harness.progress() == Progress::Idle,
    {
        Harness { names, progress: Progress::Idle }
    }

    /// Where the run stands. A case that is running is one of the list.
    #[verifier::when_used_as_spec(progress_spec)]
    pub fn progress(&self) -> (progress: Progress)
        ensures
            progress == self.progress_spec(),
            progress matches Progress::Running(at) ==> at < self.names().len(),
    {
        proof {
            use_type_invariant(self);
        }
        self.progress
    }

    /// Arrives at place `at` of the list: adds the announcement of the case
    /// there, if there is one, to `text`.
    fn arrive(&mut self, at: usize, text: &mut String) -> (next: Next)
        requires
            at <= old(self).names().len(),
        ensures
            final(self).names() == old(self).names(),
            final(text)@ == old(text)@ + arrival(old(self).names(), at as int).0,
            next == arrival(old(self).names(), at as int).1,
            final(self).progress() == standing(next),
    {
        if at < self.names.len() {
            let header = announcement_text(self.names[at].as_str());
            text.append(header.as_str());
            self.progress = Progress::Running(at);
            Next::Run(at)
        } else {
            self.progress = Progress::Stopped;
            Next::Exit(QemuExitCode::Success)
        }
    }

    /// Takes an event and answers with what to emit and what to do next.
    ///
    /// An event that cannot occur where the run stands is refused with
    /// `None`, and the run stands where it stood.
    pub fn step(&mut self, event: &Event) -> (action: Option<Action>)
        ensures
            final(self).names() == old(self).names(),
            match action {
                Some(action) => {
                    &&& reaction(old(self).names(), old(self).progress(), *event) == Some(
                        (action.text@, action.next),
                    )
                    &&& final(self).progress() == standing(action.next)
                },
                None => {
                    &&& reaction(old(self).names(), old(self).progress(), *event) is None
                    &&& final(self).progress() == old(self).progress()
                },
            },
    {
        proof {
            use_type_invariant(&*self);
        }
        match (self.progress, event) {
            (Progress::Idle, Event::Start) => {
                let mut text = summary_text(self.names.len());
                let next = self.arrive(0, &mut text);
                Some(Action { text, next })
            },
            (Progress::Running(at), Event::Returned) => {
                let mut text = ok_text();
                let next = self.arrive(at + 1, &mut text);
                Some(Action { text, next })
            },
            (Progress::Running(_), Event::Faulted(diagnostic)) => {
                self.progress = Progress::Stopped;
                Some(test_panic_handler(diagnostic.as_str()))
            },
            _ => None,
        }
    }
}

/// The answer to an unrecovered fault: the failure report with the fault's
/// description, after which the machine is stopped with the failure status. The
/// faulting context is never resumed.
pub fn test_panic_handler(info: &str) -> (action: Action)
    ensures
        action.text@ == failure_report(info@),
        action.next == Next::Exit(QemuExitCode::Failed),
{
    Action { text: failure_text(info), next: Next::Exit(QemuExitCode::Failed) }
}

/// What a run has emitted and how it ended.
pub struct Report {
    /// The names of the cases as the cases gave them, in the order of the
    /// list.
    pub names: Vec<String>,
    /// Everything that was written to the diagnostic channel.
    pub text: String,
    /// The status with which the machine is stopped.
    pub status: QemuExitCode,
    /// How many cases returned normally.
    pub passed: usize,
    /// The description of the fault that ended the run, if one did.
    pub fault: Option<String>,
}

impl Report {
    /// The description of the fault that ended the run, as plain text.
    pub open spec fn fault_text(&self) -> Option<Seq<char>> {
        match self.fault {
            Some(diagnostic) => Some(diagnostic@),
            None => None,
        }
    }

    /// How the run ended: it failed if a fault ended it, and passed
    /// otherwise.
    pub open spec fn outcome_spec(&self) -> Outcome {
        if self.fault is Some {
            Outcome::Failed
        } else {
            Outcome::Passed
        }
    }

    /// How the run ended.
    #[verifier::when_used_as_spec(outcome_spec)]
    pub fn outcome(&self) -> (outcome: Outcome)
        ensures
            outcome == self.outcome_spec(),
    {
        if self.fault.is_some() {
            Outcome::Failed
        } else {
            Outcome::Passed
        }
    }
}

/// Runs the cases one after the other, in the order of the list, and gathers
/// what the run emits.
///
/// The summary line comes first. Each case is announced and then run; when it
/// returns normally its line is closed with the ok marker and the next case
/// follows. The first fault closes the line with the failure report and ends
/// the run with the failure status. A run that gets through every case, and
/// so a run over no cases at all, ends with the success status.
pub fn test_runner(tests: &[&dyn Testable]) -> (report: Report)
    ensures
        report.names@.len() == tests@.len(),
        report.text@ == transcript(texts(report.names@), report.passed as nat, report.fault_text()),
        report.status == report.outcome_spec().status_spec(),
        match report.fault {
            None => report.passed == tests@.len() && report.status == QemuExitCode::Success,
            Some(_) => report.passed < tests@.len() && report.status == QemuExitCode::Failed,
        },
{
    let total: usize = tests.len();
    let mut names: Vec<String> = Vec::new();
    let mut at: usize = 0;
    while at < total
        invariant
            total == tests@.len(),
            at <= total,
            names@.len() == at,
        decreases tests@.len() - at,
    {
        names.push(tests[at].name());
        at = at + 1;
    }
    let mut harness = Harness::new(names.as_slice());
    let ghost labels = texts(names@);
    let mut text = String::new();
    let mut passed: usize = 0;
    let mut event = Event::Start;
    proof {
        passed_lines_grow(labels, 0);
    }
    loop
        invariant
            labels == texts(names@),
            harness.names() == labels,
            labels.len() == total,
            total == tests@.len(),
            match event {
                Event::Start => {
                    &&& harness.progress() == Progress::Idle
                    &&& passed == 0
                    &&& text@ == Seq::<char>::empty()
                },
                _ => {
                    &&& harness.progress() == Progress::Running(passed)
                    &&& passed < labels.len()
                    &&& text@ == summary_line(labels.len()) + passed_lines(labels, passed as nat)
                        + announcement(labels[passed as int])
                },
            },
        decreases 2 * (labels.len() - passed) + (if event is Start { 1nat } else { 0nat }),
    {
        let ghost running = passed;
        let action = match harness.step(&event) {
            Some(action) => action,
            None => {
                return vstd::pervasive::unreached();
            },
        };
        text.append(action.text.as_str());
        if let Event::Returned = event {
            passed = passed + 1;
            proof {
                passed_lines_grow(labels, running as nat);
            }
        }
        match action.next {
            Next::Run(case) => {
                event =
                match tests[case].run() {
                    Ok(()) => Event::Returned,
                    Err(diagnostic) => Event::Faulted(diagnostic),
                };
            },
            Next::Exit(status) => {
                let fault = match event {
                    Event::Faulted(diagnostic) => Some(diagnostic),
                    _ => None,
                };
                return Report { names, text, status, passed, fault };
            },
        }
    }
}

/// While cases return normally the run goes through the list in order: with
/// `count` cases returned, their lines have been emitted, one for each, and
/// the case that follows them has been announced and is running.
proof fn lemma_run_in_progress(names: Seq<Seq<char>>, count: nat)
    requires
        count < names.len() <= usize::MAX,
    ensures
        replay(names, clean_events(count)) == (
            Progress::Running(count as usize),
            summary_line(names.len()) + passed_lines(names, count) + announcement(
                names[count as int],
            ),
        ),
    decreases count,
{
    let events = clean_events(count);
    passed_lines_grow(names, 0);
    if count == 0 {
        assert(events.drop_last() =~= Seq::<Event>::empty());
        assert(replay(names, events.drop_last()) == (Progress::Idle, Seq::<char>::empty()));
        assert(Seq::<char>::empty() + (summary_line(names.len()) + announcement(names[0]))
            =~= summary_line(names.len()) + passed_lines(names, 0) + announcement(names[0]));
    } else {
        let before = (count - 1) as nat;
        lemma_run_in_progress(names, before);
        passed_lines_grow(names, before);
        assert(events.drop_last() =~= clean_events(before));
        assert(events.last() == Event::Returned);
        assert(summary_line(names.len()) + passed_lines(names, before) + announcement(
            names[before as int],
        ) + (ok_marker() + announcement(names[count as int])) =~= summary_line(names.len())
            + passed_lines(names, count) + announcement(names[count as int]));
    }
}

/// A run in which no case faults emits the summary line and then exactly one
/// line for each case, in the order of the list, made of the case's name, the
/// delimiter and the ok marker; it ends by stopping the machine with the
/// success status. Over an empty list this is the summary line alone.
pub proof fn clean_run_passes_every_case(names: Seq<Seq<char>>)
    requires
        names.len() <= usize::MAX,
    ensures
        replay(names, clean_events(names.len())) == (
            Progress::Stopped,
            transcript(names, names.len(), None),
        ),
        transcript(names, names.len(), None) == summary_line(names.len()) + Seq::new(
            names.len(),
            |i: int| names[i] + "...\t"@ + "[ok]\n"@,
        ).flatten(),
        names.len() > 0 ==> reaction(
            names,
            Progress::Running((names.len() - 1) as usize),
            Event::Returned,
        ) == Some((ok_marker(), Next::Exit(QemuExitCode::Success))),
        names.len() == 0 ==> reaction(names, Progress::Idle, Event::Start) == Some(
            (summary_line(0), Next::Exit(QemuExitCode::Success)),
        ),
{
    let count = names.len();
    let events = clean_events(count);
    passed_lines_grow(names, 0);
    if count == 0 {
        assert(events.drop_last() =~= Seq::<Event>::empty());
        assert(replay(names, events.drop_last()) == (Progress::Idle, Seq::<char>::empty()));
        assert(Seq::<char>::empty() + (summary_line(0) + Seq::<char>::empty()) =~= transcript(
            names,
            0,
            None,
        ));
    } else {
        let before = (count - 1) as nat;
        lemma_run_in_progress(names, before);
        passed_lines_grow(names, before);
        assert(events.drop_last() =~= clean_events(before));
        assert(events.last() == Event::Returned);
        assert(summary_line(count) + passed_lines(names, before) + announcement(
            names[before as int],
        ) + (ok_marker() + Seq::<char>::empty()) =~= transcript(names, count, None));
    }
    assert(Seq::new(count, |i: int| passed_line(names[i])) =~= Seq::new(
        count,
        |i: int| names[i] + "...\t"@ + "[ok]\n"@,
    ));
    assert(transcript(names, count, None) =~= summary_line(count) + passed_lines(names, count));
}

/// A fault ends the run at once. The cases before the faulting one have
/// their lines; the line of the faulting case is closed with the failure
/// report, which holds the fault's description; the machine is stopped with
/// the failure status.
pub proof fn fault_ends_the_run(names: Seq<Seq<char>>, passed: nat, diagnostic: String)
    requires
        passed < names.len() <= usize::MAX,
    ensures
        replay(names, clean_events(passed).push(Event::Faulted(diagnostic))) == (
            Progress::Stopped,
            transcript(names, passed, Some(diagnostic@)),
        ),
        reaction(names, Progress::Running(passed as usize), Event::Faulted(diagnostic)) == Some(
            (failure_report(diagnostic@), Next::Exit(QemuExitCode::Failed)),
        ),
{
    let events = clean_events(passed).push(Event::Faulted(diagnostic));
    lemma_run_in_progress(names, passed);
    assert(events.drop_last() =~= clean_events(passed));
    assert(events.last() == Event::Faulted(diagnostic));
    assert(summary_line(names.len()) + passed_lines(names, passed) + announcement(
        names[passed as int],
    ) + failure_report(diagnostic@) =~= transcript(names, passed, Some(diagnostic@)));
}

/// Once the machine has been told to stop, no event is taken any more:
/// nothing further is emitted and no further case is run.
pub proof fn nothing_follows_a_stop(names: Seq<Seq<char>>, events: Seq<Event>, later: Seq<Event>)
    requires
        replay(names, events).0 == Progress::Stopped,
    ensures
        replay(names, events + later) == replay(names, events),
    decreases later.len(),
{
    if later.len() == 0 {
        assert(events + later =~= events);
    } else {
        nothing_follows_a_stop(names, events, later.drop_last());
        assert((events + later).drop_last() =~= events + later.drop_last());
        assert((events + later).last() == later.last());
    }
}

} // verus!
