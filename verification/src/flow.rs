//! The clone-and-open flow as a state machine: the session holds where it
//! stands, callers report what the outside world did (the existence check,
//! each clone attempt, the editor), and each step answers with the next
//! action to perform.

use crate::urls::{
    clone_bytes, derive_repo_name, get_alternative_url, spec_alternative_url, spec_derived_name,
    ConvertError, NameError, B_C, B_D, B_E, B_O,
};
use vstd::prelude::*;

verus! {

// ---------------------------------------------------------------------------
// The session and what happens around it, and their mathematical views
// ---------------------------------------------------------------------------

/// Where a session stands.
#[derive(Debug, PartialEq, Eq)]
pub enum Phase {
    /// The target path has not been looked at yet.
    AwaitExists,
    /// The first clone, with the locator as given, is under way.
    AwaitFirstClone,
    /// The one retry, with the alternative locator, is under way; the first
    /// attempt failed with the recorded error text.
    AwaitRetryClone { first_error: Vec<u8> },
    /// The target directory is there; the editor is under way.
    AwaitEditor,
    /// Nothing is left to do; `opened` says whether the editor was reached.
    Done { opened: bool },
}

/// What the outside world reports back to the session.
#[derive(Debug, PartialEq, Eq)]
pub enum Event {
    /// Whether the target path already exists.
    ExistsChecked { exists: bool },
    /// A clone attempt finished; `error` carries the client's error text on a
    /// non-zero exit, and nothing on success.
    CloneFinished { error: Option<Vec<u8>> },
    /// The editor ran; its own exit status is not inspected.
    EditorFinished,
}

/// A terminal acquisition failure, with everything to report.
#[derive(Debug, PartialEq, Eq)]
pub enum Failure {
    /// Both the clone and its one retry failed, with these error texts.
    RetryFailed { first_error: Vec<u8>, second_error: Vec<u8> },
    /// The clone failed and no alternative locator could be derived.
    NoAlternativeUrl { first_error: Vec<u8>, reason: ConvertError },
}

/// What the caller must do next.
#[derive(Debug, PartialEq, Eq)]
pub enum Action {
    /// Run the version-control client's clone with this locator.
    RunClone { url: Vec<u8> },
    /// Launch the editor on the target path.
    RunEditor,
    /// Report this terminal failure; the editor is never launched.
    Report { failure: Failure },
    /// The session is over.
    Finished,
}

/// A clone-and-open session: the locator as given, the resolved directory
/// name, and where the flow stands.
pub struct Session {
    pub repo_url: Vec<u8>,
    pub target_name: Vec<u8>,
    pub phase: Phase,
}

/// The view of a phase: byte strings become sequences.
pub enum PhaseView {
    AwaitExists,
    AwaitFirstClone,
    AwaitRetryClone { first_error: Seq<u8> },
    AwaitEditor,
    Done { opened: bool },
}

/// The view of an event.
pub enum EventView {
    ExistsChecked { exists: bool },
    CloneFinished { error: Option<Seq<u8>> },
    EditorFinished,
}

/// The view of a terminal failure.
pub enum FailureView {
    RetryFailed { first_error: Seq<u8>, second_error: Seq<u8> },
    NoAlternativeUrl { first_error: Seq<u8>, reason: ConvertError },
}

/// The view of an action.
pub enum ActionView {
    RunClone { url: Seq<u8> },
    RunEditor,
    Report { failure: FailureView },
    Finished,
}

/// The view of a session.
pub struct SessionView {
    pub repo_url: Seq<u8>,
    pub target_name: Seq<u8>,
    pub phase: PhaseView,
}

impl View for Phase {
    type V = PhaseView;

    open spec fn view(&self) -> PhaseView {
        match self {
            Phase::AwaitExists => PhaseView::AwaitExists,
            Phase::AwaitFirstClone => PhaseView::AwaitFirstClone,
            Phase::AwaitRetryClone { first_error } => (PhaseView::AwaitRetryClone {
                first_error: first_error@,
            }),
            Phase::AwaitEditor => PhaseView::AwaitEditor,
            Phase::Done { opened } => (PhaseView::Done { opened: *opened }),
        }
    }
}

impl View for Event {
    type V = EventView;

    open spec fn view(&self) -> EventView {
        match self {
            Event::ExistsChecked { exists } => (EventView::ExistsChecked { exists: *exists }),
            Event::CloneFinished { error } => (EventView::CloneFinished {
                error: match error {
                    Some(e) => Some(e@),
                    None => None,
                },
            }),
            Event::EditorFinished => EventView::EditorFinished,
        }
    }
}

impl View for Failure {
    type V = FailureView;

    open spec fn view(&self) -> FailureView {
        match self {
            Failure::RetryFailed { first_error, second_error } => (FailureView::RetryFailed {
                first_error: first_error@,
                second_error: second_error@,
            }),
            Failure::NoAlternativeUrl { first_error, reason } => (FailureView::NoAlternativeUrl {
                first_error: first_error@,
                reason: *reason,
            }),
        }
    }
}

impl View for Action {
    type V = ActionView;

    open spec fn view(&self) -> ActionView {
        match self {
            Action::RunClone { url } => (ActionView::RunClone { url: url@ }),
            Action::RunEditor => ActionView::RunEditor,
            Action::Report { failure } => (ActionView::Report { failure: failure@ }),
            Action::Finished => ActionView::Finished,
        }
    }
}

impl View for Session {
    type V = SessionView;

    open spec fn view(&self) -> SessionView {
        SessionView {
            repo_url: self.repo_url@,
            target_name: self.target_name@,
            phase: self.phase@,
        }
    }
}

// ---------------------------------------------------------------------------
// The transition function
// ---------------------------------------------------------------------------

/// Which event a phase is waiting for. A finished session accepts none.
pub open spec fn event_fits(phase: PhaseView, e: EventView) -> bool {
    match phase {
        PhaseView::AwaitExists => e is ExistsChecked,
        PhaseView::AwaitFirstClone => e is CloneFinished,
        PhaseView::AwaitRetryClone { .. } => e is CloneFinished,
        PhaseView::AwaitEditor => e is EditorFinished,
        PhaseView::Done { .. } => false,
    }
}

/// The same session, standing in another phase.
pub open spec fn with_phase(s: SessionView, phase: PhaseView) -> SessionView {
    SessionView { repo_url: s.repo_url, target_name: s.target_name, phase }
}

/// One step of the flow: from a session and the event it was waiting for, the
/// session's next phase and the next action.
///
/// An existing target goes straight to the editor; an absent one is cloned.
/// A failed first clone is retried once, with the alternative locator, if one
/// can be derived; a second failure, or a locator with no alternative form,
/// ends the session with a report, and the editor is never launched.
pub open spec fn spec_step(s: SessionView, e: EventView) -> (SessionView, ActionView) {
    match e {
        EventView::ExistsChecked { exists } => if exists {
            (with_phase(s, PhaseView::AwaitEditor), ActionView::RunEditor)
        } else {
            (
                with_phase(s, PhaseView::AwaitFirstClone),
                ActionView::RunClone { url: s.repo_url },
            )
        },
        EventView::CloneFinished { error } => match error {
            None => (with_phase(s, PhaseView::AwaitEditor), ActionView::RunEditor),
            Some(err) => match s.phase {
                PhaseView::AwaitRetryClone { first_error } => (
                    with_phase(s, PhaseView::Done { opened: false }),
                    ActionView::Report {
                        failure: FailureView::RetryFailed { first_error, second_error: err },
                    },
                ),
                _ => match spec_alternative_url(s.repo_url) {
                    Ok(alt) => (
                        with_phase(s, PhaseView::AwaitRetryClone { first_error: err }),
                        ActionView::RunClone { url: alt },
                    ),
                    Err(reason) => (
                        with_phase(s, PhaseView::Done { opened: false }),
                        ActionView::Report {
                            failure: FailureView::NoAlternativeUrl { first_error: err, reason },
                        },
                    ),
                },
            },
        },
        EventView::EditorFinished => (
            with_phase(s, PhaseView::Done { opened: true }),
            ActionView::Finished,
        ),
    }
}

impl Session {
    /// Open a session: the target directory name is the supplied override,
    /// taken verbatim, or else the name the locator yields; a locator that
    /// yields an empty name, with no override, is a hard error.
    pub fn new(repo_url: Vec<u8>, new_name: Option<Vec<u8>>) -> (r: Result<Session, NameError>)
        ensures
            r is Ok <==> (new_name is Some || spec_derived_name(repo_url@).len() > 0),
            r matches Ok(s) ==> {
                &&& s@.repo_url == repo_url@
                &&& s@.phase is AwaitExists
                &&& (match new_name {
                    Some(n) => s@.target_name == n@,
                    None => s@.target_name == spec_derived_name(repo_url@),
                })
            },
    {
        let target_name = match new_name {
            Some(n) => n,
            None => {
                match derive_repo_name(&repo_url) {
                    Ok(n) => n,
                    Err(e) => {
                        return Err(e);
                    },
                }
            },
        };
        Ok(Session { repo_url, target_name, phase: Phase::AwaitExists })
    }

    /// Whether the session is waiting for this event.
    pub fn accepts(&self, e: &Event) -> (r: bool)
        ensures
            r == event_fits(self@.phase, e@),
    {
        match (&self.phase, e) {
            (Phase::AwaitExists, Event::ExistsChecked { .. }) => true,
            (Phase::AwaitFirstClone, Event::CloneFinished { .. }) => true,
            (Phase::AwaitRetryClone { .. }, Event::CloneFinished { .. }) => true,
            (Phase::AwaitEditor, Event::EditorFinished) => true,
            _ => false,
        }
    }

    /// Feed the session the event it was waiting for; the answer is the next
    /// action to perform.
    pub fn step(&mut self, e: Event) -> (a: Action)
        requires
            event_fits(old(self)@.phase, e@),
        ensures
            final(self)@ == spec_step(old(self)@, e@).0,
            a@ == spec_step(old(self)@, e@).1,
    {
        match e {
            Event::ExistsChecked { exists } => {
                if exists {
                    self.phase = Phase::AwaitEditor;
                    Action::RunEditor
                } else {
                    self.phase = Phase::AwaitFirstClone;
                    Action::RunClone { url: clone_bytes(&self.repo_url) }
                }
            },
            Event::CloneFinished { error } => {
                match error {
                    None => {
                        self.phase = Phase::AwaitEditor;
                        Action::RunEditor
                    },
                    Some(err_text) => {
                        let mut recorded: Option<Vec<u8>> = None;
                        match &self.phase {
                            Phase::AwaitRetryClone { first_error } => {
                                recorded = Some(clone_bytes(first_error));
                            },
                            _ => {
                            },
                        }
                        match recorded {
                            Some(first_error) => {
                                self.phase = Phase::Done { opened: false };
                                Action::Report {
                                    failure: Failure::RetryFailed {
                                        first_error,
                                        second_error: err_text,
                                    },
                                }
                            },
                            None => {
                                match get_alternative_url(&self.repo_url) {
                                    Ok(alt) => {
                                        self.phase = Phase::AwaitRetryClone {
                                            first_error: err_text,
                                        };
                                        Action::RunClone { url: alt }
                                    },
                                    Err(reason) => {
                                        self.phase = Phase::Done { opened: false };
                                        Action::Report {
                                            failure: Failure::NoAlternativeUrl {
                                                first_error: err_text,
                                                reason,
                                            },
                                        }
                                    },
                                }
                            },
                        }
                    },
                }
            },
            Event::EditorFinished => {
                self.phase = Phase::Done { opened: true };
                Action::Finished
            },
        }
    }
}

// ---------------------------------------------------------------------------
// Whole runs of the flow, and the laws that hold of them
// ---------------------------------------------------------------------------

/// Run the flow over a whole sequence of events: the session it ends in and
/// the actions it answered with, one per event, in order.
pub open spec fn spec_run(s: SessionView, evs: Seq<EventView>) -> (SessionView, Seq<ActionView>)
    decreases evs.len(),
{
    if evs.len() == 0 {
        (s, Seq::empty())
    } else {
        let head = spec_step(s, evs[0]);
        let rest = spec_run(head.0, evs.subrange(1, evs.len() as int));
        (rest.0, seq![head.1] + rest.1)
    }
}

/// Each event of the sequence is the one the session is then waiting for.
pub open spec fn events_fit(s: SessionView, evs: Seq<EventView>) -> bool
    decreases evs.len(),
{
    evs.len() == 0 || (event_fits(s.phase, evs[0]) && events_fit(
        spec_step(s, evs[0]).0,
        evs.subrange(1, evs.len() as int),
    ))
}

/// Law: no run ever changes the locator or the resolved target name; every
/// action the flow issues is about the one target the session opened with.
pub proof fn lemma_run_keeps_target(s: SessionView, evs: Seq<EventView>)
    ensures
        spec_run(s, evs).0.repo_url == s.repo_url,
        spec_run(s, evs).0.target_name == s.target_name,
    decreases evs.len(),
{
    if evs.len() > 0 {
        lemma_run_keeps_target(spec_step(s, evs[0]).0, evs.subrange(1, evs.len() as int));
    }
}

/// Law: a finished session waits for nothing; no event fits, so a run that
/// reaches `Done` can issue no further action.
pub proof fn lemma_done_halts(s: SessionView, e: EventView)
    requires
        s.phase is Done,
    ensures
        !event_fits(s.phase, e),
{
}

/// Law: when the target path already exists, acquisition is never invoked:
/// the whole run answers with the editor launch and the finish, and no clone
/// action, and the session ends opened.
pub proof fn lemma_existing_dir_skips_clone(s: SessionView)
    requires
        s.phase is AwaitExists,
    ensures
        ({
            let evs = seq![
                EventView::ExistsChecked { exists: true },
                EventView::EditorFinished,
            ];
            let r = spec_run(s, evs);
            &&& events_fit(s, evs)
            &&& r.1 =~= seq![ActionView::RunEditor, ActionView::Finished]
            &&& r.0.phase == (PhaseView::Done { opened: true })
        }),
{
    reveal_with_fuel(spec_run, 5);
    reveal_with_fuel(events_fit, 5);
    let evs = seq![EventView::ExistsChecked { exists: true }, EventView::EditorFinished];
    let tail = evs.subrange(1, 2);
    assert(tail =~= seq![EventView::EditorFinished]);
    assert(tail.subrange(1, 1) =~= Seq::<EventView>::empty());
}

/// Law: on a fresh target whose first clone succeeds, the run clones exactly
/// once, with the locator as given, and then launches the editor exactly once.
pub proof fn lemma_first_clone_succeeds(s: SessionView)
    requires
        s.phase is AwaitExists,
    ensures
        ({
            let evs = seq![
                EventView::ExistsChecked { exists: false },
                EventView::CloneFinished { error: None },
                EventView::EditorFinished,
            ];
            let r = spec_run(s, evs);
            &&& events_fit(s, evs)
            &&& r.1 =~= seq![
                (ActionView::RunClone { url: s.repo_url }),
                ActionView::RunEditor,
                ActionView::Finished,
            ]
            &&& r.0.phase == (PhaseView::Done { opened: true })
        }),
{
    reveal_with_fuel(spec_run, 5);
    reveal_with_fuel(events_fit, 5);
    let evs = seq![
        EventView::ExistsChecked { exists: false },
        EventView::CloneFinished { error: None },
        EventView::EditorFinished,
    ];
    let t1 = evs.subrange(1, 3);
    assert(t1 =~= seq![
        EventView::CloneFinished { error: None },
        EventView::EditorFinished,
    ]);
    let t2 = t1.subrange(1, 2);
    assert(t2 =~= seq![EventView::EditorFinished]);
    assert(t2.subrange(1, 1) =~= Seq::<EventView>::empty());
}

/// Law: on a fresh target whose first clone fails but whose retry with the
/// alternative locator succeeds, the run clones exactly twice — the given
/// locator first, the alternative second — and then launches the editor
/// exactly once.
pub proof fn lemma_retry_succeeds(s: SessionView, first_error: Seq<u8>)
    requires
        s.phase is AwaitExists,
        spec_alternative_url(s.repo_url) is Ok,
    ensures
        ({
            let evs = seq![
                EventView::ExistsChecked { exists: false },
                EventView::CloneFinished { error: Some(first_error) },
                EventView::CloneFinished { error: None },
                EventView::EditorFinished,
            ];
            let r = spec_run(s, evs);
            &&& events_fit(s, evs)
            &&& r.1 =~= seq![
                (ActionView::RunClone { url: s.repo_url }),
                (ActionView::RunClone { url: spec_alternative_url(s.repo_url)->Ok_0 }),
                ActionView::RunEditor,
                ActionView::Finished,
            ]
            &&& r.0.phase == (PhaseView::Done { opened: true })
        }),
{
    reveal_with_fuel(spec_run, 5);
    reveal_with_fuel(events_fit, 5);
    let evs = seq![
        EventView::ExistsChecked { exists: false },
        EventView::CloneFinished { error: Some(first_error) },
        EventView::CloneFinished { error: None },
        EventView::EditorFinished,
    ];
    let t1 = evs.subrange(1, 4);
    assert(t1 =~= seq![
        EventView::CloneFinished { error: Some(first_error) },
        EventView::CloneFinished { error: None },
        EventView::EditorFinished,
    ]);
    let t2 = t1.subrange(1, 3);
    assert(t2 =~= seq![
        EventView::CloneFinished { error: None },
        EventView::EditorFinished,
    ]);
    let t3 = t2.subrange(1, 2);
    assert(t3 =~= seq![EventView::EditorFinished]);
    assert(t3.subrange(1, 1) =~= Seq::<EventView>::empty());
}

/// Law: when both the clone and its one retry fail, the editor is never
/// launched: the run clones twice, reports both error texts, and ends not
/// opened — a state in which no further event fits.
pub proof fn lemma_both_clones_fail(s: SessionView, first_error: Seq<u8>, second_error: Seq<u8>)
    requires
        s.phase is AwaitExists,
        spec_alternative_url(s.repo_url) is Ok,
    ensures
        ({
            let evs = seq![
                EventView::ExistsChecked { exists: false },
                EventView::CloneFinished { error: Some(first_error) },
                EventView::CloneFinished { error: Some(second_error) },
            ];
            let r = spec_run(s, evs);
            &&& events_fit(s, evs)
            &&& r.1 =~= seq![
                (ActionView::RunClone { url: s.repo_url }),
                (ActionView::RunClone { url: spec_alternative_url(s.repo_url)->Ok_0 }),
                (ActionView::Report {
                    failure: FailureView::RetryFailed { first_error, second_error },
                }),
            ]
            &&& r.0.phase == (PhaseView::Done { opened: false })
            &&& forall|e: EventView| !event_fits(r.0.phase, e)
        }),
{
    reveal_with_fuel(spec_run, 5);
    reveal_with_fuel(events_fit, 5);
    let evs = seq![
        EventView::ExistsChecked { exists: false },
        EventView::CloneFinished { error: Some(first_error) },
        EventView::CloneFinished { error: Some(second_error) },
    ];
    let t1 = evs.subrange(1, 3);
    assert(t1 =~= seq![
        EventView::CloneFinished { error: Some(first_error) },
        EventView::CloneFinished { error: Some(second_error) },
    ]);
    let t2 = t1.subrange(1, 2);
    assert(t2 =~= seq![EventView::CloneFinished { error: Some(second_error) }]);
    assert(t2.subrange(1, 1) =~= Seq::<EventView>::empty());
}

/// Law: when the clone fails and the locator has no alternative form, the
/// session reports at once, names the reason, and the editor is never
/// launched.
pub proof fn lemma_no_alternative_fails(s: SessionView, first_error: Seq<u8>)
    requires
        s.phase is AwaitExists,
        spec_alternative_url(s.repo_url) is Err,
    ensures
        ({
            let evs = seq![
                EventView::ExistsChecked { exists: false },
                EventView::CloneFinished { error: Some(first_error) },
            ];
            let r = spec_run(s, evs);
            &&& events_fit(s, evs)
            &&& r.1 =~= seq![
                (ActionView::RunClone { url: s.repo_url }),
                (ActionView::Report {
                    failure: FailureView::NoAlternativeUrl {
                        first_error,
                        reason: spec_alternative_url(s.repo_url)->Err_0,
                    },
                }),
            ]
            &&& r.0.phase == (PhaseView::Done { opened: false })
            &&& forall|e: EventView| !event_fits(r.0.phase, e)
        }),
{
    reveal_with_fuel(spec_run, 5);
    reveal_with_fuel(events_fit, 5);
    let evs = seq![
        EventView::ExistsChecked { exists: false },
        EventView::CloneFinished { error: Some(first_error) },
    ];
    let t1 = evs.subrange(1, 2);
    assert(t1 =~= seq![EventView::CloneFinished { error: Some(first_error) }]);
    assert(t1.subrange(1, 1) =~= Seq::<EventView>::empty());
}

/// The default editor command, `code`, as bytes.
pub open spec fn default_editor() -> Seq<u8> {
    seq![B_C, B_O, B_D, B_E]
}

/// The editor command to invoke: an explicitly supplied alternative wins;
/// without one, the default editor is used.
pub fn resolve_editor(alternative: Option<Vec<u8>>) -> (r: Vec<u8>)
    ensures
        alternative matches Some(v) ==> r@ == v@,
        alternative is None ==> r@ == default_editor(),
{
    match alternative {
        Some(v) => v,
        None => {
            let mut d: Vec<u8> = Vec::new();
            d.push(B_C);
            d.push(B_O);
            d.push(B_D);
            d.push(B_E);
            assert(d@ =~= default_editor());
            d
        },
    }
}

} // verus!

