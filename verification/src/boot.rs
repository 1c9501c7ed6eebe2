//! Start-up: wait for the server to answer its health check (at most twenty
//! tries, a quarter of a second apart), then resume a stored session if
//! there is one.
use vstd::prelude::*;

verus! {

/// How many times start-up asks the server whether it is up.
pub open spec fn max_health_checks() -> nat {
    20
}

/// Where start-up is.
#[derive(Clone, Copy, Debug, PartialEq, Eq, Structural)]
pub enum BootPhase {
    /// Nothing done yet.
    Starting,
    /// A health check is under way.
    CheckingHealth,
    /// Waiting before the next health check.
    Pausing,
    /// Loading the signed-in user's profile.
    FetchingProfile,
    /// Start-up is over.
    Done,
}

/// What start-up learns from the outside.
#[derive(Clone, Debug)]
pub enum BootEvent {
    /// The window is up; start.
    Start,
    /// The server answered the health check; `signed_in` tells whether a
    /// session token is stored.
    HealthOk { signed_in: bool },
    /// The health check failed with this error.
    HealthFailed(String),
    /// The pause between checks is over.
    PauseOver,
    /// The signed-in user's profile arrived.
    ProfileLoaded,
    /// The profile could not be loaded.
    ProfileFailed,
}

/// What start-up asks the outside to do next.
#[derive(Clone, Debug)]
pub enum BootAction {
    /// Ask the server whether it is up.
    CheckHealth,
    /// Wait a quarter of a second.
    Pause,
    /// Load the signed-in user's profile.
    FetchProfile,
    /// Show this status on the login screen (as an error or not); start-up
    /// is over.
    ShowStatus { text: String, error: bool },
    /// Open the main screen for the loaded user; start-up is over.
    EnterApp,
    /// The stored session was refused: clear the session in the settings
    /// and save them (saving writes the client's live token back, as every
    /// save does), then show this status; start-up is over.
    ForgetSession { text: String },
    /// Nothing to do: the event does not belong to this phase.
    Wait,
}

/// The text shown when the server never answered.
pub open spec fn unreachable_text(last_error: Seq<char>) -> Seq<char> {
    "Не удалось подключиться к серверу Onix: "@ + last_error
}

/// What one step of start-up does: from `pre`, the event `event` leads to
/// `post` with the action `action`. A health check is asked for only while
/// fewer than twenty were; a failed check is counted and its error kept; after
/// a pause the next check is asked for until twenty failed, and then the last
/// error is shown; a successful check shows that the server is up or, with a
/// stored session, loads the profile; the profile then opens the main screen
/// or the stored session is forgotten. An event that does not belong to the
/// phase changes nothing. Every step but a failed check keeps the count of
/// failures and the last error.
pub open spec fn step_spec(pre: Boot, event: BootEvent, post: Boot, action: BootAction) -> bool {
    &&& post.wf()
    &&& post.checks() == pre.checks() + (if action is CheckHealth {
        1nat
    } else {
        0nat
    })
    &&& action is CheckHealth ==> pre.checks() < max_health_checks()
    &&& match (pre.phase(), event) {
        (BootPhase::Starting, BootEvent::Start) => action is CheckHealth && post.phase()
            == BootPhase::CheckingHealth && post.failures() == 0 && post.last_error()
            == pre.last_error(),
        (BootPhase::CheckingHealth, BootEvent::HealthFailed(e)) => action is Pause
            && post.phase() == BootPhase::Pausing && post.failures() == pre.failures() + 1
            && post.last_error() == e@,
        (BootPhase::Pausing, BootEvent::PauseOver) => post.keeps_progress_of(pre) && if pre.failures()
            < max_health_checks() {
            action is CheckHealth && post.phase() == BootPhase::CheckingHealth
        } else {
            post.phase() == BootPhase::Done && (action matches BootAction::ShowStatus {
                text,
                error,
            } && text@ == unreachable_text(pre.last_error()) && error)
        },
        (BootPhase::CheckingHealth, BootEvent::HealthOk { signed_in }) => post.keeps_progress_of(pre)
            && if signed_in {
            action is FetchProfile && post.phase() == BootPhase::FetchingProfile
        } else {
            post.phase() == BootPhase::Done && (action matches BootAction::ShowStatus {
                text,
                error,
            } && text@ == "Сервер Onix подключён"@ && !error)
        },
        (BootPhase::FetchingProfile, BootEvent::ProfileLoaded) => action is EnterApp
            && post.phase() == BootPhase::Done && post.keeps_progress_of(pre),
        (BootPhase::FetchingProfile, BootEvent::ProfileFailed) => post.phase() == BootPhase::Done
            && post.keeps_progress_of(pre) && (action matches BootAction::ForgetSession { text }
            && text@ == "Введите данные аккаунта"@),
        _ => action is Wait && post.phase() == pre.phase() && post.keeps_progress_of(pre),
    }
}

/// The state of start-up.
pub struct Boot {
    phase: BootPhase,
    failures: u32,
    last_error: String,
    checks: Ghost<nat>,
}

impl Boot {
    pub closed spec fn phase(self) -> BootPhase {
        self.phase
    }

    /// How many health checks failed so far.
    pub closed spec fn failures(self) -> nat {
        self.failures as nat
    }

    /// The error of the last failed health check (empty before any).
    pub closed spec fn last_error(self) -> Seq<char> {
        self.last_error@
    }

    /// How many health checks start-up has asked for so far.
    pub closed spec fn checks(self) -> nat {
        self.checks@
    }

    /// The invariant: at most twenty checks, each one either failed or is
    /// the one under way (or it succeeded and start-up moved on).
    pub closed spec fn wf(self) -> bool {
        &&& self.failures <= max_health_checks()
        &&& self.checks@ <= max_health_checks()
        &&& match self.phase {
            BootPhase::Starting => self.checks@ == 0 && self.failures == 0,
            BootPhase::CheckingHealth => self.checks@ == self.failures + 1,
            BootPhase::Pausing => self.checks@ == self.failures && self.failures >= 1,
            _ => self.checks@ <= self.failures + 1,
        }
    }

    /// The count of failed checks and the last error are as in `other`.
    pub open spec fn keeps_progress_of(self, other: Boot) -> bool {
        self.failures() == other.failures() && self.last_error() == other.last_error()
    }

    /// Start-up before anything happened.
    pub fn new() -> (b: Boot)
        ensures
            b.wf(),
            b.phase() == BootPhase::Starting,
            b.failures() == 0,
            b.checks() == 0,
            b.last_error().len() == 0,
    {
        Boot { phase: BootPhase::Starting, failures: 0, last_error: String::new(), checks: Ghost(0) }
    }

    /// One step of start-up: the next phase and action for an event.
    pub fn step(&mut self, event: BootEvent) -> (action: BootAction)
        requires
            old(self).wf(),
        ensures
            final(self).wf(),
            step_spec(*old(self), event, *final(self), action),
    {
        match (self.phase, event) {
            (BootPhase::Starting, BootEvent::Start) => {
                self.phase = BootPhase::CheckingHealth;
                self.checks = Ghost(self.checks@ + 1);
                BootAction::CheckHealth
            },
            (BootPhase::CheckingHealth, BootEvent::HealthFailed(e)) => {
                self.phase = BootPhase::Pausing;
                self.failures = self.failures + 1;
                self.last_error = e;
                BootAction::Pause
            },
            (BootPhase::Pausing, BootEvent::PauseOver) => {
                if self.failures < 20 {
                    self.phase = BootPhase::CheckingHealth;
                    self.checks = Ghost(self.checks@ + 1);
                    BootAction::CheckHealth
                } else {
                    self.phase = BootPhase::Done;
                    let mut text = String::from_str("Не удалось подключиться к серверу Onix: ");
                    text.append(self.last_error.as_str());
                    BootAction::ShowStatus { text, error: true }
                }
            },
            (BootPhase::CheckingHealth, BootEvent::HealthOk { signed_in }) => {
                if signed_in {
                    self.phase = BootPhase::FetchingProfile;
                    BootAction::FetchProfile
                } else {
                    self.phase = BootPhase::Done;
                    BootAction::ShowStatus {
                        text: String::from_str("Сервер Onix подключён"),
                        error: false,
                    }
                }
            },
            (BootPhase::FetchingProfile, BootEvent::ProfileLoaded) => {
                self.phase = BootPhase::Done;
                BootAction::EnterApp
            },
            (BootPhase::FetchingProfile, BootEvent::ProfileFailed) => {
                self.phase = BootPhase::Done;
                BootAction::ForgetSession { text: String::from_str("Введите данные аккаунта") }
            },
            _ => BootAction::Wait,
        }
    }
}

/// However the server answers, start-up asks for at most twenty health
/// checks: in every state start-up can be in, no more were asked for, and
/// each one asked for either failed or is the one under way (or succeeded
/// and start-up moved on).
pub proof fn lemma_health_checks_bounded(b: Boot)
    requires
        b.wf(),
    ensures
        b.checks() <= max_health_checks(),
        b.failures() <= max_health_checks(),
        b.phase() == BootPhase::Starting ==> b.checks() == 0 && b.failures() == 0,
        b.phase() == BootPhase::CheckingHealth ==> b.checks() == b.failures() + 1,
        b.phase() == BootPhase::Pausing ==> b.checks() == b.failures() && b.failures() >= 1,
        b.checks() <= b.failures() + 1,
{
}


/// A run of start-up: `states[i + 1]` and `actions[i]` are what a step from
/// `states[i]` on `events[i]` gives.
pub open spec fn is_run(states: Seq<Boot>, events: Seq<BootEvent>, actions: Seq<BootAction>) -> bool {
    &&& states.len() == events.len() + 1
    &&& actions.len() == events.len()
    &&& forall|i: int|
        #![trigger actions[i]]
        0 <= i < events.len() ==> step_spec(states[i], events[i], states[i + 1], actions[i])
}

/// The events of a start-up whose health checks fail with these errors, in
/// turn: the start, then for each error the failed check and the pause after
/// it.
pub open spec fn failing_events(errors: Seq<String>) -> Seq<BootEvent>
    decreases errors.len(),
{
    if errors.len() == 0 {
        seq![BootEvent::Start]
    } else {
        failing_events(errors.drop_last()) + seq![
            BootEvent::HealthFailed(errors.last()),
            BootEvent::PauseOver,
        ]
    }
}

proof fn lemma_failing_events_len(errors: Seq<String>)
    ensures
        failing_events(errors).len() == 2 * errors.len() + 1,
    decreases errors.len(),
{
    if errors.len() > 0 {
        lemma_failing_events_len(errors.drop_last());
    }
}

/// The first `n` steps of a run are a run.
proof fn lemma_run_prefix(
    states: Seq<Boot>,
    events: Seq<BootEvent>,
    actions: Seq<BootAction>,
    n: int,
)
    requires
        is_run(states, events, actions),
        0 <= n <= events.len(),
    ensures
        is_run(states.take(n + 1), events.take(n), actions.take(n)),
{
    assert forall|i: int| #![trigger actions.take(n)[i]] 0 <= i < n implies step_spec(
        states.take(n + 1)[i],
        events.take(n)[i],
        states.take(n + 1)[i + 1],
        actions.take(n)[i],
    ) by {
        assert(actions.take(n)[i] == actions[i]);
    }
}

/// While fewer than twenty health checks failed, a run of failed checks
/// ends with the next check under way: one more check asked for than
/// failed, and nothing shown or loaded on the way.
proof fn lemma_failing_run(states: Seq<Boot>, actions: Seq<BootAction>, errors: Seq<String>)
    requires
        is_run(states, failing_events(errors), actions),
        states[0].wf(),
        states[0].phase() == BootPhase::Starting,
        errors.len() < max_health_checks(),
    ensures
        states.last().phase() == BootPhase::CheckingHealth,
        states.last().failures() == errors.len(),
        states.last().checks() == errors.len() + 1,
        errors.len() > 0 ==> states.last().last_error() == errors.last()@,
        actions.last() is CheckHealth,
        forall|i: int|
            0 <= i < actions.len() ==> (#[trigger] actions[i] is CheckHealth || actions[i] is Pause),
    decreases errors.len(),
{
    lemma_failing_events_len(errors);
    let events = failing_events(errors);
    assert(step_spec(states[0], events[0], states[1], actions[0]));
    if errors.len() == 0 {
        assert(events[0] == BootEvent::Start);
    } else {
        let rest = errors.drop_last();
        let n = events.len() - 2;
        lemma_failing_events_len(rest);
        lemma_run_prefix(states, events, actions, n);
        assert(events.take(n) =~= failing_events(rest));
        lemma_failing_run(states.take(n + 1), actions.take(n), rest);
        assert(states.take(n + 1).last() == states[n]);
        assert(step_spec(states[n], events[n], states[n + 1], actions[n]));
        assert(step_spec(states[n + 1], events[n + 1], states[n + 2], actions[n + 1]));
        assert(events[n] == BootEvent::HealthFailed(errors.last()));
        assert(events[n + 1] == BootEvent::PauseOver);
        assert forall|i: int| 0 <= i < actions.len() implies (#[trigger] actions[i] is CheckHealth
            || actions[i] is Pause) by {
            if i < n {
                assert(actions.take(n)[i] == actions[i]);
            }
        }
    }
}

/// When the server never answers, start-up asks it exactly twenty times,
/// one check after each failure, and then shows the last error as the
/// reason it could not connect; it loads no profile and shows nothing
/// before that.
pub proof fn lemma_gives_up_after_twenty_failures(
    states: Seq<Boot>,
    actions: Seq<BootAction>,
    errors: Seq<String>,
)
    requires
        is_run(states, failing_events(errors), actions),
        states[0].wf(),
        states[0].phase() == BootPhase::Starting,
        errors.len() == max_health_checks(),
    ensures
        states.last().checks() == max_health_checks(),
        states.last().phase() == BootPhase::Done,
        actions.last() matches BootAction::ShowStatus { text, error } && text@ == unreachable_text(
            errors.last()@,
        ) && error,
        forall|i: int|
            0 <= i < actions.len() - 1 ==> (#[trigger] actions[i] is CheckHealth || actions[i] is Pause),
{
    let events = failing_events(errors);
    let rest = errors.drop_last();
    lemma_failing_events_len(errors);
    lemma_failing_events_len(rest);
    let n = events.len() - 2;
    lemma_run_prefix(states, events, actions, n);
    assert(events.take(n) =~= failing_events(rest));
    lemma_failing_run(states.take(n + 1), actions.take(n), rest);
    assert(states.take(n + 1).last() == states[n]);
    assert(step_spec(states[n], events[n], states[n + 1], actions[n]));
    assert(step_spec(states[n + 1], events[n + 1], states[n + 2], actions[n + 1]));
    assert(events[n] == BootEvent::HealthFailed(errors.last()));
    assert(events[n + 1] == BootEvent::PauseOver);
    assert forall|i: int| 0 <= i < actions.len() - 1 implies (#[trigger] actions[i] is CheckHealth
        || actions[i] is Pause) by {
        if i < n {
            assert(actions.take(n)[i] == actions[i]);
        }
    }
}

/// When the server first answers on a check after some failed ones (the
/// k-th check, k at most twenty), start-up has asked it exactly k times; it
/// then loads the profile when a session is stored, and otherwise shows
/// that the server is up.
pub proof fn lemma_connects_on_later_check(
    states: Seq<Boot>,
    actions: Seq<BootAction>,
    errors: Seq<String>,
    signed_in: bool,
)
    requires
        is_run(states, failing_events(errors).push(BootEvent::HealthOk { signed_in }), actions),
        states[0].wf(),
        states[0].phase() == BootPhase::Starting,
        errors.len() < max_health_checks(),
    ensures
        states.last().checks() == errors.len() + 1,
        signed_in ==> actions.last() is FetchProfile && states.last().phase()
            == BootPhase::FetchingProfile,
        !signed_in ==> states.last().phase() == BootPhase::Done && (actions.last() matches BootAction::ShowStatus {
            text,
            error,
        } && text@ == "Сервер Onix подключён"@ && !error),
{
    let events = failing_events(errors).push(BootEvent::HealthOk { signed_in });
    lemma_failing_events_len(errors);
    let n = events.len() - 1;
    lemma_run_prefix(states, events, actions, n);
    assert(events.take(n) =~= failing_events(errors));
    lemma_failing_run(states.take(n + 1), actions.take(n), errors);
    assert(states.take(n + 1).last() == states[n]);
    assert(step_spec(states[n], events[n], states[n + 1], actions[n]));
}

/// When the server answers on the k-th check (k at most twenty) and a
/// session is stored, start-up loads the profile: with it the main screen
/// opens; without it the stored session is forgotten and the login screen
/// asks for the account. The server was asked exactly k times.
pub proof fn lemma_resumes_or_forgets_session(
    states: Seq<Boot>,
    actions: Seq<BootAction>,
    errors: Seq<String>,
    loaded: bool,
)
    requires
        is_run(
            states,
            failing_events(errors).push(BootEvent::HealthOk { signed_in: true }).push(
                if loaded {
                    BootEvent::ProfileLoaded
                } else {
                    BootEvent::ProfileFailed
                },
            ),
            actions,
        ),
        states[0].wf(),
        states[0].phase() == BootPhase::Starting,
        errors.len() < max_health_checks(),
    ensures
        states.last().checks() == errors.len() + 1,
        states.last().phase() == BootPhase::Done,
        loaded ==> actions.last() is EnterApp,
        !loaded ==> (actions.last() matches BootAction::ForgetSession { text } && text@
            == "Введите данные аккаунта"@),
{
    let first = failing_events(errors).push(BootEvent::HealthOk { signed_in: true });
    let events = first.push(
        if loaded {
            BootEvent::ProfileLoaded
        } else {
            BootEvent::ProfileFailed
        },
    );
    lemma_failing_events_len(errors);
    let n = events.len() - 1;
    lemma_run_prefix(states, events, actions, n);
    assert(events.take(n) =~= first);
    lemma_connects_on_later_check(states.take(n + 1), actions.take(n), errors, true);
    assert(states.take(n + 1).last() == states[n]);
    assert(step_spec(states[n], events[n], states[n + 1], actions[n]));
}

} // verus!
