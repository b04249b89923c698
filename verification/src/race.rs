//! The single-winner race between a channel's validated result, the timeout and
//! the cancellation signal.

use vstd::prelude::*;

verus! {

/// How a race ended.
#[derive(Debug, Clone, PartialEq, Eq)]
pub enum RaceOutcome<T> {
    /// The channel produced a validated result before anything else happened.
    Resolved(T),
    /// The timeout elapsed first.
    TimedOut,
    /// The cancellation signal fired first.
    Cancelled,
}

/// Why a flow has no result.
#[derive(Debug, Clone, Copy, PartialEq, Eq, Structural)]
pub enum RaceError {
    /// No valid matching callback arrived within the configured window.
    Timeout,
    /// The user closed the browser while the flow was waiting.
    Cancelled,
    /// The channel could not be set up, so no race was run.
    ChannelFailure,
}

impl RaceError {
    /// The sentence that tells the user why the flow has no result.
    pub open spec fn message_text(self) -> Seq<char> {
        match self {
            RaceError::Timeout => "No requests with required data. Timeout."@,
            RaceError::Cancelled => "The user closed the browser"@,
            RaceError::ChannelFailure => "The callback channel could not be set up"@,
        }
    }

    /// Writes the sentence that tells the user why the flow has no result.
    pub fn message(&self) -> (message: String)
        ensures
            message@ == self.message_text(),
    {
        match self {
            RaceError::Timeout => "No requests with required data. Timeout.".to_owned(),
            RaceError::Cancelled => "The user closed the browser".to_owned(),
            RaceError::ChannelFailure => "The callback channel could not be set up".to_owned(),
        }
    }
}

/// One thing that happens while a race is running, in order of arrival.
#[derive(Debug, Clone, PartialEq, Eq)]
pub enum RaceEvent<T> {
    /// The channel finished with one request: `Some` carries the validated
    /// result of a callback that belongs to the flow, `None` stands for a
    /// request that was ignored.
    Callback(Option<T>),
    /// The timer ran out.
    TimerElapsed,
    /// The cancellation signal fired.
    CancelSignal,
}

/// What a single event decides in a race that is still open, if anything. A
/// race that was started without a cancellation signal ignores that signal.
pub open spec fn decides<T>(cancellable: bool, event: RaceEvent<T>) -> Option<RaceOutcome<T>> {
    match event {
        RaceEvent::Callback(Some(value)) => Some(RaceOutcome::Resolved(value)),
        RaceEvent::Callback(None) => None,
        RaceEvent::TimerElapsed => Some(RaceOutcome::TimedOut),
        RaceEvent::CancelSignal => if cancellable {
            Some(RaceOutcome::Cancelled)
        } else {
            None
        },
    }
}

/// The outcome of a race over `events`: whatever the first deciding event
/// decides, or `None` while no event has decided.
pub open spec fn race_outcome<T>(cancellable: bool, events: Seq<RaceEvent<T>>) -> Option<
    RaceOutcome<T>,
>
    decreases events.len(),
{
    if events.len() == 0 {
        None
    } else {
        match decides(cancellable, events[0]) {
            Some(outcome) => Some(outcome),
            None => race_outcome(cancellable, events.drop_first()),
        }
    }
}

/// What the caller of a flow gets for an outcome.
pub open spec fn outcome_result<T>(outcome: RaceOutcome<T>) -> Result<T, RaceError> {
    match outcome {
        RaceOutcome::Resolved(value) => Ok(value),
        RaceOutcome::TimedOut => Err(RaceError::Timeout),
        RaceOutcome::Cancelled => Err(RaceError::Cancelled),
    }
}

impl<T> RaceOutcome<T> {
    /// Turns the outcome into the result that the flow returns.
    pub fn into_result(self) -> (result: Result<T, RaceError>)
        ensures
            result == outcome_result(self),
    {
        match self {
            RaceOutcome::Resolved(value) => Ok(value),
            RaceOutcome::TimedOut => Err(RaceError::Timeout),
            RaceOutcome::Cancelled => Err(RaceError::Cancelled),
        }
    }
}

/// A race in progress. It starts open, is decided by at most one event, and
/// keeps its outcome from then on.
pub struct RedirectRace<T> {
    cancellable: bool,
    outcome: Option<RaceOutcome<T>>,
}

impl<T> RedirectRace<T> {
    /// Whether the race listens to the cancellation signal.
    pub closed spec fn cancellable(&self) -> bool {
        self.cancellable
    }

    /// The outcome so far: `None` while the race is open.
    pub closed spec fn outcome(&self) -> Option<RaceOutcome<T>> {
        self.outcome
    }

    /// Opens a race.
    pub fn new(cancellable: bool) -> (race: RedirectRace<T>)
        ensures
            race.cancellable() == cancellable,
            race.outcome() is None,
    {
        RedirectRace { cancellable, outcome: None }
    }

    /// Whether nothing has decided the race yet.
    pub fn is_pending(&self) -> (pending: bool)
        ensures
            pending == (self.outcome() is None),
    {
        self.outcome.is_none()
    }

    /// Feeds the next event to the race. An open race takes what the event
    /// decides; a decided race is left exactly as it was.
    pub fn step(&mut self, event: RaceEvent<T>)
        ensures
            final(self).cancellable() == old(self).cancellable(),
            final(self).outcome() == match old(self).outcome() {
                Some(outcome) => Some(outcome),
                None => decides(old(self).cancellable(), event),
            },
    {
        if self.outcome.is_none() {
            match event {
                RaceEvent::Callback(Some(value)) => {
                    self.outcome = Some(RaceOutcome::Resolved(value));
                },
                RaceEvent::Callback(None) => {},
                RaceEvent::TimerElapsed => {
                    self.outcome = Some(RaceOutcome::TimedOut);
                },
                RaceEvent::CancelSignal => {
                    if self.cancellable {
                        self.outcome = Some(RaceOutcome::Cancelled);
                    }
                },
            }
        }
    }

    /// Ends the race and hands out its result, `None` if nothing had decided it.
    pub fn conclude(self) -> (result: Option<Result<T, RaceError>>)
        ensures
            result == match self.outcome() {
                Some(outcome) => Some(outcome_result(outcome)),
                None => None,
            },
    {
        match self.outcome {
            Some(outcome) => Some(outcome.into_result()),
            None => None,
        }
    }
}

/// Runs a whole race over events given in order of arrival.
pub fn race<T>(cancellable: bool, events: Vec<RaceEvent<T>>) -> (result: Option<
    Result<T, RaceError>,
>)
    ensures
        result == match race_outcome(cancellable, events@) {
            Some(outcome) => Some(outcome_result(outcome)),
            None => None,
        },
{
    let mut state: RedirectRace<T> = RedirectRace::new(cancellable);
    let mut events = events;
    let ghost all = events@;
    let ghost mut fed: Seq<RaceEvent<T>> = Seq::empty();
    let mut rest: Vec<RaceEvent<T>> = Vec::new();
    // Events are taken from the back, so turn the order round first.
    while events.len() > 0
        invariant
            all =~= events@ + rest@.reverse(),
        decreases events.len(),
    {
        let event = events.pop().unwrap();
        rest.push(event);
    }
    proof {
        assert(rest@.reverse() =~= all);
    }
    while rest.len() > 0
        invariant
            state.cancellable() == cancellable,
            all =~= fed + rest@.reverse(),
            state.outcome() == race_outcome(cancellable, fed),
        decreases rest.len(),
    {
        let event = rest.pop().unwrap();
        proof {
            lemma_race_outcome_push(cancellable, fed, event);
            fed = fed.push(event);
        }
        state.step(event);
    }
    proof {
        assert(fed =~= all);
    }
    state.conclude()
}

/// One more event at the end changes the outcome only of a race that was
/// still open.
pub proof fn lemma_race_outcome_push<T>(cancellable: bool, events: Seq<RaceEvent<T>>, event: RaceEvent<T>)
    ensures
        race_outcome(cancellable, events.push(event)) == match race_outcome(cancellable, events) {
            Some(outcome) => Some(outcome),
            None => decides(cancellable, event),
        },
    decreases events.len(),
{
    let longer = events.push(event);
    if events.len() == 0 {
        assert(longer.drop_first() =~= Seq::<RaceEvent<T>>::empty());
    } else {
        assert(longer[0] == events[0]);
        assert(longer.drop_first() =~= events.drop_first().push(event));
        lemma_race_outcome_push(cancellable, events.drop_first(), event);
    }
}

/// Whether no event of `events` is a callback with a validated result.
pub open spec fn no_valid_callback<T>(events: Seq<RaceEvent<T>>) -> bool {
    forall|i: int| 0 <= i < events.len() ==> !(#[trigger] events[i] matches RaceEvent::Callback(Some(_)))
}

/// Whether every event of `events` is a request that the channel ignored.
pub open spec fn only_ignored_requests<T>(events: Seq<RaceEvent<T>>) -> bool {
    forall|i: int| 0 <= i < events.len() ==> #[trigger] events[i] == RaceEvent::<T>::Callback(None)
}

/// A race over two stretches of events is decided in the first stretch if
/// anything there decides it, and otherwise as the second stretch alone would
/// decide it.
pub proof fn lemma_race_outcome_concat<T>(
    cancellable: bool,
    first: Seq<RaceEvent<T>>,
    second: Seq<RaceEvent<T>>,
)
    ensures
        race_outcome(cancellable, first + second) == match race_outcome(cancellable, first) {
            Some(outcome) => Some(outcome),
            None => race_outcome(cancellable, second),
        },
    decreases first.len(),
{
    if first.len() == 0 {
        assert(first + second =~= second);
    } else {
        assert((first + second)[0] == first[0]);
        assert((first + second).drop_first() =~= first.drop_first() + second);
        lemma_race_outcome_concat(cancellable, first.drop_first(), second);
    }
}

/// Requests that the channel ignores never decide a race, however many arrive.
pub proof fn law_ignored_requests_decide_nothing<T>(cancellable: bool, events: Seq<RaceEvent<T>>)
    requires
        only_ignored_requests(events),
    ensures
        race_outcome(cancellable, events) is None,
    decreases events.len(),
{
    if events.len() > 0 {
        assert(events[0] == RaceEvent::<T>::Callback(None));
        assert forall|i: int| 0 <= i < events.drop_first().len() implies #[trigger] events.drop_first()[i]
            == RaceEvent::<T>::Callback(None) by {
            assert(events.drop_first()[i] == events[i + 1]);
        }
        law_ignored_requests_decide_nothing(cancellable, events.drop_first());
    }
}

/// The first validated callback of an open race resolves it with its value, and
/// nothing that arrives afterwards, a second identical callback included, has
/// any effect on the outcome.
pub proof fn law_exact_match_resolves_once<T>(
    cancellable: bool,
    before: Seq<RaceEvent<T>>,
    value: T,
    after: Seq<RaceEvent<T>>,
)
    requires
        race_outcome(cancellable, before) is None,
    ensures
        race_outcome(cancellable, before.push(RaceEvent::Callback(Some(value))) + after) == Some(
            RaceOutcome::Resolved(value),
        ),
        race_outcome(cancellable, before.push(RaceEvent::Callback(Some(value))) + after)
            == race_outcome(cancellable, before.push(RaceEvent::Callback(Some(value)))),
{
    let event = RaceEvent::Callback(Some(value));
    lemma_race_outcome_push(cancellable, before, event);
    lemma_race_outcome_concat(cancellable, before.push(event), after);
}

/// When the timer runs out on an open race the outcome is `TimedOut`, whatever
/// arrives later.
pub proof fn law_timeout_ends_open_race<T>(
    cancellable: bool,
    before: Seq<RaceEvent<T>>,
    after: Seq<RaceEvent<T>>,
)
    requires
        race_outcome(cancellable, before) is None,
    ensures
        race_outcome(cancellable, before.push(RaceEvent::TimerElapsed) + after) == Some(
            RaceOutcome::<T>::TimedOut,
        ),
{
    lemma_race_outcome_push(cancellable, before, RaceEvent::<T>::TimerElapsed);
    lemma_race_outcome_concat(cancellable, before.push(RaceEvent::TimerElapsed), after);
}

/// When the cancellation signal fires on an open race that listens to it, the
/// outcome is `Cancelled` and not `TimedOut`, however late the timer would have
/// run out.
pub proof fn law_cancellation_preempts_timeout<T>(
    before: Seq<RaceEvent<T>>,
    after: Seq<RaceEvent<T>>,
)
    requires
        race_outcome(true, before) is None,
    ensures
        race_outcome(true, before.push(RaceEvent::CancelSignal) + after) == Some(
            RaceOutcome::<T>::Cancelled,
        ),
{
    lemma_race_outcome_push(true, before, RaceEvent::<T>::CancelSignal);
    lemma_race_outcome_concat(true, before.push(RaceEvent::CancelSignal), after);
}

/// A race in which no callback is validated never resolves: it stays open, or
/// times out, or is cancelled.
pub proof fn law_without_valid_callback_never_resolved<T>(
    cancellable: bool,
    events: Seq<RaceEvent<T>>,
)
    requires
        no_valid_callback(events),
    ensures
        !(race_outcome(cancellable, events) matches Some(RaceOutcome::Resolved(_))),
    decreases events.len(),
{
    if events.len() > 0 {
        assert(!(events[0] matches RaceEvent::Callback(Some(_))));
        assert forall|i: int| 0 <= i < events.drop_first().len() implies !(
        #[trigger] events.drop_first()[i] matches RaceEvent::Callback(Some(_))) by {
            assert(events.drop_first()[i] == events[i + 1]);
        }
        law_without_valid_callback_never_resolved(cancellable, events.drop_first());
    }
}

/// A race without a cancellation signal in which no callback is validated can
/// only conclude by timeout.
pub proof fn law_rejected_callbacks_leave_only_timeout<T>(events: Seq<RaceEvent<T>>)
    requires
        no_valid_callback(events),
    ensures
        race_outcome(false, events) is None || race_outcome(false, events) == Some(
            RaceOutcome::<T>::TimedOut,
        ),
    decreases events.len(),
{
    if events.len() > 0 {
        assert(!(events[0] matches RaceEvent::Callback(Some(_))));
        assert forall|i: int| 0 <= i < events.drop_first().len() implies !(
        #[trigger] events.drop_first()[i] matches RaceEvent::Callback(Some(_))) by {
            assert(events.drop_first()[i] == events[i + 1]);
        }
        law_rejected_callbacks_leave_only_timeout(events.drop_first());
    }
}

} // verus!
