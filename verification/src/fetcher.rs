//! Reading a task that may not be visible yet.
//!
//! Right after a submission the agent may not have stored the task. The
//! page that shows a task therefore fetches it a few times, with a pause
//! between two attempts, and shows an empty conversation if the task never
//! appears. A failed fetch is never an error here: a task that does not
//! exist and a task that is not visible yet look the same.
//!
//! The caller makes each fetch and reports the answer to
//! [`RetryFetcher::record`], which says whether to pause and fetch again or
//! what to show.

use vstd::prelude::*;

verus! {

/// How often a task is fetched before the page gives up.
pub const MAX_FETCH_ATTEMPTS: u32 = 3;

/// The pause between two attempts, in milliseconds.
pub const RETRY_DELAY_MILLIS: u64 = 200;

/// How often to fetch and how long to pause in between. A policy of no
/// attempts is taken as a policy of one: the first fetch is always made.
#[derive(Clone, Copy, Debug, PartialEq, Eq, Structural)]
pub struct RetryPolicy {
    pub max_attempts: u32,
    pub delay_millis: u64,
}

/// What the agent answered to one fetch. `M` is the type of a message of the
/// history, which is handed on untouched.
#[derive(Debug, PartialEq, Eq)]
pub enum FetchOutcome<M> {
    /// The task, with the name of its state and its history, if it has one.
    Found { history: Option<Vec<M>>, state: String },
    /// The fetch failed.
    NotVisible,
}

/// Mathematical value of a [`FetchOutcome`].
pub enum FetchOutcomeView<M> {
    Found { history: Option<Seq<M>>, state: Seq<char> },
    NotVisible,
}

impl<M> View for FetchOutcome<M> {
    type V = FetchOutcomeView<M>;

    open spec fn view(&self) -> FetchOutcomeView<M> {
        match self {
            FetchOutcome::Found { history, state } => FetchOutcomeView::Found {
                history: match history {
                    Some(messages) => Some(messages@),
                    None => None,
                },
                state: state@,
            },
            FetchOutcome::NotVisible => FetchOutcomeView::NotVisible,
        }
    }
}

/// What the page of a task shows: the messages so far and the name of the
/// state of the task, if the task was found.
#[derive(Debug, PartialEq, Eq)]
pub struct Conversation<M> {
    pub messages: Vec<M>,
    pub state: Option<String>,
}

/// Mathematical value of a [`Conversation`].
pub struct ConversationView<M> {
    pub messages: Seq<M>,
    pub state: Option<Seq<char>>,
}

impl<M> View for Conversation<M> {
    type V = ConversationView<M>;

    open spec fn view(&self) -> ConversationView<M> {
        ConversationView { messages: self.messages@, state: self.state.deep_view() }
    }
}

/// What to do after a fetch.
#[derive(Debug, PartialEq, Eq)]
pub enum FetchStep<M> {
    /// Pause for so many milliseconds, then fetch again.
    RetryAfter { millis: u64 },
    /// Stop fetching and show this.
    Done(Conversation<M>),
}

/// Mathematical value of a [`FetchStep`].
pub enum FetchStepView<M> {
    RetryAfter { millis: u64 },
    Done(ConversationView<M>),
}

impl<M> View for FetchStep<M> {
    type V = FetchStepView<M>;

    open spec fn view(&self) -> FetchStepView<M> {
        match self {
            FetchStep::RetryAfter { millis } => FetchStepView::RetryAfter { millis: *millis },
            FetchStep::Done(conversation) => FetchStepView::Done(conversation@),
        }
    }
}

/// The conversation of a task that was never found: no messages, no state.
pub open spec fn nothing_yet<M>() -> ConversationView<M> {
    ConversationView { messages: Seq::empty(), state: None }
}

/// The conversation of a task that was found: its history, or no messages
/// if it has none, and the name of its state.
pub open spec fn found_conversation<M>(
    history: Option<Seq<M>>,
    state: Seq<char>,
) -> ConversationView<M> {
    ConversationView {
        messages: match history {
            Some(messages) => messages,
            None => Seq::empty(),
        },
        state: Some(state),
    }
}

/// The state of a fetcher: the attempts it may still make, the one under way
/// included, and the pause between two of them.
pub struct FetcherView {
    pub attempts_left: nat,
    pub delay_millis: u64,
}

/// How a fetcher goes on after an answer: the state it is in then, and what
/// it asks for. A found task ends the fetching at once. A failed fetch is
/// followed by a pause and another attempt as long as one is left;
/// after the last one the empty conversation is shown.
pub open spec fn step<M>(fetcher: FetcherView, answer: FetchOutcomeView<M>) -> (
    FetcherView,
    FetchStepView<M>,
) {
    match answer {
        FetchOutcomeView::Found { history, state } => (
            fetcher,
            FetchStepView::Done(found_conversation(history, state)),
        ),
        FetchOutcomeView::NotVisible => if fetcher.attempts_left <= 1 {
            (fetcher, FetchStepView::Done(nothing_yet()))
        } else {
            (
                FetcherView { attempts_left: (fetcher.attempts_left - 1) as nat, ..fetcher },
                FetchStepView::RetryAfter { millis: fetcher.delay_millis },
            )
        },
    }
}

/// Counts the attempts of one read of a task.
#[derive(Debug, PartialEq, Eq)]
pub struct RetryFetcher {
    attempts_left: u32,
    delay_millis: u64,
}

impl View for RetryFetcher {
    type V = FetcherView;

    closed spec fn view(&self) -> FetcherView {
        FetcherView { attempts_left: self.attempts_left as nat, delay_millis: self.delay_millis }
    }
}

impl RetryPolicy {
    /// Three attempts, a fifth of a second apart.
    pub fn standard() -> (policy: RetryPolicy)
        ensures
            policy == (RetryPolicy {
                max_attempts: MAX_FETCH_ATTEMPTS,
                delay_millis: RETRY_DELAY_MILLIS,
            }),
    {
        RetryPolicy { max_attempts: MAX_FETCH_ATTEMPTS, delay_millis: RETRY_DELAY_MILLIS }
    }

    /// The state of a fetcher that starts under this policy.
    pub open spec fn initial(self) -> FetcherView {
        FetcherView { attempts_left: self.max_attempts as nat, delay_millis: self.delay_millis }
    }
}

impl RetryFetcher {
    /// A fetcher that has made no attempt yet.
    pub fn new(policy: RetryPolicy) -> (fetcher: RetryFetcher)
        ensures
            fetcher@ == policy.initial(),
    {
        RetryFetcher { attempts_left: policy.max_attempts, delay_millis: policy.delay_millis }
    }

    /// How many attempts the fetcher may still make, the one under way
    /// included.
    pub fn attempts_left(&self) -> (left: u32)
        ensures
            left == self@.attempts_left,
    {
        self.attempts_left
    }

    /// Takes the answer to the fetch just made and says how to go on.
    pub fn record<M>(&mut self, answer: FetchOutcome<M>) -> (next: FetchStep<M>)
        ensures
            final(self)@ == step(old(self)@, answer@).0,
            next@ == step(old(self)@, answer@).1,
    {
        match answer {
            FetchOutcome::Found { history, state } => {
                let messages = match history {
                    Some(messages) => messages,
                    None => Vec::new(),
                };
                FetchStep::Done(Conversation { messages, state: Some(state) })
            },
            FetchOutcome::NotVisible => {
                if self.attempts_left <= 1 {
                    FetchStep::Done(Conversation { messages: Vec::new(), state: None })
                } else {
                    self.attempts_left = self.attempts_left - 1;
                    FetchStep::RetryAfter { millis: self.delay_millis }
                }
            },
        }
    }
}

/// The course of one read of a task.
pub struct FetchRun<M> {
    /// How many fetches were made.
    pub attempts: nat,
    /// How long the read paused in all, in milliseconds.
    pub paused_millis: nat,
    /// What is shown; nothing if the read is still under way.
    pub shown: Option<ConversationView<M>>,
}

/// The course of a read by `fetcher` when the agent answers the first fetch
/// with `answers[0]`, the second with `answers[1]`, and so on. No fetch is
/// made after the one whose answer ends the read.
pub open spec fn run<M>(fetcher: FetcherView, answers: Seq<FetchOutcomeView<M>>) -> FetchRun<M>
    decreases answers.len(),
{
    if answers.len() == 0 {
        FetchRun { attempts: 0, paused_millis: 0, shown: None }
    } else {
        match step(fetcher, answers[0]) {
            (_, FetchStepView::Done(conversation)) => FetchRun {
                attempts: 1,
                paused_millis: 0,
                shown: Some(conversation),
            },
            (waiting, FetchStepView::RetryAfter { millis }) => {
                let rest = run(waiting, answers.drop_first());
                FetchRun {
                    attempts: rest.attempts + 1,
                    paused_millis: rest.paused_millis + millis as nat,
                    shown: rest.shown,
                }
            },
        }
    }
}

/// The number of fetches that a policy allows: at least one.
pub open spec fn allowed_attempts(fetcher: FetcherView) -> nat {
    if fetcher.attempts_left == 0 {
        1
    } else {
        fetcher.attempts_left
    }
}

/// Bounded: whatever the agent answers, a read ends within the attempts
/// that the policy allows, with something to show.
pub proof fn lemma_read_ends_within_budget<M>(
    fetcher: FetcherView,
    answers: Seq<FetchOutcomeView<M>>,
)
    requires
        answers.len() >= allowed_attempts(fetcher),
    ensures
        1 <= run(fetcher, answers).attempts <= allowed_attempts(fetcher),
        run(fetcher, answers).shown is Some,
    decreases answers.len(),
{
    if answers[0] is NotVisible && fetcher.attempts_left > 1 {
        lemma_read_ends_within_budget(step(fetcher, answers[0]).0, answers.drop_first());
    }
}

/// Giving up: when every fetch fails, the read makes exactly as many fetches
/// as the policy allows, pauses between any two of them, and shows the
/// empty conversation.
pub proof fn lemma_never_visible<M>(fetcher: FetcherView, answers: Seq<FetchOutcomeView<M>>)
    requires
        answers.len() >= allowed_attempts(fetcher),
        forall|i: int| 0 <= i < allowed_attempts(fetcher) ==> #[trigger] answers[i] is NotVisible,
    ensures
        run(fetcher, answers).attempts == allowed_attempts(fetcher),
        run(fetcher, answers).paused_millis == (allowed_attempts(fetcher) - 1)
            * fetcher.delay_millis,
        run(fetcher, answers).shown == Some(nothing_yet::<M>()),
    decreases answers.len(),
{
    assert(answers[0] is NotVisible);
    let allowed = allowed_attempts(fetcher) as int;
    let delay = fetcher.delay_millis as int;
    if fetcher.attempts_left > 1 {
        let waiting = step(fetcher, answers[0]).0;
        let rest = answers.drop_first();
        assert(allowed_attempts(waiting) == allowed - 1);
        assert forall|i: int| 0 <= i < allowed_attempts(waiting) implies #[trigger] rest[i]
            is NotVisible by {
            assert(rest[i] == answers[i + 1]);
        }
        lemma_never_visible(waiting, rest);
        assert(run(fetcher, answers).paused_millis == run(waiting, rest).paused_millis + delay);
        assert((allowed - 1) * delay == (allowed - 2) * delay + delay) by (nonlinear_arith);
    } else {
        assert(allowed == 1);
        assert(run(fetcher, answers).paused_millis == 0);
        assert((allowed - 1) * delay == 0) by (nonlinear_arith)
            requires
                allowed == 1,
        ;
    }
}

/// Stopping early: when the fetch number `first + 1` is the first to find
/// the task, and the policy allows that many, the read makes exactly that
/// many fetches and shows what that fetch found.
pub proof fn lemma_found_ends_read<M>(
    fetcher: FetcherView,
    answers: Seq<FetchOutcomeView<M>>,
    first: int,
)
    requires
        0 <= first < answers.len(),
        first < allowed_attempts(fetcher),
        answers[first] is Found,
        forall|i: int| 0 <= i < first ==> #[trigger] answers[i] is NotVisible,
    ensures
        run(fetcher, answers).attempts == first + 1,
        run(fetcher, answers).paused_millis == first * fetcher.delay_millis,
        run(fetcher, answers).shown == Some(
            found_conversation(answers[first]->history, answers[first]->state),
        ),
    decreases answers.len(),
{
    if first > 0 {
        assert(answers[0] is NotVisible);
        let waiting = step(fetcher, answers[0]).0;
        let rest = answers.drop_first();
        assert(rest[first - 1] == answers[first]);
        assert forall|i: int| 0 <= i < first - 1 implies #[trigger] rest[i] is NotVisible by {
            assert(rest[i] == answers[i + 1]);
        }
        lemma_found_ends_read(waiting, rest, first - 1);
        assert(first * fetcher.delay_millis == (first - 1) * fetcher.delay_millis
            + fetcher.delay_millis) by (nonlinear_arith);
    }
}

/// Under the standard policy a task that never appears is fetched three
/// times, with two pauses of a fifth of a second, before the empty
/// conversation is shown.
pub proof fn lemma_standard_gives_up_after_three<M>(answers: Seq<FetchOutcomeView<M>>)
    requires
        answers.len() >= 3,
        answers[0] is NotVisible,
        answers[1] is NotVisible,
        answers[2] is NotVisible,
    ensures
        ({
            let start = FetcherView { attempts_left: 3, delay_millis: 200 };
            &&& run(start, answers).attempts == 3
            &&& run(start, answers).paused_millis == 400
            &&& run(start, answers).shown == Some(nothing_yet::<M>())
        }),
{
    let start = FetcherView { attempts_left: 3, delay_millis: 200 };
    lemma_never_visible(start, answers);
}

/// Under the standard policy a task that appears at the second fetch is
/// shown as that fetch found it, and no third fetch is made.
pub proof fn lemma_standard_stops_at_second<M>(answers: Seq<FetchOutcomeView<M>>)
    requires
        answers.len() >= 2,
        answers[0] is NotVisible,
        answers[1] is Found,
    ensures
        ({
            let start = FetcherView { attempts_left: 3, delay_millis: 200 };
            &&& run(start, answers).attempts == 2
            &&& run(start, answers).paused_millis == 200
            &&& run(start, answers).shown == Some(
                found_conversation(answers[1]->history, answers[1]->state),
            )
        }),
{
    let start = FetcherView { attempts_left: 3, delay_millis: 200 };
    lemma_found_ends_read(start, answers, 1);
}

} // verus!
