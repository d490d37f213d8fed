use vstd::prelude::*;

verus! {

/// What ends the process abnormally.
#[derive(Clone, Copy, Debug, PartialEq, Eq, Structural)]
pub enum Fatal {
    /// The window did not close when asked to.
    CloseFailed,
    /// The event loop could not start, or stopped with an error.
    RunFailed,
}

/// The diagnostic line printed before the window is asked to close.
pub fn close_notice() -> (r: &'static str)
    ensures
        r@ == "Closing application..."@,
{
    "Closing application..."
}

impl Fatal {
    /// The text the process aborts with.
    pub fn message(&self) -> (r: &'static str)
        ensures
            *self == Fatal::CloseFailed ==> r@ == "Failed to close window"@,
            *self == Fatal::RunFailed ==> r@ == "error while running tauri application"@,
    {
        match self {
            Fatal::CloseFailed => "Failed to close window",
            Fatal::RunFailed => "error while running tauri application",
        }
    }
}

/// Where the application stands in its life.
#[derive(Clone, Copy, Debug, PartialEq, Eq, Structural)]
pub enum Phase {
    /// Logging is set up and the command registered; the event loop has not begun.
    Starting,
    /// The event loop runs and the window is live.
    Running,
    /// The window was asked to close and has not answered yet.
    Closing,
    /// The window closed and the event loop ends.
    Closed,
    /// The process ends with a fatal error.
    Failed(Fatal),
}

/// What the host framework reports to the application.
#[derive(Clone, Copy, Debug, PartialEq, Eq, Structural)]
pub enum Event {
    /// The event loop is up and the window is visible.
    LoopStarted,
    /// The event loop could not start, or stopped with an error.
    LoopFailed,
    /// The embedded content invoked the close command.
    CloseInvoked,
    /// The window closed as asked.
    CloseDone,
    /// The window could not be closed.
    CloseRefused,
}

/// What the host has to do after an event.
#[derive(Clone, Copy, Debug, PartialEq, Eq, Structural)]
pub enum Action {
    /// Nothing to do.
    Nothing,
    /// Print the closing notice, then ask the window to close.
    Close,
    /// End the process at once with the error's message.
    Abort(Fatal),
}

/// The phase after an event, and the action it calls for.
#[derive(Clone, Copy, Debug, PartialEq, Eq, Structural)]
pub struct Step {
    pub next: Phase,
    pub action: Action,
}

/// A phase that no event leaves.
pub open spec fn is_terminal(p: Phase) -> bool {
    p is Closed || p is Failed
}

/// The transition table of the application's life.
pub open spec fn transition(p: Phase, e: Event) -> Step {
    match p {
        Phase::Starting => match e {
            Event::LoopStarted => Step { next: Phase::Running, action: Action::Nothing },
            Event::LoopFailed => Step {
                next: Phase::Failed(Fatal::RunFailed),
                action: Action::Abort(Fatal::RunFailed),
            },
            _ => Step { next: p, action: Action::Nothing },
        },
        Phase::Running => match e {
            Event::CloseInvoked => Step { next: Phase::Closing, action: Action::Close },
            Event::LoopFailed => Step {
                next: Phase::Failed(Fatal::RunFailed),
                action: Action::Abort(Fatal::RunFailed),
            },
            _ => Step { next: p, action: Action::Nothing },
        },
        Phase::Closing => match e {
            Event::CloseDone => Step { next: Phase::Closed, action: Action::Nothing },
            Event::CloseRefused => Step {
                next: Phase::Failed(Fatal::CloseFailed),
                action: Action::Abort(Fatal::CloseFailed),
            },
            _ => Step { next: p, action: Action::Nothing },
        },
        Phase::Closed => Step { next: p, action: Action::Nothing },
        Phase::Failed(_) => Step { next: p, action: Action::Nothing },
    }
}

/// The phase reached from `p` after the events `evs`, in order.
pub open spec fn settle(p: Phase, evs: Seq<Event>) -> Phase
    decreases evs.len(),
{
    if evs.len() == 0 {
        p
    } else {
        settle(transition(p, evs[0]).next, evs.drop_first())
    }
}

/// What is observable from outside while `evs` are handled from `p`: the
/// actions other than `Nothing`, in order.
pub open spec fn effects(p: Phase, evs: Seq<Event>) -> Seq<Action>
    decreases evs.len(),
{
    if evs.len() == 0 {
        Seq::empty()
    } else {
        let s = transition(p, evs[0]);
        let rest = effects(s.next, evs.drop_first());
        if s.action is Nothing {
            rest
        } else {
            seq![s.action] + rest
        }
    }
}

/// `k` invocations of the close command in a row.
pub open spec fn invocations(k: nat) -> Seq<Event> {
    Seq::new(k, |i: int| Event::CloseInvoked)
}

/// What the window can answer when asked to close.
pub open spec fn is_close_answer(e: Event) -> bool {
    e is CloseDone || e is CloseRefused
}

proof fn lemma_terminal_absorbs(p: Phase, evs: Seq<Event>)
    requires
        is_terminal(p),
    ensures
        settle(p, evs) == p,
        effects(p, evs) == Seq::<Action>::empty(),
    decreases evs.len(),
{
    if evs.len() > 0 {
        lemma_terminal_absorbs(p, evs.drop_first());
    }
}

proof fn lemma_one_event(p: Phase, e: Event)
    ensures
        settle(p, seq![e]) == transition(p, e).next,
        transition(p, e).action is Nothing ==> effects(p, seq![e]) == Seq::<Action>::empty(),
        !(transition(p, e).action is Nothing) ==> effects(p, seq![e]) == seq![
            transition(p, e).action,
        ],
{
    let evs = seq![e];
    assert(evs.drop_first() =~= Seq::<Event>::empty());
    assert(settle(transition(p, e).next, Seq::<Event>::empty()) == transition(p, e).next);
    assert(effects(transition(p, e).next, Seq::<Event>::empty()) == Seq::<Action>::empty());
    assert(evs[0] == e);
    assert(seq![transition(p, e).action] + Seq::<Action>::empty() =~= seq![
        transition(p, e).action,
    ]);
}

proof fn lemma_settle_concat(p: Phase, a: Seq<Event>, b: Seq<Event>)
    ensures
        settle(p, a + b) == settle(settle(p, a), b),
        effects(p, a + b) == effects(p, a) + effects(settle(p, a), b),
    decreases a.len(),
{
    if a.len() == 0 {
        assert(a + b =~= b);
        assert(effects(p, a) + effects(p, b) =~= effects(p, b));
    } else {
        let s = transition(p, a[0]);
        assert((a + b).drop_first() =~= a.drop_first() + b);
        lemma_settle_concat(s.next, a.drop_first(), b);
        if !(s.action is Nothing) {
            assert(seq![s.action] + (effects(s.next, a.drop_first()) + effects(
                settle(s.next, a.drop_first()),
                b,
            )) =~= (seq![s.action] + effects(s.next, a.drop_first())) + effects(
                settle(s.next, a.drop_first()),
                b,
            ));
        }
    }
}

proof fn lemma_closing_ignores_invocations(k: nat)
    ensures
        settle(Phase::Closing, invocations(k)) == Phase::Closing,
        effects(Phase::Closing, invocations(k)) == Seq::<Action>::empty(),
    decreases k,
{
    if k > 0 {
        assert(invocations(k).drop_first() =~= invocations((k - 1) as nat));
        lemma_closing_ignores_invocations((k - 1) as nat);
    }
}

/// Once the close command is invoked on a live window and the window answers,
/// the window is closed or the process ends with a fatal error: the phase is
/// terminal, and it is `Closed` exactly when the window closed.
pub proof fn close_settles(answer: Event)
    requires
        is_close_answer(answer),
    ensures
        is_terminal(settle(Phase::Running, seq![Event::CloseInvoked, answer])),
        answer is CloseDone ==> settle(Phase::Running, seq![Event::CloseInvoked, answer])
            == Phase::Closed,
        answer is CloseRefused ==> settle(Phase::Running, seq![Event::CloseInvoked, answer])
            == Phase::Failed(Fatal::CloseFailed),
        answer is CloseDone ==> effects(Phase::Running, seq![Event::CloseInvoked, answer])
            == seq![Action::Close],
        answer is CloseRefused ==> effects(Phase::Running, seq![Event::CloseInvoked, answer])
            == seq![Action::Close, Action::Abort(Fatal::CloseFailed)],
{
    assert(seq![Event::CloseInvoked, answer] =~= seq![Event::CloseInvoked] + seq![answer]);
    lemma_settle_concat(Phase::Running, seq![Event::CloseInvoked], seq![answer]);
    lemma_one_event(Phase::Running, Event::CloseInvoked);
    lemma_one_event(Phase::Closing, answer);
    assert(seq![Action::Close] + seq![Action::Abort(Fatal::CloseFailed)] =~= seq![
        Action::Close,
        Action::Abort(Fatal::CloseFailed),
    ]);
    assert(seq![Action::Close] + Seq::<Action>::empty() =~= seq![Action::Close]);
}

/// Starting the application ends either with a running event loop or with a
/// fatal error; no other phase follows the framework's answer.
pub proof fn startup_settles(answer: Event)
    requires
        answer is LoopStarted || answer is LoopFailed,
    ensures
        transition(Phase::Starting, answer).next is Running || transition(
            Phase::Starting,
            answer,
        ).next is Failed,
        answer is LoopStarted ==> transition(Phase::Starting, answer) == (Step {
            next: Phase::Running,
            action: Action::Nothing,
        }),
        answer is LoopFailed ==> transition(Phase::Starting, answer) == (Step {
            next: Phase::Failed(Fatal::RunFailed),
            action: Action::Abort(Fatal::RunFailed),
        }),
{
}

/// Invoking the close command any number of times, however the window answers
/// and whatever follows, has the same phase and the same observable effects as
/// a single invocation and the window's answer.
pub proof fn repeated_close_is_single(k: nat, answer: Event, rest: Seq<Event>)
    requires
        k >= 1,
        is_close_answer(answer),
    ensures
        settle(Phase::Running, invocations(k) + seq![answer] + rest) == settle(
            Phase::Running,
            seq![Event::CloseInvoked, answer],
        ),
        effects(Phase::Running, invocations(k) + seq![answer] + rest) == effects(
            Phase::Running,
            seq![Event::CloseInvoked, answer],
        ),
{
    let single = seq![Event::CloseInvoked, answer];
    let first = seq![Event::CloseInvoked];
    let more = invocations((k - 1) as nat);
    assert(invocations(k) =~= first + more);
    assert(invocations(k) + seq![answer] + rest =~= first + (more + (seq![answer] + rest)));
    assert(single =~= first + seq![answer]);
    assert(first.drop_first() =~= Seq::<Event>::empty());
    lemma_settle_concat(Phase::Running, first, more + (seq![answer] + rest));
    lemma_settle_concat(Phase::Closing, more, seq![answer] + rest);
    lemma_closing_ignores_invocations((k - 1) as nat);
    lemma_settle_concat(Phase::Closing, seq![answer], rest);
    lemma_settle_concat(Phase::Running, first, seq![answer]);
    lemma_one_event(Phase::Running, Event::CloseInvoked);
    lemma_one_event(Phase::Closing, answer);
    let after = settle(Phase::Closing, seq![answer]);
    lemma_terminal_absorbs(after, rest);
    assert(effects(Phase::Closing, seq![answer]) + Seq::<Action>::empty() =~= effects(
        Phase::Closing,
        seq![answer],
    ));
    assert(Seq::<Action>::empty() + effects(Phase::Closing, seq![answer]) =~= effects(
        Phase::Closing,
        seq![answer],
    ));
}

/// Decides the next phase and the action to take when `e` arrives in `p`.
pub fn step(p: Phase, e: Event) -> (r: Step)
    ensures
        r == transition(p, e),
{
    let stay = Step { next: p, action: Action::Nothing };
    match p {
        Phase::Starting => match e {
            Event::LoopStarted => Step { next: Phase::Running, action: Action::Nothing },
            Event::LoopFailed => Step {
                next: Phase::Failed(Fatal::RunFailed),
                action: Action::Abort(Fatal::RunFailed),
            },
            _ => stay,
        },
        Phase::Running => match e {
            Event::CloseInvoked => Step { next: Phase::Closing, action: Action::Close },
            Event::LoopFailed => Step {
                next: Phase::Failed(Fatal::RunFailed),
                action: Action::Abort(Fatal::RunFailed),
            },
            _ => stay,
        },
        Phase::Closing => match e {
            Event::CloseDone => Step { next: Phase::Closed, action: Action::Nothing },
            Event::CloseRefused => Step {
                next: Phase::Failed(Fatal::CloseFailed),
                action: Action::Abort(Fatal::CloseFailed),
            },
            _ => stay,
        },
        Phase::Closed => stay,
        Phase::Failed(_) => stay,
    }
}

} // verus!
