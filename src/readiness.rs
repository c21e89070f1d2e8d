use vstd::prelude::*;

use crate::numtext::{decimal, u32_to_string};

verus! {

/// Why a readiness wait did not end in the awaited condition.
#[derive(Debug)]
pub enum WaitError {
    /// The change-notification stream ended before the condition was observed.
    /// Carries the bound of the wait, in seconds.
    Timeout { waited_secs: u32 },
    /// The platform's transport failed; carries the reported cause.
    Platform(String),
}

/// Where a readiness wait stands.
pub enum WaitPhase {
    /// The current state of the resource is being read once (fast path).
    Checking,
    /// A bounded change-notification subscription is being opened.
    Subscribing,
    /// Notifications are being consumed.
    Watching,
    /// The condition holds: the wait resolved successfully.
    Ready,
    /// The subscription ended without the condition.
    TimedOut,
    /// The transport failed with the given cause.
    Failed(String),
}

/// What the driver of a wait reports back after performing an action.
pub enum WaitEvent {
    /// Outcome of the fast-path check: whether the condition already holds.
    CurrentState(bool),
    /// The subscription was opened.
    Subscribed,
    /// A modification notification arrived; carries whether it satisfies the condition.
    Notification(bool),
    /// The subscription ended (deadline elapsed or closed by the platform).
    StreamEnded,
    /// A transport-level fault, with its cause.
    Fault(String),
}

/// What the driver of a wait must do next.
pub enum WaitAction {
    /// Read the current state of the resource once.
    CheckCurrent,
    /// Open a change-notification subscription bounded by `timeout_secs`.
    Subscribe { timeout_secs: u32 },
    /// Wait for the next notification of the open subscription.
    AwaitNext,
    /// The wait is over, with this outcome.
    Resolve(Result<(), WaitError>),
}

pub open spec fn is_terminal(p: WaitPhase) -> bool {
    p is Ready || p is TimedOut || p is Failed
}

/// The phase that follows `p` once event `e` is reported.
/// Events that do not belong to the phase leave it unchanged; terminal phases never change.
pub open spec fn next_phase(p: WaitPhase, e: WaitEvent) -> WaitPhase {
    if is_terminal(p) {
        p
    } else {
        match e {
            WaitEvent::Fault(m) => WaitPhase::Failed(m),
            WaitEvent::CurrentState(b) => if p is Checking {
                if b { WaitPhase::Ready } else { WaitPhase::Subscribing }
            } else {
                p
            },
            WaitEvent::Subscribed => if p is Subscribing { WaitPhase::Watching } else { p },
            WaitEvent::Notification(b) => if p is Watching && b { WaitPhase::Ready } else { p },
            WaitEvent::StreamEnded => if p is Watching { WaitPhase::TimedOut } else { p },
        }
    }
}

/// The action that a phase asks of the driver.
pub open spec fn phase_action(p: WaitPhase, timeout_secs: u32) -> WaitAction {
    match p {
        WaitPhase::Checking => WaitAction::CheckCurrent,
        WaitPhase::Subscribing => WaitAction::Subscribe { timeout_secs },
        WaitPhase::Watching => WaitAction::AwaitNext,
        WaitPhase::Ready => WaitAction::Resolve(Ok(())),
        WaitPhase::TimedOut => WaitAction::Resolve(Err(WaitError::Timeout { waited_secs: timeout_secs })),
        WaitPhase::Failed(m) => WaitAction::Resolve(Err(WaitError::Platform(m))),
    }
}

/// The phase reached from `p` after the events `es`, in order.
pub open spec fn run_events(p: WaitPhase, es: Seq<WaitEvent>) -> WaitPhase
    decreases es.len(),
{
    if es.len() == 0 {
        p
    } else {
        run_events(next_phase(p, es[0]), es.drop_first())
    }
}

/// The events of a wait whose fast-path check finds the condition unmet, whose
/// subscription opens, delivers notifications with the given verdicts, then ends.
pub open spec fn watched_stream(verdicts: Seq<bool>) -> Seq<WaitEvent> {
    seq![WaitEvent::CurrentState(false), WaitEvent::Subscribed]
        + verdicts.map_values(|b: bool| WaitEvent::Notification(b))
        + seq![WaitEvent::StreamEnded]
}

/// A wait for a condition on a named resource, bounded by a timeout.
/// It decides; its driver performs the actions and reports the events.
pub struct Waiter {
    pub timeout_secs: u32,
    pub phase: WaitPhase,
}

impl Waiter {
    /// A wait that starts with the fast-path check.
    pub fn new(timeout_secs: u32) -> (r: (Waiter, WaitAction))
        ensures
            r.0.timeout_secs == timeout_secs,
            r.0.phase is Checking,
            r.1 == phase_action(WaitPhase::Checking, timeout_secs),
    {
        (Waiter { timeout_secs, phase: WaitPhase::Checking }, WaitAction::CheckCurrent)
    }

    /// Takes the event that the last action produced and returns the next action.
    pub fn step(&mut self, event: WaitEvent) -> (a: WaitAction)
        ensures
            final(self).timeout_secs == old(self).timeout_secs,
            final(self).phase == next_phase(old(self).phase, event),
            a == phase_action(final(self).phase, final(self).timeout_secs),
    {
        let terminal = match &self.phase {
            WaitPhase::Ready | WaitPhase::TimedOut | WaitPhase::Failed(_) => true,
            _ => false,
        };
        if !terminal {
            let new_phase = match event {
                WaitEvent::Fault(m) => Some(WaitPhase::Failed(m)),
                WaitEvent::CurrentState(b) => match self.phase {
                    WaitPhase::Checking => if b {
                        Some(WaitPhase::Ready)
                    } else {
                        Some(WaitPhase::Subscribing)
                    },
                    _ => None,
                },
                WaitEvent::Subscribed => match self.phase {
                    WaitPhase::Subscribing => Some(WaitPhase::Watching),
                    _ => None,
                },
                WaitEvent::Notification(b) => match self.phase {
                    WaitPhase::Watching => if b {
                        Some(WaitPhase::Ready)
                    } else {
                        None
                    },
                    _ => None,
                },
                WaitEvent::StreamEnded => match self.phase {
                    WaitPhase::Watching => Some(WaitPhase::TimedOut),
                    _ => None,
                },
            };
            if let Some(p) = new_phase {
                self.phase = p;
            }
        }
        self.current_action()
    }

    /// The action that the current phase asks for.
    pub fn current_action(&self) -> (a: WaitAction)
        ensures
            a == phase_action(self.phase, self.timeout_secs),
    {
        match &self.phase {
            WaitPhase::Checking => WaitAction::CheckCurrent,
            WaitPhase::Subscribing => WaitAction::Subscribe { timeout_secs: self.timeout_secs },
            WaitPhase::Watching => WaitAction::AwaitNext,
            WaitPhase::Ready => WaitAction::Resolve(Ok(())),
            WaitPhase::TimedOut => WaitAction::Resolve(
                Err(WaitError::Timeout { waited_secs: self.timeout_secs }),
            ),
            WaitPhase::Failed(m) => WaitAction::Resolve(Err(WaitError::Platform(m.clone()))),
        }
    }
}

/// A terminal phase absorbs every further event.
pub proof fn lemma_terminal_absorbs(p: WaitPhase, es: Seq<WaitEvent>)
    requires
        is_terminal(p),
    ensures
        run_events(p, es) == p,
    decreases es.len(),
{
    if es.len() > 0 {
        lemma_terminal_absorbs(next_phase(p, es[0]), es.drop_first());
    }
}

proof fn lemma_watching(verdicts: Seq<bool>)
    ensures
        run_events(
            WaitPhase::Watching,
            verdicts.map_values(|b: bool| WaitEvent::Notification(b)) + seq![WaitEvent::StreamEnded],
        ) == if exists|i: int| 0 <= i < verdicts.len() && #[trigger] verdicts[i] {
            WaitPhase::Ready
        } else {
            WaitPhase::TimedOut
        },
    decreases verdicts.len(),
{
    let es = verdicts.map_values(|b: bool| WaitEvent::Notification(b)) + seq![WaitEvent::StreamEnded];
    if verdicts.len() == 0 {
        assert(es =~= seq![WaitEvent::StreamEnded]);
        assert(es.drop_first() =~= Seq::<WaitEvent>::empty());
        assert(run_events(WaitPhase::Watching, es) == run_events(WaitPhase::TimedOut, es.drop_first()));
    } else {
        let rest = verdicts.drop_first();
        let rest_es = rest.map_values(|b: bool| WaitEvent::Notification(b)) + seq![WaitEvent::StreamEnded];
        assert(es.drop_first() =~= rest_es);
        assert(es[0] == WaitEvent::Notification(verdicts[0]));
        assert(run_events(WaitPhase::Watching, es) == run_events(
            next_phase(WaitPhase::Watching, es[0]),
            rest_es,
        ));
        if verdicts[0] {
            lemma_terminal_absorbs(WaitPhase::Ready, rest_es);
            assert(verdicts[0]);
        } else {
            lemma_watching(rest);
            if exists|i: int| 0 <= i < verdicts.len() && #[trigger] verdicts[i] {
                let i = choose|i: int| 0 <= i < verdicts.len() && #[trigger] verdicts[i];
                assert(rest[i - 1]);
            } else {
                assert forall|i: int| 0 <= i < rest.len() implies !#[trigger] rest[i] by {
                    assert(verdicts[i + 1] == rest[i]);
                }
            }
        }
    }
}

proof fn lemma_no_timeout_while_open(verdicts: Seq<bool>)
    ensures
        run_events(WaitPhase::Watching, verdicts.map_values(|b: bool| WaitEvent::Notification(b)))
            is Watching || run_events(
            WaitPhase::Watching,
            verdicts.map_values(|b: bool| WaitEvent::Notification(b)),
        ) is Ready,
    decreases verdicts.len(),
{
    let es = verdicts.map_values(|b: bool| WaitEvent::Notification(b));
    if verdicts.len() > 0 {
        let rest = verdicts.drop_first();
        let rest_es = rest.map_values(|b: bool| WaitEvent::Notification(b));
        assert(es.drop_first() =~= rest_es);
        assert(es[0] == WaitEvent::Notification(verdicts[0]));
        if verdicts[0] {
            lemma_terminal_absorbs(WaitPhase::Ready, rest_es);
        } else {
            lemma_no_timeout_while_open(rest);
        }
    }
}

/// A wait whose condition already holds resolves on the fast-path check, before
/// any subscription is opened, whatever would follow.
pub proof fn lemma_present_resolves_at_once(timeout_secs: u32, rest: Seq<WaitEvent>)
    ensures
        next_phase(WaitPhase::Checking, WaitEvent::CurrentState(true)) is Ready,
        phase_action(WaitPhase::Ready, timeout_secs) == WaitAction::Resolve(Ok::<(), WaitError>(())),
        run_events(WaitPhase::Checking, seq![WaitEvent::CurrentState(true)] + rest) is Ready,
{
    let es = seq![WaitEvent::CurrentState(true)] + rest;
    assert(es.drop_first() =~= rest);
    lemma_terminal_absorbs(WaitPhase::Ready, rest);
}

/// A wait whose fast path fails opens a subscription bounded by the configured
/// timeout; it resolves successfully when one of the notifications of that stream
/// satisfies the condition, and when none does, it fails with a timeout that carries
/// the configured bound once the stream ends, and not before.
pub proof fn lemma_wait_outcome(timeout_secs: u32, verdicts: Seq<bool>)
    ensures
        phase_action(next_phase(WaitPhase::Checking, WaitEvent::CurrentState(false)), timeout_secs)
            == (WaitAction::Subscribe { timeout_secs }),
        (exists|i: int| 0 <= i < verdicts.len() && #[trigger] verdicts[i]) ==> run_events(
            WaitPhase::Checking,
            watched_stream(verdicts),
        ) is Ready,
        (forall|i: int| 0 <= i < verdicts.len() ==> !#[trigger] verdicts[i]) ==> phase_action(
            run_events(WaitPhase::Checking, watched_stream(verdicts)),
            timeout_secs,
        ) == WaitAction::Resolve(Err::<(), WaitError>(WaitError::Timeout { waited_secs: timeout_secs })),
        !(run_events(
            WaitPhase::Checking,
            seq![WaitEvent::CurrentState(false), WaitEvent::Subscribed] + verdicts.map_values(
                |b: bool| WaitEvent::Notification(b),
            ),
        ) is TimedOut),
{
    let open = seq![WaitEvent::CurrentState(false), WaitEvent::Subscribed] + verdicts.map_values(
        |b: bool| WaitEvent::Notification(b),
    );
    assert(open.drop_first().drop_first() =~= verdicts.map_values(|b: bool| WaitEvent::Notification(b)));
    assert(run_events(WaitPhase::Checking, open) == run_events(WaitPhase::Subscribing, open.drop_first()));
    assert(run_events(WaitPhase::Subscribing, open.drop_first()) == run_events(
        WaitPhase::Watching,
        open.drop_first().drop_first(),
    ));
    lemma_no_timeout_while_open(verdicts);
    let tail = verdicts.map_values(|b: bool| WaitEvent::Notification(b)) + seq![WaitEvent::StreamEnded];
    let es = watched_stream(verdicts);
    let es1 = es.drop_first();
    assert(es1.drop_first() =~= tail);
    assert(es[0] == WaitEvent::CurrentState(false));
    assert(es1[0] == WaitEvent::Subscribed);
    assert(run_events(WaitPhase::Checking, es) == run_events(WaitPhase::Subscribing, es1));
    assert(run_events(WaitPhase::Subscribing, es1) == run_events(WaitPhase::Watching, tail));
    lemma_watching(verdicts);
}

impl WaitError {
    /// The text that reports this error: the timeout text of the schema wait, or the
    /// cause reported by the transport.
    pub fn message(&self) -> (r: String)
        ensures
            r@ == match self {
                WaitError::Timeout { waited_secs } => "H2O Custom Resource not in ready state after "@
                    + decimal(*waited_secs as nat) + " seconds."@,
                WaitError::Platform(m) => m@,
            },
    {
        match self {
            WaitError::Timeout { waited_secs } => timeout_message(*waited_secs),
            WaitError::Platform(m) => m.clone(),
        }
    }
}

/// The text of a timeout error of the schema wait.
pub fn timeout_message(secs: u32) -> (r: String)
    ensures
        r@ == "H2O Custom Resource not in ready state after "@ + decimal(secs as nat) + " seconds."@,
{
    let head = String::from_str("H2O Custom Resource not in ready state after ");
    let n = u32_to_string(secs);
    let r = head.concat(n.as_str());
    r.concat(" seconds.")
}

} // verus!
