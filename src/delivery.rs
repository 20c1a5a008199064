//! Decisions of the connect-retry loop that hands a code to the local
//! listener, and the request that carries it.
//!
//! The caller owns the socket and the clock: it reports what happened as an
//! [`Event`] and performs the [`Action`] that comes back.
use vstd::prelude::*;
use vstd::string::StrSliceExecFns;
use crate::totp::{code_at, current_code, GeneratorError};

verus! {

/// Pause after a refused or failed connection attempt, in nanoseconds (1 ms).
pub const BACKOFF_NS: u64 = 1_000_000;

/// Deadline used when the caller names none, in nanoseconds (60 s).
pub const DEFAULT_DEADLINE_NS: u64 = 60_000_000_000;

/// Loopback port on which the game launcher listens for the code.
pub const LISTENER_PORT: u16 = 4646;

/// No connection could be made before the deadline, which is kept for the
/// report.
#[derive(Debug, Clone, Copy, PartialEq, Eq, Structural)]
pub struct DeliveryTimeout {
    pub deadline_ns: u64,
}

/// Where a delivery stands.
#[derive(Debug, Clone, Copy, PartialEq, Eq, Structural)]
pub enum Phase {
    /// Still trying to reach the listener.
    Waiting,
    /// The code was handed over; nothing more is done.
    Delivered,
    /// The deadline passed or an attempt timed out; nothing more is done.
    Expired,
}

/// What the caller observed.
#[derive(Debug, Clone, Copy, PartialEq, Eq, Structural)]
pub enum Event {
    /// The clock was read: this much time has passed since delivery began.
    Tick { elapsed_ns: u64 },
    /// A connection to the listener was made.
    Connected,
    /// A connection attempt ran out of time.
    ConnectTimedOut,
    /// A connection attempt failed otherwise (most often: refused).
    ConnectFailed,
}

/// What the caller is to do next.
#[derive(Debug, Clone, Copy, PartialEq, Eq, Structural)]
pub enum Action {
    /// Try to connect, waiting at most this long.
    Connect { timeout_ns: u64 },
    /// Generate the code now, send the request once, and stop.
    SendCode,
    /// Sleep this long, then read the clock again.
    Backoff { pause_ns: u64 },
    /// Stop and report the timeout.
    GiveUp { error: DeliveryTimeout },
    /// Delivery is over; there is nothing to do.
    Finished,
}

/// One delivery attempt: the deadline it runs under and where it stands.
#[derive(Debug, Clone, Copy, PartialEq, Eq, Structural)]
pub struct Delivery {
    pub deadline_ns: u64,
    pub phase: Phase,
}

/// The next phase and action, from a phase, the deadline and an event.
pub open spec fn transition(phase: Phase, deadline_ns: u64, event: Event) -> (Phase, Action) {
    match phase {
        Phase::Waiting => match event {
            Event::Tick { elapsed_ns } => if elapsed_ns < deadline_ns {
                (Phase::Waiting, Action::Connect { timeout_ns: (deadline_ns - elapsed_ns) as u64 })
            } else {
                (Phase::Expired, Action::GiveUp { error: DeliveryTimeout { deadline_ns } })
            },
            Event::Connected => (Phase::Delivered, Action::SendCode),
            Event::ConnectTimedOut => (
                Phase::Expired,
                Action::GiveUp { error: DeliveryTimeout { deadline_ns } },
            ),
            Event::ConnectFailed => (Phase::Waiting, Action::Backoff { pause_ns: BACKOFF_NS }),
        },
        _ => (phase, Action::Finished),
    }
}

/// The final phase and the actions of a delivery fed `events` in order.
pub open spec fn run(phase: Phase, deadline_ns: u64, events: Seq<Event>) -> (Phase, Seq<Action>)
    decreases events.len(),
{
    if events.len() == 0 {
        (phase, Seq::empty())
    } else {
        let (next, action) = transition(phase, deadline_ns, events[0]);
        let (last, rest) = run(next, deadline_ns, events.subrange(1, events.len() as int));
        (last, seq![action] + rest)
    }
}

/// How many of `actions` send a code.
pub open spec fn sends(actions: Seq<Action>) -> nat
    decreases actions.len(),
{
    if actions.len() == 0 {
        0
    } else {
        (if actions[0] is SendCode { 1nat } else { 0nat }) + sends(
            actions.subrange(1, actions.len() as int),
        )
    }
}

impl Delivery {
    /// A delivery that has just begun, bounded by `deadline_ns`.
    pub fn new(deadline_ns: u64) -> (r: Delivery)
        ensures
            r.deadline_ns == deadline_ns,
            r.phase == Phase::Waiting,
    {
        Delivery { deadline_ns, phase: Phase::Waiting }
    }

    /// Takes in what the caller observed and says what to do next.
    pub fn step(&mut self, event: Event) -> (a: Action)
        ensures
            final(self).deadline_ns == old(self).deadline_ns,
            (final(self).phase, a) == transition(old(self).phase, old(self).deadline_ns, event),
    {
        match self.phase {
            Phase::Waiting => match event {
                Event::Tick { elapsed_ns } => {
                    if elapsed_ns < self.deadline_ns {
                        Action::Connect { timeout_ns: self.deadline_ns - elapsed_ns }
                    } else {
                        self.phase = Phase::Expired;
                        Action::GiveUp { error: DeliveryTimeout { deadline_ns: self.deadline_ns } }
                    }
                },
                Event::Connected => {
                    self.phase = Phase::Delivered;
                    Action::SendCode
                },
                Event::ConnectTimedOut => {
                    self.phase = Phase::Expired;
                    Action::GiveUp { error: DeliveryTimeout { deadline_ns: self.deadline_ns } }
                },
                Event::ConnectFailed => Action::Backoff { pause_ns: BACKOFF_NS },
            },
            _ => Action::Finished,
        }
    }
}

/// The request that carries `code`, sent by the tool `name` at `version`.
pub open spec fn request_text(code: Seq<char>, name: Seq<char>, version: Seq<char>) -> Seq<char> {
    "GET /ffxivlauncher/"@ + code + " HTTP/1.0\r\nHost: localhost\r\nUser-Agent: "@ + name + "/"@
        + version + "\r\nContent-Length: 0\r\n\r\n"@
}

/// Appends the characters of `s` to `out`.
fn push_str(out: &mut Vec<char>, s: &str)
    ensures
        final(out)@ == old(out)@ + s@,
{
    let n = s.unicode_len();
    let mut j: usize = 0;
    while j < n
        invariant
            n == s@.len(),
            j <= n,
            out@ == old(out)@ + s@.take(j as int),
        decreases n - j,
    {
        out.push(s.get_char(j));
        assert(old(out)@ + s@.take(j + 1) =~= (old(out)@ + s@.take(j as int)).push(s@[j as int]));
        j = j + 1;
    }
    assert(s@.take(n as int) =~= s@);
}

/// Frames the single request that hands `code` to the listener, naming the
/// sending tool and its version, with an empty body.
pub fn format_request(code: &str, name: &str, version: &str) -> (r: Vec<char>)
    ensures
        r@ == request_text(code@, name@, version@),
{
    let mut out: Vec<char> = Vec::new();
    push_str(&mut out, "GET /ffxivlauncher/");
    push_str(&mut out, code);
    push_str(&mut out, " HTTP/1.0\r\nHost: localhost\r\nUser-Agent: ");
    push_str(&mut out, name);
    push_str(&mut out, "/");
    push_str(&mut out, version);
    push_str(&mut out, "\r\nContent-Length: 0\r\n\r\n");
    out
}

/// What to send once connected: the code for `secret` at `now` (seconds since
/// the Unix epoch), framed as a request. The secret is overwritten whatever
/// the outcome.
pub fn code_request(secret: &mut Vec<u8>, now: u64, name: &str, version: &str) -> (r: Result<
    Vec<char>,
    GeneratorError,
>)
    ensures
        r is Ok,
        r matches Ok(req) ==> req@ == request_text(code_at(old(secret)@, now), name@, version@),
        final(secret)@.len() == 0,
{
    match current_code(secret, now) {
        Ok(code) => Ok(format_request(code.as_str(), name, version)),
        Err(e) => Err(e),
    }
}

/// A delivery sends at most one code. One that is still waiting sends one
/// exactly when it ends delivered; one that is over sends none and stays over.
pub proof fn sends_at_most_once(phase: Phase, deadline_ns: u64, events: Seq<Event>)
    ensures
        phase is Waiting ==> sends(run(phase, deadline_ns, events).1) <= 1,
        phase is Waiting ==> (sends(run(phase, deadline_ns, events).1) == 1 <==> run(
            phase,
            deadline_ns,
            events,
        ).0 is Delivered),
        !(phase is Waiting) ==> sends(run(phase, deadline_ns, events).1) == 0 && run(
            phase,
            deadline_ns,
            events,
        ).0 == phase,
    decreases events.len(),
{
    if events.len() > 0 {
        let (next, action) = transition(phase, deadline_ns, events[0]);
        let tail = events.subrange(1, events.len() as int);
        sends_at_most_once(next, deadline_ns, tail);
        let acts = seq![action] + run(next, deadline_ns, tail).1;
        assert(acts.subrange(1, acts.len() as int) =~= run(next, deadline_ns, tail).1);
    }
}

/// Feeding one more event adds its action at the end.
pub proof fn run_push(phase: Phase, deadline_ns: u64, events: Seq<Event>, e: Event)
    ensures
        ({
            let (p, acts) = run(phase, deadline_ns, events);
            let (q, a) = transition(p, deadline_ns, e);
            run(phase, deadline_ns, events.push(e)) == (q, acts.push(a))
        }),
    decreases events.len(),
{
    let evs = events.push(e);
    if events.len() == 0 {
        let (q, a) = transition(phase, deadline_ns, e);
        assert(evs[0] == e);
        assert(evs.subrange(1, evs.len() as int) =~= Seq::<Event>::empty());
        assert(seq![a] + Seq::<Action>::empty() =~= Seq::<Action>::empty().push(a));
        assert(run(q, deadline_ns, Seq::<Event>::empty()) == (q, Seq::<Action>::empty()));
        assert(run(phase, deadline_ns, evs) == (q, seq![a] + Seq::<Action>::empty()));
    } else {
        let (next, action) = transition(phase, deadline_ns, events[0]);
        let tail = events.subrange(1, events.len() as int);
        assert(evs[0] == events[0]);
        assert(evs.subrange(1, evs.len() as int) =~= tail.push(e));
        run_push(next, deadline_ns, tail, e);
        let (p, acts) = run(next, deadline_ns, tail);
        let a = transition(p, deadline_ns, e).1;
        assert(seq![action] + acts.push(a) =~= (seq![action] + acts).push(a));
        assert(run(phase, deadline_ns, events) == (p, seq![action] + acts));
        assert(run(phase, deadline_ns, evs) == (transition(p, deadline_ns, e).0, seq![action] + acts.push(a)));
    }
}

/// A listener that is reached while the delivery still waits gets the code:
/// the delivery ends delivered, having sent exactly one code.
pub proof fn connection_delivers(deadline_ns: u64, events: Seq<Event>)
    requires
        run(Phase::Waiting, deadline_ns, events).0 is Waiting,
    ensures
        run(Phase::Waiting, deadline_ns, events.push(Event::Connected)).0 is Delivered,
        sends(run(Phase::Waiting, deadline_ns, events.push(Event::Connected)).1) == 1,
        run(Phase::Waiting, deadline_ns, events.push(Event::Connected)).1.last() is SendCode,
{
    run_push(Phase::Waiting, deadline_ns, events, Event::Connected);
    sends_at_most_once(Phase::Waiting, deadline_ns, events.push(Event::Connected));
}

/// While waiting, a reading of the clock before the deadline asks for an
/// attempt that ends exactly at the deadline, and one at or past it gives up
/// with that deadline.
pub proof fn deadline_respected(deadline_ns: u64, elapsed_ns: u64)
    ensures
        ({
            let a = transition(Phase::Waiting, deadline_ns, Event::Tick { elapsed_ns }).1;
            if elapsed_ns < deadline_ns {
                a == Action::Connect { timeout_ns: (deadline_ns - elapsed_ns) as u64 }
            } else {
                a == Action::GiveUp { error: DeliveryTimeout { deadline_ns } }
            }
        }),
{
}

/// A delivery gives up only on a clock reading at or past the deadline, or
/// on an attempt that timed out.
pub proof fn no_early_give_up(phase: Phase, deadline_ns: u64, events: Seq<Event>)
    requires
        phase is Waiting,
        forall|i: int|
            0 <= i < events.len() ==> !(#[trigger] events[i] is ConnectTimedOut) && (
            events[i] matches Event::Tick { elapsed_ns } ==> elapsed_ns < deadline_ns),
    ensures
        !(run(phase, deadline_ns, events).0 is Expired),
    decreases events.len(),
{
    if events.len() > 0 {
        let (next, action) = transition(phase, deadline_ns, events[0]);
        let tail = events.subrange(1, events.len() as int);
        assert(forall|i: int| 0 <= i < tail.len() ==> #[trigger] tail[i] == events[i + 1]);
        if next is Waiting {
            no_early_give_up(next, deadline_ns, tail);
        } else {
            sends_at_most_once(next, deadline_ns, tail);
        }
    }
}

} // verus!
