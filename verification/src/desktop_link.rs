//! The desktop application's reading thread: it connects to the manager,
//! waits for the login to be accepted, then passes on what the manager sends,
//! reconnecting when the connection is lost. Each step takes what happened
//! and says what the thread tells the window.

use vstd::prelude::*;
use crate::handshake::ClientIncomingRequest;

verus! {

/// Where the reading thread is.
#[derive(Clone, Copy, Debug, PartialEq, Eq, Structural)]
pub enum LinkPhase {
    /// Opening the first connection.
    Connecting,
    /// Connected, waiting for the manager to accept the login.
    Authorizing,
    /// Logged in, passing on what the manager sends.
    Reading,
    /// The connection was lost; opening a new one.
    Reconnecting,
}

/// Why a read failed.
#[derive(Clone, Copy, Debug, PartialEq, Eq, Structural)]
pub enum ReadFailure {
    /// The socket failed with an I/O error: the connection is lost.
    Io,
    /// Any other failure.
    Other,
}

/// What happened since the last step.
#[derive(Debug)]
pub enum LinkInput {
    /// A connection attempt, and whether it succeeded.
    Connect(bool),
    /// A read: a message, a frame without text (`None`), or a failure.
    Read(Result<Option<ClientIncomingRequest>, ReadFailure>),
}

/// What the thread tells the window.
#[derive(Debug)]
pub enum LinkEvent {
    ManagerConnected,
    ManagerDisconnected,
    Message(ClientIncomingRequest),
}

/// One step: the next phase and what is told to the window, or `None` when
/// the manager answered the login with something else than `Authorized`
/// (the login has failed).
pub open spec fn link_step(phase: LinkPhase, input: LinkInput) -> Option<(LinkPhase, Option<LinkEvent>)> {
    match phase {
        LinkPhase::Connecting => match input {
            LinkInput::Connect(true) => Some((LinkPhase::Authorizing, Some(LinkEvent::ManagerConnected))),
            _ => Some((LinkPhase::Connecting, None)),
        },
        LinkPhase::Authorizing => match input {
            LinkInput::Read(Ok(Some(m))) => if m is Authorized {
                Some((LinkPhase::Reading, Some(LinkEvent::Message(m))))
            } else {
                None
            },
            LinkInput::Read(Ok(None)) => Some((LinkPhase::Authorizing, None)),
            LinkInput::Read(Err(_)) => None,
            LinkInput::Connect(_) => Some((LinkPhase::Authorizing, None)),
        },
        LinkPhase::Reading => match input {
            LinkInput::Read(Ok(Some(m))) => Some((LinkPhase::Reading, Some(LinkEvent::Message(m)))),
            LinkInput::Read(Err(ReadFailure::Io)) => Some(
                (LinkPhase::Reconnecting, Some(LinkEvent::ManagerDisconnected)),
            ),
            _ => Some((LinkPhase::Reading, None)),
        },
        LinkPhase::Reconnecting => match input {
            LinkInput::Connect(true) => Some((LinkPhase::Reading, Some(LinkEvent::ManagerConnected))),
            _ => Some((LinkPhase::Reconnecting, None)),
        },
    }
}

pub fn link_step_exec(phase: LinkPhase, input: LinkInput) -> (r: Option<(LinkPhase, Option<LinkEvent>)>)
    ensures
        r == link_step(phase, input),
{
    match phase {
        LinkPhase::Connecting => match input {
            LinkInput::Connect(true) => Some((LinkPhase::Authorizing, Some(LinkEvent::ManagerConnected))),
            _ => Some((LinkPhase::Connecting, None)),
        },
        LinkPhase::Authorizing => match input {
            LinkInput::Read(Ok(Some(m))) => match m {
                ClientIncomingRequest::Authorized { steamid2, auth_token, user } => Some(
                    (
                        LinkPhase::Reading,
                        Some(
                            LinkEvent::Message(ClientIncomingRequest::Authorized { steamid2, auth_token, user }),
                        ),
                    ),
                ),
                _ => None,
            },
            LinkInput::Read(Ok(None)) => Some((LinkPhase::Authorizing, None)),
            LinkInput::Read(Err(_)) => None,
            LinkInput::Connect(_) => Some((LinkPhase::Authorizing, None)),
        },
        LinkPhase::Reading => match input {
            LinkInput::Read(Ok(Some(m))) => Some((LinkPhase::Reading, Some(LinkEvent::Message(m)))),
            LinkInput::Read(Err(ReadFailure::Io)) => Some(
                (LinkPhase::Reconnecting, Some(LinkEvent::ManagerDisconnected)),
            ),
            _ => Some((LinkPhase::Reading, None)),
        },
        LinkPhase::Reconnecting => match input {
            LinkInput::Connect(true) => Some((LinkPhase::Reading, Some(LinkEvent::ManagerConnected))),
            _ => Some((LinkPhase::Reconnecting, None)),
        },
    }
}

/// The phase reached and the events told, in order, after `inputs` from
/// `Connecting`; `None` when the login failed on the way.
pub open spec fn link_run(inputs: Seq<LinkInput>) -> Option<(LinkPhase, Seq<LinkEvent>)>
    decreases inputs.len(),
{
    if inputs.len() == 0 {
        Some((LinkPhase::Connecting, Seq::empty()))
    } else {
        match link_run(inputs.drop_last()) {
            None => None,
            Some((p, evs)) => match link_step(p, inputs.last()) {
                None => None,
                Some((q, e)) => match e {
                    Some(ev) => Some((q, evs.push(ev))),
                    None => Some((q, evs)),
                },
            },
        }
    }
}

/// The phase reached after `inputs`.
pub open spec fn run_phase(inputs: Seq<LinkInput>) -> LinkPhase {
    let (p, _e) = link_run(inputs)->0;
    p
}

/// The events told after `inputs`.
pub open spec fn run_events(inputs: Seq<LinkInput>) -> Seq<LinkEvent> {
    let (_p, evs) = link_run(inputs)->0;
    evs
}

pub open spec fn is_authorized_message(e: LinkEvent) -> bool {
    e matches LinkEvent::Message(m) && m is Authorized
}

/// What holds of the events told so far, in each phase.
pub open spec fn link_ok(p: LinkPhase, evs: Seq<LinkEvent>) -> bool {
    &&& (p == LinkPhase::Connecting ==> evs.len() == 0)
    &&& (p != LinkPhase::Connecting ==> evs.len() > 0)
    &&& (evs.len() > 0 ==> evs[0] is ManagerConnected)
    &&& (forall|i: int|
        0 <= i < evs.len() && #[trigger] evs[i] is Message ==> exists|j: int|
            0 <= j <= i && is_authorized_message(#[trigger] evs[j]))
    &&& (p == LinkPhase::Authorizing ==> forall|i: int| 0 <= i < evs.len() ==> !(#[trigger] evs[i] is Message))
    &&& ((p == LinkPhase::Reading || p == LinkPhase::Reconnecting) ==> exists|j: int|
        0 <= j < evs.len() && is_authorized_message(#[trigger] evs[j]))
    &&& (forall|i: int|
        0 <= i < evs.len() - 1 && #[trigger] evs[i] is ManagerDisconnected ==> evs[i + 1] is ManagerConnected)
    &&& (evs.len() > 0 && evs.last() is ManagerDisconnected ==> p == LinkPhase::Reconnecting)
    &&& (p == LinkPhase::Reconnecting ==> evs.len() > 0 && evs.last() is ManagerDisconnected)
}

proof fn lemma_prefix(evs: Seq<LinkEvent>, ev: LinkEvent)
    ensures
        forall|i: int| 0 <= i < evs.len() ==> #[trigger] evs.push(ev)[i] == evs[i],
        evs.push(ev)[evs.len() as int] == ev,
        evs.push(ev).len() == evs.len() + 1,
{
}

proof fn lemma_push_connected(p: LinkPhase, evs: Seq<LinkEvent>, q: LinkPhase)
    requires
        link_ok(p, evs),
        (p == LinkPhase::Connecting && q == LinkPhase::Authorizing) || (p == LinkPhase::Reconnecting && q
            == LinkPhase::Reading),
    ensures
        link_ok(q, evs.push(LinkEvent::ManagerConnected)),
{
    let ev = LinkEvent::ManagerConnected;
    let n = evs.push(ev);
    lemma_prefix(evs, ev);
    if p == LinkPhase::Reconnecting {
        let j = choose|j: int| 0 <= j < evs.len() && is_authorized_message(#[trigger] evs[j]);
        assert(is_authorized_message(n[j]));
    }
    assert forall|i: int|
        0 <= i < n.len() && #[trigger] n[i] is Message implies exists|j: int|
            0 <= j <= i && is_authorized_message(#[trigger] n[j]) by {
        assert(i < evs.len());
        assert(evs[i] is Message);
        let j = choose|j: int| 0 <= j <= i && is_authorized_message(#[trigger] evs[j]);
        assert(is_authorized_message(n[j]));
    }
    assert forall|i: int|
        0 <= i < n.len() - 1 && #[trigger] n[i] is ManagerDisconnected implies n[i + 1] is ManagerConnected by {
        if i < evs.len() - 1 {
            assert(evs[i] is ManagerDisconnected);
        }
    }
}

proof fn lemma_push_disconnected(evs: Seq<LinkEvent>)
    requires
        link_ok(LinkPhase::Reading, evs),
    ensures
        link_ok(LinkPhase::Reconnecting, evs.push(LinkEvent::ManagerDisconnected)),
{
    let ev = LinkEvent::ManagerDisconnected;
    let n = evs.push(ev);
    lemma_prefix(evs, ev);
    let j = choose|j: int| 0 <= j < evs.len() && is_authorized_message(#[trigger] evs[j]);
    assert(is_authorized_message(n[j]));
    assert forall|i: int|
        0 <= i < n.len() && #[trigger] n[i] is Message implies exists|j: int|
            0 <= j <= i && is_authorized_message(#[trigger] n[j]) by {
        assert(i < evs.len());
        assert(evs[i] is Message);
        let j = choose|j: int| 0 <= j <= i && is_authorized_message(#[trigger] evs[j]);
        assert(is_authorized_message(n[j]));
    }
    assert forall|i: int|
        0 <= i < n.len() - 1 && #[trigger] n[i] is ManagerDisconnected implies n[i + 1] is ManagerConnected by {
        assert(evs[i] is ManagerDisconnected);
        if i == evs.len() - 1 {
            assert(evs.last() is ManagerDisconnected);
        }
    }
}

proof fn lemma_push_message(p: LinkPhase, evs: Seq<LinkEvent>, m: ClientIncomingRequest)
    requires
        link_ok(p, evs),
        p == LinkPhase::Reading || (p == LinkPhase::Authorizing && m is Authorized),
    ensures
        link_ok(LinkPhase::Reading, evs.push(LinkEvent::Message(m))),
{
    let ev = LinkEvent::Message(m);
    let n = evs.push(ev);
    lemma_prefix(evs, ev);
    assert(evs.len() > 0);
    if p == LinkPhase::Authorizing {
        assert(is_authorized_message(n[evs.len() as int]));
    } else {
        let j = choose|j: int| 0 <= j < evs.len() && is_authorized_message(#[trigger] evs[j]);
        assert(is_authorized_message(n[j]));
    }
    assert forall|i: int|
        0 <= i < n.len() && #[trigger] n[i] is Message implies exists|j: int|
            0 <= j <= i && is_authorized_message(#[trigger] n[j]) by {
        if i < evs.len() {
            assert(evs[i] is Message);
            let j = choose|j: int| 0 <= j <= i && is_authorized_message(#[trigger] evs[j]);
            assert(is_authorized_message(n[j]));
        } else if p == LinkPhase::Authorizing {
            assert(is_authorized_message(n[i]));
        } else {
            let j = choose|j: int| 0 <= j < evs.len() && is_authorized_message(#[trigger] evs[j]);
            assert(is_authorized_message(n[j]));
        }
    }
    assert forall|i: int|
        0 <= i < n.len() - 1 && #[trigger] n[i] is ManagerDisconnected implies n[i + 1] is ManagerConnected by {
        assert(evs[i] is ManagerDisconnected);
        if i == evs.len() - 1 {
            assert(evs.last() is ManagerDisconnected);
        }
    }
}

proof fn lemma_link_step_ok(p: LinkPhase, evs: Seq<LinkEvent>, input: LinkInput)
    requires
        link_ok(p, evs),
        link_step(p, input) is Some,
    ensures
        ({
            let (q, e) = link_step(p, input)->0;
            link_ok(
                q,
                match e {
                    Some(ev) => evs.push(ev),
                    None => evs,
                },
            )
        }),
{
    match p {
        LinkPhase::Connecting => match input {
            LinkInput::Connect(true) => lemma_push_connected(p, evs, LinkPhase::Authorizing),
            _ => {},
        },
        LinkPhase::Authorizing => match input {
            LinkInput::Read(Ok(Some(m))) => lemma_push_message(p, evs, m),
            _ => {},
        },
        LinkPhase::Reading => match input {
            LinkInput::Read(Ok(Some(m))) => lemma_push_message(p, evs, m),
            LinkInput::Read(Err(ReadFailure::Io)) => lemma_push_disconnected(evs),
            _ => {},
        },
        LinkPhase::Reconnecting => match input {
            LinkInput::Connect(true) => lemma_push_connected(p, evs, LinkPhase::Reading),
            _ => {},
        },
    }
}

proof fn lemma_link_run_ok(inputs: Seq<LinkInput>)
    requires
        link_run(inputs) is Some,
    ensures
        link_ok(run_phase(inputs), run_events(inputs)),
    decreases inputs.len(),
{
    if inputs.len() > 0 {
        lemma_link_run_ok(inputs.drop_last());
        let (p, evs) = link_run(inputs.drop_last())->0;
        lemma_link_step_ok(p, evs, inputs.last());
    }
}

/// The events told after `inputs`: those of the run, or, when the login
/// failed on the way, those told before it failed (the thread stops there).
pub open spec fn events_told(inputs: Seq<LinkInput>) -> Seq<LinkEvent>
    decreases inputs.len(),
{
    if inputs.len() == 0 {
        Seq::empty()
    } else {
        match link_run(inputs) {
            Some((_p, evs)) => evs,
            None => events_told(inputs.drop_last()),
        }
    }
}

proof fn lemma_events_told_ok(inputs: Seq<LinkInput>)
    ensures
        exists|p: LinkPhase| link_ok(p, events_told(inputs)),
    decreases inputs.len(),
{
    if inputs.len() == 0 {
        assert(link_ok(LinkPhase::Connecting, events_told(inputs)));
    } else if link_run(inputs) is Some {
        lemma_link_run_ok(inputs);
        assert(link_ok(run_phase(inputs), events_told(inputs)));
    } else {
        lemma_events_told_ok(inputs.drop_last());
    }
}

/// Whatever the connection and the manager do, what the reading thread tells
/// the window (until the login fails, if it does) starts with
/// `ManagerConnected`; every message comes after (or is) the manager's
/// `Authorized`; and every `ManagerDisconnected` is followed by
/// `ManagerConnected` before anything else is told.
pub proof fn law_link_events_in_order(inputs: Seq<LinkInput>)
    ensures
        ({
            let evs = events_told(inputs);
            &&& evs.len() > 0 ==> evs[0] is ManagerConnected
            &&& forall|i: int|
                0 <= i < evs.len() && #[trigger] evs[i] is Message ==> exists|j: int|
                    0 <= j <= i && is_authorized_message(#[trigger] evs[j])
            &&& forall|i: int|
                0 <= i < evs.len() - 1 && #[trigger] evs[i] is ManagerDisconnected ==> evs[i + 1] is ManagerConnected
        }),
{
    lemma_events_told_ok(inputs);
}

/// Once logged in, every message read is told to the window as it is,
/// whatever kind of message it is: after any run that is reading, a read
/// message adds exactly that message to what was told, and the thread goes
/// on reading.
pub proof fn law_messages_pass_on_after_login(inputs: Seq<LinkInput>, m: ClientIncomingRequest)
    ensures
        link_step(LinkPhase::Reading, LinkInput::Read(Ok(Some(m)))) == Some(
            (LinkPhase::Reading, Some(LinkEvent::Message(m))),
        ),
        match link_run(inputs) {
            Some((p, evs)) => p == LinkPhase::Reading ==> link_run(inputs.push(LinkInput::Read(Ok(Some(m)))))
                == Some((LinkPhase::Reading, evs.push(LinkEvent::Message(m)))),
            None => true,
        },
{
    let next = inputs.push(LinkInput::Read(Ok(Some(m))));
    assert(next.drop_last() =~= inputs);
    assert(next.last() == LinkInput::Read(Ok(Some(m))));
}

} // verus!
