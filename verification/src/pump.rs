use vstd::prelude::*;
use crate::message::{decode, decoded, MessageView, WebSocketMessage, WireMessage, WireView};
use crate::registry::Registry;

verus! {

/// Where a connection stands in its life. It is entered as connecting, becomes open
/// once, and closed once; closed, it stays closed.
#[derive(Clone, Copy, Debug, PartialEq, Eq, Structural)]
pub enum Phase {
    Connecting,
    Open,
    Closed,
}

/// One thing read off a connection: a message of the wire protocol, or the failure that
/// reading ran into, in words.
pub enum Inbound {
    Message(WireMessage),
    Failure(String),
}

pub enum InboundView {
    Message(WireView),
    Failure(Seq<char>),
}

impl View for Inbound {
    type V = InboundView;

    open spec fn view(&self) -> InboundView {
        match *self {
            Inbound::Message(wire) => InboundView::Message(wire@),
            Inbound::Failure(text) => InboundView::Failure(text@),
        }
    }
}

/// What the callback of a connection is handed: a message, nothing at all, or the
/// description of a failure.
pub enum Event {
    Message(WebSocketMessage),
    Empty,
    Failure(String),
}

pub enum EventView {
    Message(MessageView),
    Empty,
    Failure(Seq<char>),
}

impl View for Event {
    type V = EventView;

    open spec fn view(&self) -> EventView {
        match *self {
            Event::Message(message) => EventView::Message(message@),
            Event::Empty => EventView::Empty,
            Event::Failure(text) => EventView::Failure(text@),
        }
    }
}

/// One step that the pump asks of its driver.
pub enum Action {
    /// Take the connection's handle out of the registry.
    Deregister,
    /// Hand this event to the callback.
    Deliver(Event),
    /// Read no more.
    Finish,
}

pub enum ActionView {
    Deregister,
    Deliver(EventView),
    Finish,
}

impl View for Action {
    type V = ActionView;

    open spec fn view(&self) -> ActionView {
        match *self {
            Action::Deregister => ActionView::Deregister,
            Action::Deliver(event) => ActionView::Deliver(event@),
            Action::Finish => ActionView::Finish,
        }
    }
}

/// The steps of a list, each by its view.
pub open spec fn action_views(actions: Seq<Action>) -> Seq<ActionView> {
    Seq::new(actions.len(), |i: int| actions[i]@)
}

/// Whether something read ends the connection: a close frame does, and so does a
/// failure.
pub open spec fn is_terminal(inbound: InboundView) -> bool {
    match inbound {
        InboundView::Message(WireView::Close(_)) => true,
        InboundView::Message(_) => false,
        InboundView::Failure(_) => true,
    }
}

/// The event that stands for something read: the message it decodes to, nothing for a
/// raw frame, the description for a failure.
pub open spec fn event_of(inbound: InboundView) -> EventView {
    match inbound {
        InboundView::Message(wire) => match decoded(wire) {
            Some(message) => EventView::Message(message),
            None => EventView::Empty,
        },
        InboundView::Failure(text) => EventView::Failure(text),
    }
}

/// What an open connection does about something read: it delivers the event that
/// stands for it, and where that ends the connection it leaves the registry before it
/// delivers, and reads no more after.
pub open spec fn reaction(inbound: InboundView) -> Seq<ActionView> {
    if is_terminal(inbound) {
        seq![ActionView::Deregister, ActionView::Deliver(event_of(inbound)), ActionView::Finish]
    } else {
        seq![ActionView::Deliver(event_of(inbound))]
    }
}

/// The steps that a connection in a given phase takes about something read. Only an
/// open connection takes any.
pub open spec fn steps(phase: Phase, inbound: InboundView) -> Seq<ActionView> {
    if phase == Phase::Open {
        reaction(inbound)
    } else {
        Seq::empty()
    }
}

/// The phase that a connection is in after something was read.
pub open spec fn phase_after(phase: Phase, inbound: InboundView) -> Phase {
    if phase == Phase::Open && is_terminal(inbound) {
        Phase::Closed
    } else {
        phase
    }
}

/// The event for something read.
pub fn event_for(inbound: Inbound) -> (event: Event)
    ensures
        event@ == event_of(inbound@),
{
    match inbound {
        Inbound::Message(wire) => match decode(wire) {
            Some(message) => Event::Message(message),
            None => Event::Empty,
        },
        Inbound::Failure(text) => Event::Failure(text),
    }
}

/// Draws a handle with `rand::random` of the `rand` crate. Nothing is believed of the
/// number drawn.
#[verifier::external_body]
fn random_handle() -> (handle: u32) {
    rand::random()
}

/// The inbound side of one connection: its handle and where it stands in its life.
pub struct Pump {
    handle: u32,
    phase: Phase,
}

impl Pump {
    /// The handle of the connection.
    pub closed spec fn id(&self) -> u32 {
        self.handle
    }

    /// Where the connection stands.
    pub closed spec fn stage(&self) -> Phase {
        self.phase
    }

    /// A connection that is being established under a handle.
    pub fn new(handle: u32) -> (pump: Pump)
        ensures
            pump.id() == handle,
            pump.stage() == Phase::Connecting,
    {
        Pump { handle, phase: Phase::Connecting }
    }

    /// The handle of the connection.
    pub fn handle(&self) -> (handle: u32)
        ensures
            handle == self.id(),
    {
        self.handle
    }

    /// Where the connection stands.
    pub fn phase(&self) -> (phase: Phase)
        ensures
            phase == self.stage(),
    {
        self.phase
    }

    /// A connection that is being established under a handle drawn at random.
    pub fn drawn() -> (pump: Pump)
        ensures
            pump.stage() == Phase::Connecting,
    {
        Pump { handle: random_handle(), phase: Phase::Connecting }
    }

    /// Draws another handle for a connection that is still being established, for when
    /// the one it had turned out to be taken. Any other connection keeps its handle.
    pub fn redraw(&mut self)
        ensures
            final(self).stage() == old(self).stage(),
            old(self).stage() != Phase::Connecting ==> final(self).id() == old(self).id(),
    {
        match self.phase {
            Phase::Connecting => {
                self.handle = random_handle();
            },
            _ => {},
        }
    }

    /// Opens the connection: files its writable half in the registry under its handle
    /// and, in the same step, turns from connecting to open. Every other entry of the
    /// registry stays as it was.
    ///
    /// This happens exactly where the connection is still connecting and its handle
    /// stands for no open connection. Otherwise nothing changes and the writable half
    /// comes back as the error: a handle is never taken from a connection that lives.
    pub fn open<W>(&mut self, registry: &mut Registry<W>, writer: W) -> (outcome: Result<(), W>)
        ensures
            final(self).id() == old(self).id(),
            outcome is Ok <==> old(self).stage() == Phase::Connecting && !old(
                registry,
            )@.contains_key(old(self).id()),
            match outcome {
                Ok(()) => {
                    &&& final(self).stage() == Phase::Open
                    &&& final(registry)@ == old(registry)@.insert(old(self).id(), writer)
                },
                Err(returned) => {
                    &&& final(self).stage() == old(self).stage()
                    &&& final(registry)@ == old(registry)@
                    &&& returned == writer
                },
            },
    {
        match self.phase {
            Phase::Connecting => {
                if registry.contains(self.handle) {
                    Err(writer)
                } else {
                    registry.register(self.handle, writer);
                    self.phase = Phase::Open;
                    Ok(())
                }
            },
            _ => Err(writer),
        }
    }

    /// Opens the connection under a handle that stands for no other: under its own where
    /// that is free, else under one drawn anew, for at most `draws` further draws.
    ///
    /// A connection that is connecting and whose handle is free is always opened, under
    /// that handle. Where the connection is not opened, nothing has changed but, maybe,
    /// the handle of a connection that is still connecting, and the writable half comes
    /// back as the error.
    pub fn open_unique<W>(&mut self, registry: &mut Registry<W>, writer: W, draws: u32) -> (outcome:
        Result<(), W>)
        ensures
            match outcome {
                Ok(()) => {
                    &&& old(self).stage() == Phase::Connecting
                    &&& final(self).stage() == Phase::Open
                    &&& !old(registry)@.contains_key(final(self).id())
                    &&& final(registry)@ == old(registry)@.insert(final(self).id(), writer)
                },
                Err(returned) => {
                    &&& final(self).stage() == old(self).stage()
                    &&& final(registry)@ == old(registry)@
                    &&& returned == writer
                    &&& old(self).stage() != Phase::Connecting ==> final(self).id() == old(
                        self,
                    ).id()
                },
            },
            old(self).stage() == Phase::Connecting && !old(registry)@.contains_key(old(self).id())
                ==> outcome is Ok && final(self).id() == old(self).id(),
    {
        let mut held = writer;
        let mut left = draws;
        loop
            invariant
                held == writer,
                left <= draws,
                self.stage() == old(self).stage(),
                registry@ == old(registry)@,
                self.stage() != Phase::Connecting ==> self.id() == old(self).id(),
                left < draws ==> old(registry)@.contains_key(old(self).id()) || old(self).stage()
                    != Phase::Connecting,
                left == draws ==> self.id() == old(self).id(),
            decreases left,
        {
            match self.open(registry, held) {
                Ok(()) => {
                    return Ok(());
                },
                Err(returned) => {
                    if left == 0 {
                        return Err(returned);
                    }
                    held = returned;
                    self.redraw();
                    left = left - 1;
                },
            }
        }
    }

    /// Decides what to do about something read off the connection, and moves the
    /// connection on in its life.
    pub fn on_inbound(&mut self, inbound: Inbound) -> (actions: Vec<Action>)
        ensures
            final(self).id() == old(self).id(),
            final(self).stage() == phase_after(old(self).stage(), inbound@),
            action_views(actions@) == steps(old(self).stage(), inbound@),
    {
        let mut actions: Vec<Action> = Vec::new();
        match self.phase {
            Phase::Open => {
                let terminal = match &inbound {
                    Inbound::Message(WireMessage::Close(_)) => true,
                    Inbound::Message(_) => false,
                    Inbound::Failure(_) => true,
                };
                let ghost seen = inbound@;
                let event = event_for(inbound);
                if terminal {
                    actions.push(Action::Deregister);
                    actions.push(Action::Deliver(event));
                    actions.push(Action::Finish);
                    self.phase = Phase::Closed;
                } else {
                    actions.push(Action::Deliver(event));
                }
                assert(action_views(actions@) =~= reaction(seen));
            },
            _ => {
                assert(action_views(actions@) =~= Seq::<ActionView>::empty());
            },
        }
        actions
    }

    /// Carries out on the registry what a step asks of it: to deregister takes this
    /// connection's handle out and hands back the writable half that was filed under it;
    /// any other step leaves the registry alone.
    pub fn settle<W>(&self, registry: &mut Registry<W>, action: &Action) -> (removed: Option<W>)
        ensures
            final(registry)@ == registry_after(old(registry)@, self.id(), action@),
            match removed {
                Some(writer) => action@ == ActionView::Deregister && old(registry)@.contains_key(
                    self.id(),
                ) && writer == old(registry)@[self.id()],
                None => !(action@ == ActionView::Deregister && old(registry)@.contains_key(
                    self.id(),
                )),
            },
    {
        match action {
            Action::Deregister => registry.deregister(self.handle),
            _ => None,
        }
    }
}

/// The registry after one step of the connection under a handle.
pub open spec fn registry_after<W>(registry: Map<u32, W>, handle: u32, action: ActionView) -> Map<
    u32,
    W,
> {
    match action {
        ActionView::Deregister => registry.remove(handle),
        _ => registry,
    }
}

} // verus!
