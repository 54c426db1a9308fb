use vstd::prelude::*;
use std::collections::HashMap;
use crate::error::{BridgeError, BridgeErrorView};
use crate::message::{encode, encoded, WebSocketMessage, WireMessage};

verus! {

broadcast use vstd::std_specs::hash::group_hash_axioms;

/// The open connections: each handle with the writable half of its connection.
pub struct Registry<W> {
    connections: HashMap<u32, W>,
}

impl<W> View for Registry<W> {
    type V = Map<u32, W>;

    closed spec fn view(&self) -> Map<u32, W> {
        self.connections@
    }
}

impl<W> Registry<W> {
    /// A registry without connections.
    pub fn new() -> (registry: Self)
        ensures
            registry@ == Map::<u32, W>::empty(),
    {
        Registry { connections: HashMap::new() }
    }

    /// Whether a connection is open under this handle.
    pub fn contains(&self, handle: u32) -> (open: bool)
        ensures
            open == self@.contains_key(handle),
    {
        self.connections.contains_key(&handle)
    }

    /// Files a connection under its handle. The handle then stands for this connection
    /// alone; whatever it stood for before is handed back.
    pub fn register(&mut self, handle: u32, writer: W) -> (displaced: Option<W>)
        ensures
            final(self)@ == old(self)@.insert(handle, writer),
            match displaced {
                Some(previous) => old(self)@.contains_key(handle) && previous == old(self)@[handle],
                None => !old(self)@.contains_key(handle),
            },
    {
        self.connections.insert(handle, writer)
    }

    /// Takes a handle out. Every other handle stays as it is; the writable half that was
    /// filed under this one, if any was, is handed back.
    pub fn deregister(&mut self, handle: u32) -> (removed: Option<W>)
        ensures
            final(self)@ == old(self)@.remove(handle),
            match removed {
                Some(writer) => old(self)@.contains_key(handle) && writer == old(self)@[handle],
                None => !old(self)@.contains_key(handle),
            },
    {
        self.connections.remove(&handle)
    }

    /// The writable half of the connection that a handle stands for.
    ///
    /// A handle that stands for none is reported as not found, by its number.
    pub fn writer(&self, handle: u32) -> (outcome: Result<&W, BridgeError>)
        ensures
            match outcome {
                Ok(writer) => self@.contains_key(handle) && *writer == self@[handle],
                Err(error) => !self@.contains_key(handle) && error@
                    == BridgeErrorView::ConnectionNotFound(handle),
            },
    {
        match self.connections.get(&handle) {
            Some(writer) => Ok(writer),
            None => Err(BridgeError::ConnectionNotFound(handle)),
        }
    }

    /// What to write, and where, to send a message on a connection: the connection's
    /// writable half and the message in its wire form.
    ///
    /// The handle is looked up first: a handle that stands for no open connection is
    /// reported as not found, by its number, whatever the message.
    pub fn dispatch(&self, handle: u32, message: WebSocketMessage) -> (outcome: Result<
        (&W, WireMessage),
        BridgeError,
    >)
        ensures
            match outcome {
                Ok((writer, wire)) => self@.contains_key(handle) && *writer == self@[handle]
                    && wire@ == encoded(message@),
                Err(error) => !self@.contains_key(handle) && error@
                    == BridgeErrorView::ConnectionNotFound(handle),
            },
    {
        match self.writer(handle) {
            Ok(writer) => Ok((writer, encode(message))),
            Err(error) => Err(error),
        }
    }
}

} // verus!
