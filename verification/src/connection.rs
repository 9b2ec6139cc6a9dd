//! The connection service: the one socket of a session, seen from the side
//! of the engine.
//!
//! The socket itself belongs to the embedding program. What the engine
//! decides is kept here: whether the connection is open, which frames wait
//! to be written to the socket, and that every frame read from the socket
//! goes to the event distributor untouched.

use vstd::prelude::*;
use crate::event_bus::EventBus;
use crate::wire::texts;

verus! {

/// The transport could not be established.
#[derive(Clone, Copy, Debug, PartialEq, Eq, Structural)]
pub enum ConnectionError {
    /// No socket could be opened to the endpoint.
    Unreachable,
}

/// An outbound frame was not accepted.
#[derive(Clone, Copy, Debug, PartialEq, Eq, Structural)]
pub enum SendError {
    /// The connection is closed.
    Closed,
    /// The socket rejected the write.
    Rejected,
}

/// The connection of a session. Its endpoint never changes; once closed it
/// stays closed.
#[derive(Debug)]
pub struct Connection {
    url: String,
    open: bool,
    outbound: Vec<String>,
}

/// Mathematical model of a [`Connection`].
#[verifier::ext_equal]
pub struct ConnectionModel {
    /// The endpoint.
    pub url: Seq<char>,
    /// Whether frames are still accepted and forwarded.
    pub open: bool,
    /// The frames that wait to be written to the socket, oldest first.
    pub outbound: Seq<Seq<char>>,
}

impl ConnectionModel {
    /// A fresh connection to the endpoint.
    pub open spec fn opened(url: Seq<char>) -> ConnectionModel {
        ConnectionModel { url, open: true, outbound: Seq::empty() }
    }

    /// After an attempt to send: an open connection queues the frame, a
    /// closed one is unchanged.
    pub open spec fn send(self, frame: Seq<char>) -> ConnectionModel {
        if self.open {
            ConnectionModel { outbound: self.outbound.push(frame), ..self }
        } else {
            self
        }
    }

    /// After the waiting frames were handed to the socket.
    pub open spec fn flush(self) -> ConnectionModel {
        ConnectionModel { outbound: Seq::empty(), ..self }
    }

    /// After the session ended or the socket failed.
    pub open spec fn close(self) -> ConnectionModel {
        ConnectionModel { open: false, ..self }
    }
}

impl View for Connection {
    type V = ConnectionModel;

    closed spec fn view(&self) -> ConnectionModel {
        ConnectionModel { url: self.url@, open: self.open, outbound: texts(self.outbound@) }
    }
}

impl Connection {
    /// Begins the session's connection. `established` says whether the
    /// embedding program could open a socket to `url`; if it could not, there
    /// is no connection.
    pub fn connect(url: &str, established: bool) -> (made: Result<Connection, ConnectionError>)
        ensures
            established ==> made is Ok && made->Ok_0@ == ConnectionModel::opened(url@),
            !established ==> made == Err::<Connection, ConnectionError>(ConnectionError::Unreachable),
    {
        if established {
            let connection = Connection { url: url.to_owned(), open: true, outbound: Vec::new() };
            assert(texts(connection.outbound@) =~= Seq::<Seq<char>>::empty());
            Ok(connection)
        } else {
            Err(ConnectionError::Unreachable)
        }
    }

    /// The endpoint of the connection.
    pub fn url(&self) -> (url: &String)
        ensures
            url@ == self@.url,
    {
        &self.url
    }

    /// Whether the connection is open.
    pub fn is_open(&self) -> (open: bool)
        ensures
            open == self@.open,
    {
        self.open
    }

    /// Accepts a frame for the socket. There is no acknowledgement: the
    /// frame is queued behind those that wait already. A closed connection
    /// accepts nothing.
    pub fn send(&mut self, frame: String) -> (sent: Result<(), SendError>)
        ensures
            final(self)@ == old(self)@.send(frame@),
            old(self)@.open ==> sent is Ok,
            !old(self)@.open ==> sent == Err::<(), SendError>(SendError::Closed),
    {
        if self.open {
            self.outbound.push(frame);
            assert(texts(self.outbound@) =~= texts(old(self).outbound@).push(frame@));
            Ok(())
        } else {
            Err(SendError::Closed)
        }
    }

    /// Takes out the frames that wait to be written to the socket, oldest
    /// first.
    pub fn take_outbound(&mut self) -> (frames: Vec<String>)
        ensures
            texts(frames@) == old(self)@.outbound,
            final(self)@ == old(self)@.flush(),
    {
        let mut frames: Vec<String> = Vec::new();
        assert(texts(frames@) =~= Seq::<Seq<char>>::empty());
        std::mem::swap(&mut self.outbound, &mut frames);
        frames
    }

    /// Records what became of a write to the socket: `accepted` says whether
    /// the socket took the frame. A rejected write is a failure of the
    /// socket, and closes the connection.
    pub fn record_write(&mut self, accepted: bool) -> (written: Result<(), SendError>)
        ensures
            accepted ==> written is Ok && final(self)@ == old(self)@,
            !accepted ==> written == Err::<(), SendError>(SendError::Rejected) && final(self)@
                == old(self)@.close(),
    {
        if accepted {
            Ok(())
        } else {
            self.open = false;
            Err(SendError::Rejected)
        }
    }

    /// Takes a frame that was read from the socket. While the connection is
    /// open the frame is published to the distributor as it is; after that
    /// nothing is distributed any more. Returns whether it was published.
    pub fn receive(&self, bus: &mut EventBus, frame: &str) -> (forwarded: bool)
        ensures
            forwarded == self@.open,
            self@.open ==> final(bus)@ == old(bus)@.publish(frame@),
            !self@.open ==> final(bus)@ == old(bus)@,
    {
        if self.open {
            bus.publish(frame);
            true
        } else {
            false
        }
    }

    /// Closes the connection, when the session ends or the socket fails.
    pub fn close(&mut self)
        ensures
            final(self)@ == old(self)@.close(),
    {
        self.open = false;
    }
}

/// A closed connection stays closed: no operation opens it again, every
/// later send fails to queue anything, and the endpoint is what it was.
pub proof fn law_closed_connection_stays_closed(connection: ConnectionModel, frame: Seq<char>)
    requires
        !connection.open,
    ensures
        connection.send(frame) == connection,
        !connection.flush().open,
        !connection.close().open,
        connection.flush().url == connection.url,
        connection.close().url == connection.url,
{
}

/// Frames leave in the order in which they were accepted: after two sends
/// on an open connection the second frame waits behind the first.
pub proof fn law_outbound_keeps_send_order(
    connection: ConnectionModel,
    first: Seq<char>,
    second: Seq<char>,
)
    requires
        connection.open,
    ensures
        connection.send(first).send(second).outbound == connection.outbound + seq![first, second],
{
    assert(connection.send(first).send(second).outbound =~= connection.outbound + seq![
        first,
        second,
    ]);
}

} // verus!
