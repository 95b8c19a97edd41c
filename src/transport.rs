use vstd::prelude::*;
use tokio_tungstenite::tungstenite::client::IntoClientRequest;
use crate::correlation::{CorrelationTable, Outcome, Resolution, all_outcomes_are, pending_ids, resolution_ids};
use crate::queue::{OutboundQueue, enqueued_all, lemma_enqueued_all};

verus! {

#[derive(Debug, Clone, Copy, PartialEq, Eq, Structural)]
pub enum ConnectionStatus {
    Disconnected,
    Connecting,
    Connected,
    Closing,
}

#[derive(Debug, Clone, Copy, PartialEq, Eq, Structural)]
pub enum ConnectionError {
    /// DNS, TCP or the WebSocket upgrade failed.
    HandshakeFailed,
    /// The endpoint cannot be turned into a WebSocket request.
    InvalidAddress,
}

#[derive(Debug, Clone, Copy, PartialEq, Eq, Structural)]
pub enum SendError {
    /// No connection is established.
    NotConnected,
    /// The write failed: the peer closed or the pipe broke.
    TransportClosed,
}

#[derive(Debug, Clone, Copy, PartialEq, Eq, Structural)]
pub enum ReceiveError {
    /// The peer closed the stream.
    Closed,
    /// A frame that cannot be read as an OCPP envelope.
    Malformed,
}

/// What the drain routine does after one attempt to write a frame.
#[derive(Debug, Clone, Copy, PartialEq, Eq, Structural)]
pub enum DrainStep {
    /// Go on with the next frame.
    Continue,
    /// Stop draining: the connection is gone and the session must be told.
    Disconnected,
}

/// One successful drain step on (written frames, queued frames): the front
/// queued frame is written.
pub open spec fn drain_step(written: Seq<String>, queued: Seq<String>) -> (Seq<String>, Seq<String>) {
    if queued.len() == 0 {
        (written, queued)
    } else {
        (written.push(queued[0]), queued.drop_first())
    }
}

/// Successful drain steps until the queue is empty.
pub open spec fn drained(written: Seq<String>, queued: Seq<String>) -> Seq<String>
    decreases queued.len(),
{
    if queued.len() == 0 {
        written
    } else {
        drained(written.push(queued[0]), queued.drop_first())
    }
}

/// Frames reach the transport in the order they were queued: draining a
/// client that has written `w` and queues `q`, after pushing `fs`, writes
/// `w`, then `q`, then `fs`, each exactly once.
pub proof fn lemma_drain_order(w: Seq<String>, q: Seq<String>, fs: Seq<String>)
    ensures
        drained(w, enqueued_all(q, fs)) == w + q + fs,
{
    lemma_enqueued_all(q, fs);
    lemma_drained(w, q + fs);
    assert(w + (q + fs) =~= w + q + fs);
}

proof fn lemma_drained(w: Seq<String>, q: Seq<String>)
    ensures
        drained(w, q) == w + q,
    decreases q.len(),
{
    if q.len() == 0 {
        assert(w + q =~= w);
    } else {
        lemma_drained(w.push(q[0]), q.drop_first());
        assert(w.push(q[0]) + q.drop_first() =~= w + q);
    }
}

/// Whether the WebSocket client accepts `address` as a request target.
pub uninterp spec fn address_accepted(address: Seq<char>) -> bool;

/// Relies on tungstenite's `IntoClientRequest` for `&str`: it parses the
/// address as a URI with a host and builds the upgrade request from it; the
/// outcome depends on the address alone.
#[verifier::external_body]
fn accepts_address(address: &str) -> (r: bool)
    ensures
        r == address_accepted(address@),
{
    address.into_client_request().is_ok()
}

/// The subprotocol tag that the upgrade request offers.
pub fn subprotocol() -> (r: &'static str)
    ensures
        r@ == "ocpp2.1"@,
{
    "ocpp2.1"
}

/// The transport side of one CSMS connection: its endpoint, its status and the
/// frames waiting to be written.
pub struct WebsocketClient {
    address: String,
    status: ConnectionStatus,
    queue: OutboundQueue,
    written: Ghost<Seq<String>>,
}

impl WebsocketClient {
    pub closed spec fn spec_address(&self) -> Seq<char> {
        self.address@
    }

    /// The CSMS endpoint URI.
    pub fn address(&self) -> (r: &String)
        ensures
            r@ == self.spec_address(),
    {
        &self.address
    }

    pub closed spec fn spec_status(&self) -> ConnectionStatus {
        self.status
    }

    pub closed spec fn pending_frames(&self) -> Seq<String> {
        self.queue@
    }

    /// The frames written to the transport so far, in the order written.
    pub closed spec fn written_frames(&self) -> Seq<String> {
        self.written@
    }

    pub fn new(address: &str) -> (r: Self)
        ensures
            r.spec_address() == address@,
            r.spec_status() == ConnectionStatus::Disconnected,
            r.pending_frames() == Seq::<String>::empty(),
            r.written_frames() == Seq::<String>::empty(),
    {
        WebsocketClient {
            address: address.to_owned(),
            status: ConnectionStatus::Disconnected,
            queue: OutboundQueue::new(),
            written: Ghost(Seq::empty()),
        }
    }

    pub fn status(&self) -> (r: ConnectionStatus)
        ensures
            r == self.spec_status(),
    {
        self.status
    }

    pub fn queue(&self) -> (r: &OutboundQueue)
        ensures
            r@ == self.pending_frames(),
    {
        &self.queue
    }

    /// Starts a connection attempt. An address that cannot become a request
    /// fails with `InvalidAddress` and changes nothing; otherwise the status
    /// becomes `Connecting` and the caller performs the handshake.
    pub fn connect(&mut self) -> (r: Result<(), ConnectionError>)
        ensures
            final(self).spec_address() == old(self).spec_address(),
            final(self).written_frames() == old(self).written_frames(),
            final(self).pending_frames() == old(self).pending_frames(),
            address_accepted(old(self).spec_address()) ==> r is Ok && final(self).spec_status()
                == ConnectionStatus::Connecting,
            !address_accepted(old(self).spec_address()) ==> r == Err::<(), _>(
                ConnectionError::InvalidAddress,
            ) && final(self).spec_status() == old(self).spec_status(),
    {
        if accepts_address(self.address.as_str()) {
            self.status = ConnectionStatus::Connecting;
            Ok(())
        } else {
            Err(ConnectionError::InvalidAddress)
        }
    }

    /// Records how the handshake of a connection attempt ended.
    pub fn handshake_finished(&mut self, succeeded: bool) -> (r: Result<(), ConnectionError>)
        ensures
            final(self).spec_address() == old(self).spec_address(),
            final(self).written_frames() == old(self).written_frames(),
            final(self).pending_frames() == old(self).pending_frames(),
            succeeded ==> r is Ok && final(self).spec_status() == ConnectionStatus::Connected,
            !succeeded ==> r == Err::<(), _>(ConnectionError::HandshakeFailed) && final(self).spec_status() == ConnectionStatus::Disconnected,
    {
        if succeeded {
            self.status = ConnectionStatus::Connected;
            Ok(())
        } else {
            self.status = ConnectionStatus::Disconnected;
            Err(ConnectionError::HandshakeFailed)
        }
    }

    /// Buffers a frame for the drain routine, whatever the connection status.
    pub fn push_message(&mut self, message: String)
        ensures
            final(self).spec_address() == old(self).spec_address(),
            final(self).written_frames() == old(self).written_frames(),
            final(self).spec_status() == old(self).spec_status(),
            final(self).pending_frames() == old(self).pending_frames().push(message),
    {
        self.queue.enqueue(message);
    }

    /// Records a direct write of `message` to the transport, whose result
    /// the caller passes in as `write`. Without a connection nothing is
    /// written and it fails with `NotConnected`. A successful write appends
    /// the frame to the written frames; a failed one marks the connection lost
    /// and fails with `TransportClosed`. The outbound queue is never touched.
    pub fn send(&mut self, message: String, write: Result<(), SendError>) -> (r: Result<
        (),
        SendError,
    >)
        ensures
            final(self).spec_address() == old(self).spec_address(),
            final(self).pending_frames() == old(self).pending_frames(),
            old(self).spec_status() != ConnectionStatus::Connected ==> r == Err::<(), _>(
                SendError::NotConnected,
            ) && final(self).spec_status() == old(self).spec_status() && final(self).written_frames()
                == old(self).written_frames(),
            old(self).spec_status() == ConnectionStatus::Connected && write is Ok ==> r is Ok
                && final(self).spec_status() == ConnectionStatus::Connected
                && final(self).written_frames() == old(self).written_frames().push(message),
            old(self).spec_status() == ConnectionStatus::Connected && write is Err ==> r == Err::<
                (),
                _,
            >(SendError::TransportClosed) && final(self).spec_status()
                == ConnectionStatus::Disconnected && final(self).written_frames() == old(self).written_frames(),
    {
        if self.status != ConnectionStatus::Connected {
            return Err(SendError::NotConnected);
        }
        match write {
            Ok(()) => {
                proof {
                    self.written = Ghost(self.written@.push(message));
                }
                Ok(())
            },
            Err(_) => {
                self.status = ConnectionStatus::Disconnected;
                Err(SendError::TransportClosed)
            },
        }
    }

    /// The frame that the drain routine writes next: `NotConnected` without a
    /// connection, `None` when nothing waits.
    pub fn next_frame(&self) -> (r: Result<Option<&String>, SendError>)
        ensures
            self.spec_status() != ConnectionStatus::Connected ==> r == Err::<Option<&String>, _>(
                SendError::NotConnected,
            ),
            self.spec_status() == ConnectionStatus::Connected && self.pending_frames().len() == 0
                ==> r == Ok::<Option<&String>, SendError>(None),
            self.spec_status() == ConnectionStatus::Connected && self.pending_frames().len() > 0
                ==> r == Ok::<Option<&String>, SendError>(Some(&self.pending_frames()[0])),
    {
        if self.status != ConnectionStatus::Connected {
            Err(SendError::NotConnected)
        } else {
            Ok(self.queue.peek())
        }
    }

    /// Records the result of writing the frame `next_frame` gave. A written
    /// frame moves from the front of the queue to the written frames; after a
    /// failed write every frame stays queued for replay and draining stops,
    /// and a closed transport marks the connection lost.
    pub fn frame_written(&mut self, result: Result<(), SendError>) -> (r: DrainStep)
        ensures
            final(self).spec_address() == old(self).spec_address(),
            result is Ok ==> r == DrainStep::Continue && final(self).spec_status() == old(self).spec_status() && (final(self).written_frames(), final(self).pending_frames())
                == drain_step(old(self).written_frames(), old(self).pending_frames()),
            result is Err ==> r == DrainStep::Disconnected && final(self).pending_frames() == old(self).pending_frames() && final(self).written_frames() == old(self).written_frames(),
            result == Err::<(), _>(SendError::TransportClosed) ==> final(self).spec_status()
                == ConnectionStatus::Disconnected,
            result == Err::<(), _>(SendError::NotConnected) ==> final(self).spec_status() == old(self).spec_status(),
    {
        match result {
            Ok(()) => {
                let _ = self.queue.take_next();
                proof {
                    if old(self).pending_frames().len() > 0 {
                        self.written = Ghost(self.written@.push(old(self).pending_frames()[0]));
                    }
                }
                DrainStep::Continue
            },
            Err(SendError::TransportClosed) => {
                self.status = ConnectionStatus::Disconnected;
                DrainStep::Disconnected
            },
            Err(SendError::NotConnected) => DrainStep::Disconnected,
        }
    }

    /// The transport reported closure: the connection is marked lost, every
    /// pending request resolves as lost with it, and queued frames stay for
    /// replay after reconnection.
    pub fn connection_lost(&mut self, table: &mut CorrelationTable) -> (r: Vec<Resolution>)
        ensures
            final(self).spec_address() == old(self).spec_address(),
            final(self).written_frames() == old(self).written_frames(),
            final(self).spec_status() == ConnectionStatus::Disconnected,
            final(self).pending_frames() == old(self).pending_frames(),
            final(table)@ == Seq::<crate::correlation::PendingRequest>::empty(),
            final(table).wf(),
            resolution_ids(r@) == pending_ids(old(table)@),
            all_outcomes_are(r@, Outcome::ConnectionLost),
    {
        self.status = ConnectionStatus::Disconnected;
        table.disconnect()
    }

    /// Starts a graceful shutdown; closing a closed connection changes nothing.
    pub fn close(&mut self)
        ensures
            final(self).spec_address() == old(self).spec_address(),
            final(self).written_frames() == old(self).written_frames(),
            final(self).pending_frames() == old(self).pending_frames(),
            old(self).spec_status() == ConnectionStatus::Disconnected ==> final(self).spec_status()
                == ConnectionStatus::Disconnected,
            old(self).spec_status() != ConnectionStatus::Disconnected ==> final(self).spec_status()
                == ConnectionStatus::Closing,
    {
        if self.status != ConnectionStatus::Disconnected {
            self.status = ConnectionStatus::Closing;
        }
    }

    /// The peer finished the close handshake.
    pub fn closed(&mut self)
        ensures
            final(self).spec_address() == old(self).spec_address(),
            final(self).written_frames() == old(self).written_frames(),
            final(self).pending_frames() == old(self).pending_frames(),
            final(self).spec_status() == ConnectionStatus::Disconnected,
    {
        self.status = ConnectionStatus::Disconnected;
    }
}

} // verus!
