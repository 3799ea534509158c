//! A client: it sends its requests in one batch, then takes the results as
//! they come, and ends when the coordinator tells it to.
//!
//! The client owns no channel. `protocol` takes one event and answers with
//! the requests to send; whoever runs the client sends them and receives.

use vstd::prelude::*;

use crate::channel::is_stop;
use crate::channel::received_view;
use crate::channel::stops;
use crate::message::message_views;
use crate::message::MessageType;
use crate::message::MessageView;
use crate::message::ProtocolMessage;
use crate::message::RequestStatus;
use crate::status::StatusReport;
use crate::txid::decimal;
use crate::txid::decimal_string;
use crate::txid::transaction_id;
use crate::txid::transaction_id_string;

pub mod laws;

verus! {

/// What happened outside the client, as the contracts see it.
pub ghost enum ClientEventView {
    Start { n_requests: u32 },
    Received(Option<MessageView>),
}

/// What happened outside the client.
#[derive(Debug)]
pub enum ClientEvent {
    /// The run begins: the client is to make `n_requests` requests.
    Start { n_requests: u32 },
    /// A blocking receive on the coordinator's channel returned: a message,
    /// or `None` where the coordinator's end of the channel is gone.
    Received(Option<ProtocolMessage>),
}

impl View for ClientEvent {
    type V = ClientEventView;

    open spec fn view(&self) -> ClientEventView {
        match self {
            ClientEvent::Start { n_requests } => ClientEventView::Start { n_requests: *n_requests },
            ClientEvent::Received(r) => ClientEventView::Received(received_view(*r)),
        }
    }
}

/// A client's answer to an event, as the contracts see it.
pub ghost struct ClientStepView {
    pub requests: Seq<MessageView>,
    pub report: Option<StatusReport>,
}

/// A client's answer to an event: the requests to send to the coordinator,
/// in order, and the final counts in the answer that ends the run.
#[derive(Debug)]
pub struct ClientStep {
    pub requests: Vec<ProtocolMessage>,
    pub report: Option<StatusReport>,
}

impl View for ClientStep {
    type V = ClientStepView;

    open spec fn view(&self) -> ClientStepView {
        ClientStepView { requests: message_views(self.requests@), report: self.report }
    }
}

/// The request number `seq` of the client `client`.
pub open spec fn request_of(client: u32, seq: u32) -> MessageView {
    MessageView {
        mtype: MessageType::ClientRequest,
        txid: transaction_id(client, seq),
        senderid: decimal(client as nat),
        opid: seq,
        cl_id: client,
    }
}

/// What a result tells the client of its transaction.
pub open spec fn result_status(m: MessageView) -> RequestStatus {
    match m.mtype {
        MessageType::ClientResultCommit => RequestStatus::Committed,
        MessageType::ClientResultAbort => RequestStatus::Aborted,
        _ => RequestStatus::Unknown,
    }
}

/// A client's state as the contracts see it.
pub ghost struct ClientView {
    pub id: u32,
    pub num_requests: u32,
    pub exited: bool,
    pub successful_ops: u64,
    pub failed_ops: u64,
    pub unknown_ops: u64,
}

impl ClientView {
    /// A client before anything has happened.
    pub open spec fn initial(id: u32) -> ClientView {
        ClientView {
            id,
            num_requests: 0,
            exited: false,
            successful_ops: 0,
            failed_ops: 0,
            unknown_ops: 0,
        }
    }

    /// The aggregate counts.
    pub open spec fn status(self) -> StatusReport {
        StatusReport {
            committed: self.successful_ops,
            aborted: self.failed_ops,
            unknown: self.unknown_ops,
        }
    }

    /// The number of requests whose result is still to come.
    pub open spec fn pending(self) -> int {
        self.num_requests - self.status().total()
    }

    /// What holds of a client between any two events: it has counted no
    /// more results than it made requests, and once it has ended, every
    /// request is counted.
    pub open spec fn inv(self) -> bool {
        &&& self.pending() >= 0
        &&& self.exited ==> self.pending() == 0
    }

    /// The state after one more transaction was counted under `status`.
    pub open spec fn counted(self, status: RequestStatus) -> ClientView {
        match status {
            RequestStatus::Committed => ClientView {
                successful_ops: (self.successful_ops + 1) as u64,
                ..self
            },
            RequestStatus::Aborted => ClientView {
                failed_ops: (self.failed_ops + 1) as u64,
                ..self
            },
            RequestStatus::Unknown => ClientView {
                unknown_ops: (self.unknown_ops + 1) as u64,
                ..self
            },
        }
    }

    /// The end of the run: every request without a result is counted as
    /// unknown.
    pub open spec fn exit(self) -> ClientView {
        ClientView {
            exited: true,
            unknown_ops: (self.unknown_ops + self.pending()) as u64,
            ..self
        }
    }

    /// The state after `n_requests` more requests; a client that has ended
    /// makes none.
    pub open spec fn started(self, n_requests: u32) -> ClientView {
        if self.exited {
            self
        } else {
            ClientView { num_requests: (self.num_requests + n_requests) as u32, ..self }
        }
    }

    /// The requests that a batch of `n_requests` holds: numbered on from the
    /// last one made. A client that has ended makes none.
    pub open spec fn requests(self, n_requests: u32) -> Seq<MessageView> {
        if self.exited {
            Seq::empty()
        } else {
            Seq::new(
                n_requests as nat,
                |i: int| request_of(self.id, (self.num_requests + 1 + i) as u32),
            )
        }
    }

    /// The state after a receive returned `received`. The shutdown signal
    /// and the end of the channel end the run. While results are to come,
    /// any other message is the next result and is counted; when none is to
    /// come, it is passed over.
    pub open spec fn received(self, received: Option<MessageView>) -> ClientView {
        if self.exited {
            self
        } else if stops(received) {
            self.exit()
        } else if self.pending() == 0 {
            self
        } else {
            self.counted(result_status(received->0))
        }
    }

    /// The state after the event `e`.
    pub open spec fn next(self, e: ClientEventView) -> ClientView {
        match e {
            ClientEventView::Start { n_requests } => self.started(n_requests),
            ClientEventView::Received(r) => self.received(r),
        }
    }

    /// The answer to the event `e`.
    pub open spec fn step(self, e: ClientEventView) -> ClientStepView {
        ClientStepView {
            requests: match e {
                ClientEventView::Start { n_requests } => self.requests(n_requests),
                ClientEventView::Received(_) => Seq::empty(),
            },
            report: if !self.exited && self.next(e).exited {
                Some(self.next(e).status())
            } else {
                None
            },
        }
    }
}

/// A client of a run.
#[derive(Debug)]
pub struct Client {
    id: u32,
    num_requests: u32,
    exited: bool,
    successful_ops: u64,
    failed_ops: u64,
    unknown_ops: u64,
}

impl View for Client {
    type V = ClientView;

    closed spec fn view(&self) -> ClientView {
        ClientView {
            id: self.id,
            num_requests: self.num_requests,
            exited: self.exited,
            successful_ops: self.successful_ops,
            failed_ops: self.failed_ops,
            unknown_ops: self.unknown_ops,
        }
    }
}

impl Client {
    /// What holds of every client that `new` made and that only the
    /// functions of this type changed.
    pub open spec fn well_formed(&self) -> bool {
        self@.inv()
    }

    /// A client that has made no request yet.
    pub fn new(id: u32) -> (r: Client)
        ensures
            r.well_formed(),
            r@ == ClientView::initial(id),
    {
        Client {
            id,
            num_requests: 0,
            exited: false,
            successful_ops: 0,
            failed_ops: 0,
            unknown_ops: 0,
        }
    }

    /// Whether the client has ended.
    pub fn has_exited(&self) -> (r: bool)
        ensures
            r == self@.exited,
    {
        self.exited
    }

    /// The number of requests made so far.
    pub fn num_requests(&self) -> (r: u32)
        ensures
            r == self@.num_requests,
    {
        self.num_requests
    }

    /// The aggregate counts of committed, aborted and unknown transactions.
    pub fn report_status(&self) -> (r: StatusReport)
        ensures
            r == self@.status(),
    {
        StatusReport {
            committed: self.successful_ops,
            aborted: self.failed_ops,
            unknown: self.unknown_ops,
        }
    }

    /// Ends the run and counts what is left without a result as unknown.
    fn exit(&mut self)
        requires
            old(self).well_formed(),
            !old(self)@.exited,
        ensures
            final(self).well_formed(),
            final(self)@ == old(self)@.exit(),
    {
        let counted: u64 = self.successful_ops + self.failed_ops + self.unknown_ops;
        let pending: u64 = self.num_requests as u64 - counted;
        self.unknown_ops = self.unknown_ops + pending;
        self.exited = true;
    }

    /// Makes the next request: its number is one more than the last, and
    /// its transaction id is made of the client's number and its own. The
    /// request is returned for sending. A client that has ended makes none.
    pub fn send_next_operation(&mut self) -> (r: Option<ProtocolMessage>)
        requires
            old(self).well_formed(),
            old(self)@.num_requests < u32::MAX,
        ensures
            final(self).well_formed(),
            final(self)@ == old(self)@.started(1),
            received_view(r) == if old(self)@.exited {
                None
            } else {
                Some(request_of(old(self)@.id, (old(self)@.num_requests + 1) as u32))
            },
    {
        if self.exited {
            return None;
        }
        self.num_requests = self.num_requests + 1;
        let txid = transaction_id_string(self.id, self.num_requests);
        let sender = decimal_string(self.id as u64);
        Some(
            ProtocolMessage::generate(
                MessageType::ClientRequest,
                txid,
                sender,
                self.num_requests,
                self.id,
            ),
        )
    }

    /// Takes what a receive returned while results are to come. A result is
    /// counted as committed or aborted by its tag, and any other message as
    /// unknown. The shutdown signal and the end of the channel end the run.
    /// When no result is to come, a message is passed over. Returns whether
    /// the client is still running.
    pub fn recv_result(&mut self, received: Option<ProtocolMessage>) -> (running: bool)
        requires
            old(self).well_formed(),
        ensures
            final(self).well_formed(),
            final(self)@ == old(self)@.received(received_view(received)),
            running == !final(self)@.exited,
    {
        if self.exited {
            return false;
        }
        if is_stop(&received) {
            self.exit();
            return false;
        }
        let counted: u64 = self.successful_ops + self.failed_ops + self.unknown_ops;
        if counted < self.num_requests as u64 {
            match received.unwrap().mtype {
                MessageType::ClientResultCommit => {
                    self.successful_ops = self.successful_ops + 1;
                },
                MessageType::ClientResultAbort => {
                    self.failed_ops = self.failed_ops + 1;
                },
                _ => {
                    self.unknown_ops = self.unknown_ops + 1;
                },
            }
        }
        true
    }

    /// Takes what a receive returned while the client only waits for the end
    /// of the run: the shutdown signal and the end of the channel end it, and
    /// anything else is passed over. Returns whether the client has ended.
    pub fn wait_for_exit_signal(&mut self, received: Option<ProtocolMessage>) -> (exited: bool)
        requires
            old(self).well_formed(),
        ensures
            final(self).well_formed(),
            final(self)@ == if !old(self)@.exited && stops(received_view(received)) {
                old(self)@.exit()
            } else {
                old(self)@
            },
            exited == final(self)@.exited,
    {
        if !self.exited && is_stop(&received) {
            self.exit();
        }
        self.exited
    }

    /// Takes one event and says what follows from it.
    ///
    /// At the start of the run the whole batch of requests is made at once
    /// and returned for sending. After that each receive is either the next
    /// result, which is counted, or the end of the run. The answer that ends
    /// the run carries the final counts; after it the client makes no request
    /// and counts nothing.
    pub fn protocol(&mut self, event: ClientEvent) -> (r: ClientStep)
        requires
            old(self).well_formed(),
            event matches ClientEvent::Start { n_requests } ==> old(self)@.num_requests + n_requests
                <= u32::MAX,
        ensures
            final(self).well_formed(),
            final(self)@ == old(self)@.next(event@),
            r@ == old(self)@.step(event@),
    {
        let was_exited = self.exited;
        let mut requests: Vec<ProtocolMessage> = Vec::new();
        assert(message_views(requests@) =~= Seq::<MessageView>::empty());
        match event {
            ClientEvent::Start { n_requests } => {
                let mut i: u32 = 0;
                while i < n_requests && !self.exited
                    invariant
                        i <= n_requests,
                        self.well_formed(),
                        self@.exited == old(self)@.exited,
                        !self@.exited ==> self@ == old(self)@.started(i),
                        self@.exited ==> self@ == old(self)@,
                        old(self)@.num_requests + n_requests <= u32::MAX,
                        message_views(requests@) == old(self)@.requests(i),
                    decreases n_requests - i,
                {
                    let ghost before = message_views(requests@);
                    let request = self.send_next_operation();
                    requests.push(request.unwrap());
                    assert(message_views(requests@) =~= before.push(
                        request_of(old(self)@.id, (old(self)@.num_requests + 1 + i) as u32),
                    ));
                    assert(old(self)@.requests((i + 1) as u32) =~= old(self)@.requests(i).push(
                        request_of(old(self)@.id, (old(self)@.num_requests + 1 + i) as u32),
                    ));
                    i = i + 1;
                }
            },
            ClientEvent::Received(received) => {
                let counted: u64 = self.successful_ops + self.failed_ops + self.unknown_ops;
                if counted < self.num_requests as u64 {
                    self.recv_result(received);
                } else {
                    self.wait_for_exit_signal(received);
                }
            },
        }
        let report = if !was_exited && self.exited {
            Some(self.report_status())
        } else {
            None
        };
        ClientStep { requests, report }
    }
}

} // verus!
