//! What holds of every run of a client.

use vstd::prelude::*;

use crate::channel::stops;
use crate::client::ClientEventView;
use crate::client::ClientStepView;
use crate::client::ClientView;
use crate::message::MessageView;
use crate::txid::law_transaction_ids_differ;
use crate::txid::transaction_id;

verus! {

impl ClientView {
    /// Whether the event `e` stays within what a client can number: the
    /// requests made and to be made are no more than 2^32 - 1.
    pub open spec fn fits(self, e: ClientEventView) -> bool {
        e matches ClientEventView::Start { n_requests } ==> self.num_requests + n_requests
            <= u32::MAX
    }

    /// The state after the events of `events`, one by one.
    pub open spec fn run(self, events: Seq<ClientEventView>) -> ClientView
        decreases events.len(),
    {
        if events.len() == 0 {
            self
        } else {
            self.run(events.drop_last()).next(events.last())
        }
    }

    /// Whether every event of `events` fits when its turn comes.
    pub open spec fn runs_within(self, events: Seq<ClientEventView>) -> bool
        decreases events.len(),
    {
        if events.len() == 0 {
            true
        } else {
            self.runs_within(events.drop_last()) && self.run(events.drop_last()).fits(
                events.last(),
            )
        }
    }

    /// The number of answers, in the course of `events`, that carry the
    /// final counts.
    pub open spec fn reports(self, events: Seq<ClientEventView>) -> nat
        decreases events.len(),
    {
        if events.len() == 0 {
            0
        } else {
            self.reports(events.drop_last()) + if self.run(events.drop_last()).step(
                events.last(),
            ).report is Some {
                1nat
            } else {
                0nat
            }
        }
    }
}

/// Every step keeps what holds of a client between events.
pub proof fn lemma_next_keeps_inv(c: ClientView, e: ClientEventView)
    requires
        c.inv(),
        c.fits(e),
    ensures
        c.next(e).inv(),
{
}

/// Accounting. At every moment the client has counted no more results than
/// it made requests, and each result once. When its run has ended, the three
/// counts add up to the number of requests that it made: those without a
/// result are the unknown ones. The counts that it reports are these.
pub proof fn law_accounting(c: ClientView, events: Seq<ClientEventView>)
    requires
        c.inv(),
        c.runs_within(events),
    ensures
        c.run(events).inv(),
        c.run(events).status().total() + c.run(events).pending() == c.run(events).num_requests,
        c.run(events).exited ==> c.run(events).status().total() == c.run(events).num_requests,
    decreases events.len(),
{
    if events.len() > 0 {
        law_accounting(c, events.drop_last());
        lemma_next_keeps_inv(c.run(events.drop_last()), events.last());
    }
}

/// The end is final. A client that has seen the shutdown signal, or the end
/// of its channel, does nothing more: it makes no request, gives no report,
/// and its counts stay as they are.
pub proof fn law_stopped(c: ClientView, events: Seq<ClientEventView>)
    requires
        c.exited,
    ensures
        c.run(events) == c,
        c.reports(events) == 0,
        forall|e: ClientEventView| c.next(e) == c && c.step(e) == (ClientStepView {
            requests: Seq::empty(),
            report: None,
        }),
    decreases events.len(),
{
    if events.len() > 0 {
        law_stopped(c, events.drop_last());
    }
}

/// The counts are reported exactly once. In the course of any run of a
/// client that has not ended, no answer carries the counts before the end,
/// and exactly one has carried them once the run has ended: the answer to the
/// shutdown signal or to the end of the channel, which makes no request.
pub proof fn law_reports_once(c: ClientView, events: Seq<ClientEventView>)
    requires
        !c.exited,
    ensures
        c.reports(events) == if c.run(events).exited {
            1nat
        } else {
            0nat
        },
        forall|r: Option<MessageView>|
            stops(r) ==> (#[trigger] c.next(ClientEventView::Received(r))).exited && c.step(
                ClientEventView::Received(r),
            ) == (ClientStepView {
                requests: Seq::empty(),
                report: Some(c.next(ClientEventView::Received(r)).status()),
            }),
    decreases events.len(),
{
    if events.len() > 0 {
        let init = events.drop_last();
        law_reports_once(c, init);
        if c.run(init).exited {
            law_stopped(c.run(init), seq![events.last()]);
        }
    }
}

/// The requests of a batch are numbered on from the last request made, each
/// number once, so that no two requests of a client share a number or a
/// transaction id.
pub proof fn law_requests_numbered(c: ClientView, n_requests: u32)
    requires
        !c.exited,
        c.num_requests + n_requests <= u32::MAX,
    ensures
        c.requests(n_requests).len() == n_requests,
        forall|i: int|
            0 <= i < n_requests ==> (#[trigger] c.requests(n_requests)[i]).opid == c.num_requests
                + 1 + i,
        forall|i: int, j: int|
            0 <= i < j < n_requests ==> (#[trigger] c.requests(n_requests)[i]).opid != (
            #[trigger] c.requests(n_requests)[j]).opid,
        forall|i: int, j: int|
            0 <= i < j < n_requests ==> (#[trigger] c.requests(n_requests)[i]).txid != (
            #[trigger] c.requests(n_requests)[j]).txid,
{
    assert forall|i: int, j: int| 0 <= i < j < n_requests implies (#[trigger] c.requests(
        n_requests,
    )[i]).txid != (#[trigger] c.requests(n_requests)[j]).txid by {
        let a = (c.num_requests + 1 + i) as u32;
        let b = (c.num_requests + 1 + j) as u32;
        if transaction_id(c.id, a) == transaction_id(c.id, b) {
            law_transaction_ids_differ(c.id, a, c.id, b);
        }
    }
}

} // verus!
