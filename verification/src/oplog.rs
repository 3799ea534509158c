//! The operation log: the append-only record of what one role observed.
//!
//! The log lives in memory, in the order of the appends. Whoever runs the role
//! copies each record to durable storage before it hands the role's next
//! messages to a channel; `path` names the place that the role was given for it.

use vstd::prelude::*;
use vstd::string::*;

use crate::message::tag_name;
use crate::message::MessageType;
use crate::message::MessageView;
use crate::message::ProtocolMessage;
use crate::txid::decimal;
use crate::txid::decimal_string;

verus! {

/// A log record as the contracts see it.
pub ghost struct RecordView {
    pub mtype: MessageType,
    pub txid: Seq<char>,
    pub senderid: Seq<char>,
    pub opid: u32,
}

/// The record that logging the message `m` leaves.
pub open spec fn record_of(m: MessageView) -> RecordView {
    RecordView { mtype: m.mtype, txid: m.txid, senderid: m.senderid, opid: m.opid }
}

/// The line of text that stands for the record `r` in the durable copy of a
/// log: the name of the tag, the transaction id, the sender and the number of
/// the operation, set apart by tabs.
pub open spec fn record_line(r: RecordView) -> Seq<char> {
    tag_name(r.mtype) + "\t"@ + r.txid + "\t"@ + r.senderid + "\t"@ + decimal(r.opid as nat)
}

/// One entry of the log.
#[derive(Debug)]
pub struct LogRecord {
    pub mtype: MessageType,
    pub txid: String,
    pub senderid: String,
    pub opid: u32,
}

impl View for LogRecord {
    type V = RecordView;

    open spec fn view(&self) -> RecordView {
        RecordView {
            mtype: self.mtype,
            txid: self.txid@,
            senderid: self.senderid@,
            opid: self.opid,
        }
    }
}

impl LogRecord {
    /// The line of text that stands for this record in the durable copy of
    /// the log, without the end of the line.
    pub fn line(&self) -> (s: String)
        ensures
            s@ == record_line(self@),
    {
        let mut s = String::from_str(self.mtype.name());
        s.append("\t");
        s.append(self.txid.as_str());
        s.append("\t");
        s.append(self.senderid.as_str());
        s.append("\t");
        let number = decimal_string(self.opid as u64);
        s.append(number.as_str());
        s
    }
}

/// The log of one role. Records are only ever added at the end.
#[derive(Debug)]
pub struct OpLog {
    path: String,
    records: Vec<LogRecord>,
}

impl View for OpLog {
    type V = Seq<RecordView>;

    closed spec fn view(&self) -> Seq<RecordView> {
        Seq::new(self.records@.len(), |i: int| self.records@[i]@)
    }
}

impl OpLog {
    /// The place that the role was given for its durable copy.
    pub closed spec fn spec_path(&self) -> Seq<char> {
        self.path@
    }

    /// An empty log for the place `path`.
    pub fn new(path: String) -> (r: Self)
        ensures
            r@ == Seq::<RecordView>::empty(),
            r.spec_path() == path@,
    {
        let r = OpLog { path, records: Vec::new() };
        assert(r@ =~= Seq::<RecordView>::empty());
        r
    }

    /// Adds one record at the end; every earlier record stays as it was.
    pub fn append(&mut self, t: MessageType, tid: String, sid: String, oid: u32)
        ensures
            final(self)@ == old(self)@.push(
                RecordView { mtype: t, txid: tid@, senderid: sid@, opid: oid },
            ),
            final(self).spec_path() == old(self).spec_path(),
    {
        self.records.push(LogRecord { mtype: t, txid: tid, senderid: sid, opid: oid });
        assert(self@ =~= old(self)@.push(
            RecordView { mtype: t, txid: tid@, senderid: sid@, opid: oid },
        ));
    }

    /// Adds the record of the message `m` at the end.
    pub fn append_message(&mut self, m: &ProtocolMessage)
        ensures
            final(self)@ == old(self)@.push(record_of(m@)),
            final(self).spec_path() == old(self).spec_path(),
    {
        self.append(m.mtype, m.txid.clone(), m.senderid.clone(), m.opid);
    }

    /// The number of records.
    pub fn len(&self) -> (n: usize)
        ensures
            n == self@.len(),
    {
        self.records.len()
    }

    /// The record at position `i`, counted from the oldest.
    pub fn get(&self, i: usize) -> (r: Option<&LogRecord>)
        ensures
            i < self@.len() ==> r is Some && r->0@ == self@[i as int],
            i >= self@.len() ==> r is None,
    {
        if i < self.records.len() {
            Some(&self.records[i])
        } else {
            None
        }
    }

    /// The place that the role was given for its durable copy.
    pub fn path(&self) -> (p: &String)
        ensures
            p@ == self.spec_path(),
    {
        &self.path
    }
}

} // verus!
