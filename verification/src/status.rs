//! The aggregate counts that every role reports when it ends, and the line
//! of text that shows them.

use vstd::prelude::*;
use vstd::string::*;

use crate::channel::Peer;
use crate::channel::Role;
use crate::txid::decimal;
use crate::txid::decimal_string;

verus! {

/// The width of the field that holds the name of a role.
pub const LABEL_WIDTH: usize = 16;

/// The width of the field that holds a count.
pub const COUNT_WIDTH: usize = 6;

/// How many transactions a role saw commit, saw abort, and could not settle.
#[derive(Clone, Copy, Debug, PartialEq, Eq, Structural)]
pub struct StatusReport {
    pub committed: u64,
    pub aborted: u64,
    pub unknown: u64,
}

/// `n` blanks.
pub open spec fn blanks(n: int) -> Seq<char> {
    Seq::new(
        if n >= 0 {
            n as nat
        } else {
            0
        },
        |i: int| ' ',
    )
}

/// The text `s` at the left end of a field of `width` characters; a longer
/// text stays as it is.
pub open spec fn left_aligned(s: Seq<char>, width: int) -> Seq<char> {
    s + blanks(width - s.len())
}

/// The text `s` at the right end of a field of `width` characters; a longer
/// text stays as it is.
pub open spec fn right_aligned(s: Seq<char>, width: int) -> Seq<char> {
    blanks(width - s.len()) + s
}

/// The line that shows the counts `r` of the role `label`: the name of the
/// role in a field of 16 characters, then each count under its heading, in a
/// field of 6 characters, the three parts set apart by tabs.
pub open spec fn status_line(label: Seq<char>, r: StatusReport) -> Seq<char> {
    left_aligned(label, LABEL_WIDTH as int) + ":\tCommitted: "@ + right_aligned(
        decimal(r.committed as nat),
        COUNT_WIDTH as int,
    ) + "\tAborted: "@ + right_aligned(decimal(r.aborted as nat), COUNT_WIDTH as int)
        + "\tUnknown: "@ + right_aligned(decimal(r.unknown as nat), COUNT_WIDTH as int)
}

/// The name under which a peer reports: its kind and its number.
pub open spec fn peer_label(peer: Peer) -> Seq<char> {
    match peer.role {
        Role::Client => "client_"@ + decimal(peer.id as nat),
        Role::Participant => "participant_"@ + decimal(peer.id as nat),
    }
}

/// As many blanks as `width` exceeds `len` by.
fn padding(len: usize, width: usize) -> (s: String)
    ensures
        s@ == blanks(width - len),
{
    proof {
        reveal_strlit(" ");
    }
    let mut s = String::new();
    let mut i: usize = len;
    while i < width
        invariant
            s@ == blanks(i - len),
            i >= len,
            i <= width || i == len,
            " "@ == seq![' '],
        decreases width - i,
    {
        s.append(" ");
        i = i + 1;
        assert(s@ =~= blanks(i - len));
    }
    assert(s@ =~= blanks(width - len));
    s
}

/// Adds the count `n` to `line`, at the right end of its field.
fn append_count(line: &mut String, n: u64)
    ensures
        final(line)@ == old(line)@ + right_aligned(decimal(n as nat), COUNT_WIDTH as int),
{
    let digits = decimal_string(n);
    let pad = padding(digits.as_str().unicode_len(), COUNT_WIDTH);
    line.append(pad.as_str());
    line.append(digits.as_str());
    assert(line@ =~= old(line)@ + right_aligned(decimal(n as nat), COUNT_WIDTH as int));
}

impl StatusReport {
    /// The number of transactions that the report accounts for.
    pub open spec fn total(self) -> int {
        self.committed + self.aborted + self.unknown
    }

    /// The line that shows these counts for the role `label`.
    pub fn line(&self, label: &str) -> (s: String)
        ensures
            s@ == status_line(label@, *self),
    {
        let mut s = String::from_str(label);
        let pad = padding(label.unicode_len(), LABEL_WIDTH);
        s.append(pad.as_str());
        s.append(":\tCommitted: ");
        append_count(&mut s, self.committed);
        s.append("\tAborted: ");
        append_count(&mut s, self.aborted);
        s.append("\tUnknown: ");
        append_count(&mut s, self.unknown);
        s
    }
}

impl Peer {
    /// The name under which this peer reports.
    pub fn label(&self) -> (s: String)
        ensures
            s@ == peer_label(*self),
    {
        let mut s = match self.role {
            Role::Client => String::from_str("client_"),
            Role::Participant => String::from_str("participant_"),
        };
        let number = decimal_string(self.id as u64);
        s.append(number.as_str());
        s
    }
}

} // verus!
