//! Decision logic of the byte relay between a client connection and the
//! spawned program: what each read chunk means, and that forwarded bytes
//! pass through verbatim and in order.

use vstd::prelude::*;
use crate::messages::append_bytes;

verus! {

/// Why the inbound direction (client to program) stops.
#[derive(Clone, Copy, Debug, PartialEq, Eq, Structural)]
pub enum InboundEnd {
    /// The client closed its write side (zero-length read).
    PeerClosed,
    /// The client sent a cancel byte (0x03) first in a chunk.
    Cancelled,
}

/// What to do with one chunk read from the client.
pub enum InboundAction {
    /// Write these bytes, verbatim, to the program's standard input.
    Forward(Vec<u8>),
    /// Stop the relay cleanly for the given reason.
    Close(InboundEnd),
}

/// What to do with one chunk read from the program's standard output.
pub enum OutboundAction {
    /// Write these bytes, verbatim, to the client connection.
    Forward(Vec<u8>),
    /// The program closed its standard output: stop the relay cleanly.
    Close,
}

/// A chunk that ends the inbound copy: empty (peer closed) or led by 0x03.
pub open spec fn inbound_terminal(chunk: Seq<u8>) -> bool {
    chunk.len() == 0 || chunk[0] == 3
}

/// Decides what one chunk read from the client means.
pub fn inbound_step(chunk: &Vec<u8>) -> (a: InboundAction)
    ensures
        match a {
            InboundAction::Forward(f) => !inbound_terminal(chunk@) && f@ == chunk@,
            InboundAction::Close(e) => {
                &&& e == InboundEnd::PeerClosed <==> chunk@.len() == 0
                &&& e == InboundEnd::Cancelled <==> chunk@.len() > 0 && chunk@[0] == 3
            },
        },
{
    if chunk.len() == 0 {
        InboundAction::Close(InboundEnd::PeerClosed)
    } else if chunk[0] == 3 {
        InboundAction::Close(InboundEnd::Cancelled)
    } else {
        let mut f: Vec<u8> = Vec::new();
        append_bytes(&mut f, chunk);
        InboundAction::Forward(f)
    }
}

/// Decides what one chunk read from the program's standard output means.
pub fn outbound_step(chunk: &Vec<u8>) -> (a: OutboundAction)
    ensures
        match a {
            OutboundAction::Forward(f) => chunk@.len() > 0 && f@ == chunk@,
            OutboundAction::Close => chunk@.len() == 0,
        },
{
    if chunk.len() == 0 {
        OutboundAction::Close
    } else {
        let mut f: Vec<u8> = Vec::new();
        append_bytes(&mut f, chunk);
        OutboundAction::Forward(f)
    }
}

/// All bytes the inbound copy forwards, given the chunks the client's
/// reads produce in order: the chunks up to the first terminal one,
/// concatenated unchanged.
pub open spec fn forwarded_inbound(reads: Seq<Seq<u8>>) -> Seq<u8>
    decreases reads.len(),
{
    if reads.len() == 0 {
        Seq::empty()
    } else if inbound_terminal(reads[0]) {
        Seq::empty()
    } else {
        reads[0] + forwarded_inbound(reads.drop_first())
    }
}

/// All bytes the outbound copy forwards, given the chunks the program's
/// reads produce in order: the chunks up to the first empty one,
/// concatenated unchanged.
pub open spec fn forwarded_outbound(reads: Seq<Seq<u8>>) -> Seq<u8>
    decreases reads.len(),
{
    if reads.len() == 0 {
        Seq::empty()
    } else if reads[0].len() == 0 {
        Seq::empty()
    } else {
        reads[0] + forwarded_outbound(reads.drop_first())
    }
}

/// Bytes the client writes during the relay reach the program unmodified
/// and in order: if the stream's first terminal chunk is `reads[k]` (or
/// there is none and `k` is the length), what is forwarded is exactly the
/// concatenation of the `k` chunks before it.
pub proof fn lemma_inbound_forwarded_prefix(reads: Seq<Seq<u8>>, k: int)
    requires
        0 <= k <= reads.len(),
        forall|i: int| 0 <= i < k ==> !inbound_terminal(#[trigger] reads[i]),
        k < reads.len() ==> inbound_terminal(reads[k]),
    ensures
        forwarded_inbound(reads) == reads.take(k).flatten(),
    decreases reads.len(),
{
    if k == 0 {
        assert(reads.take(0).flatten() =~= Seq::<u8>::empty());
        if reads.len() > 0 {
            assert(inbound_terminal(reads[0]));
        }
    } else {
        assert(!inbound_terminal(reads[0]));
        assert(forall|i: int|
            0 <= i < k - 1 ==> !inbound_terminal(#[trigger] reads.drop_first()[i]));
        lemma_inbound_forwarded_prefix(reads.drop_first(), k - 1);
        assert(reads.drop_first().take(k - 1) =~= reads.take(k).drop_first());
        assert(reads.take(k).first() == reads[0]);
        assert(reads.take(k).flatten() == reads[0] + reads.take(k).drop_first().flatten());
    }
}

/// The same, for the outbound direction: if the program's first empty
/// read is `reads[k]` (or there is none and `k` is the length), what is
/// forwarded is exactly the concatenation of the `k` chunks before it.
pub proof fn lemma_outbound_forwarded_prefix(reads: Seq<Seq<u8>>, k: int)
    requires
        0 <= k <= reads.len(),
        forall|i: int| 0 <= i < k ==> #[trigger] reads[i].len() > 0,
        k < reads.len() ==> reads[k].len() == 0,
    ensures
        forwarded_outbound(reads) == reads.take(k).flatten(),
    decreases reads.len(),
{
    if k == 0 {
        assert(reads.take(0).flatten() =~= Seq::<u8>::empty());
    } else {
        assert(reads[0].len() > 0);
        assert(forall|i: int| 0 <= i < k - 1 ==> #[trigger] reads.drop_first()[i].len() > 0);
        lemma_outbound_forwarded_prefix(reads.drop_first(), k - 1);
        assert(reads.drop_first().take(k - 1) =~= reads.take(k).drop_first());
        assert(reads.take(k).first() == reads[0]);
        assert(reads.take(k).flatten() == reads[0] + reads.take(k).drop_first().flatten());
    }
}

/// While no read is terminal, what is forwarded inbound is exactly the
/// concatenation of everything read.
pub proof fn lemma_inbound_verbatim(reads: Seq<Seq<u8>>)
    requires
        forall|i: int| 0 <= i < reads.len() ==> !inbound_terminal(#[trigger] reads[i]),
    ensures
        forwarded_inbound(reads) == reads.flatten(),
{
    lemma_inbound_forwarded_prefix(reads, reads.len() as int);
    assert(reads.take(reads.len() as int) =~= reads);
}

/// Bytes the program writes to its standard output reach the client
/// unmodified and in order: while no read is empty, what is forwarded is
/// exactly the concatenation of everything read.
pub proof fn lemma_outbound_verbatim(reads: Seq<Seq<u8>>)
    requires
        forall|i: int| 0 <= i < reads.len() ==> #[trigger] reads[i].len() > 0,
    ensures
        forwarded_outbound(reads) == reads.flatten(),
{
    lemma_outbound_forwarded_prefix(reads, reads.len() as int);
    assert(reads.take(reads.len() as int) =~= reads);
}

} // verus!
