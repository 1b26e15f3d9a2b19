//! Requests to the network task, and the bounded channel that carries them.

use crate::chain::HeaderHash;
use futures::sync::mpsc::Sender;
use vstd::prelude::*;

verus! {

/// The peer a header or a block came from; what is asked next goes to the
/// same peer.
#[derive(Clone, Copy, Debug, PartialEq, Eq, Hash)]
pub struct NodeId {
    pub id: u64,
}

/// A request for the network task to carry to a peer.
#[derive(Clone, Debug, PartialEq, Eq)]
pub enum NetworkMsg {
    /// Ask `node_id` for the headers that lead from one of `from` to `to`.
    PullHeaders { node_id: NodeId, from: Vec<HeaderHash>, to: HeaderHash },
    /// Ask the peer for the block with this identifier.
    GetNextBlock(NodeId, HeaderHash),
}

/// What became of a message handed to the channel.
#[derive(Clone, Copy, Debug, PartialEq, Eq)]
pub enum SendOutcome {
    /// The channel took the message.
    Delivered,
    /// The channel was at capacity; the message is lost.
    Full,
    /// The receiving end is gone; the message is lost.
    Disconnected,
}

/// `futures::sync::mpsc::Sender`, the sending end of a bounded channel between
/// tasks. The verifier sees nothing inside it and nothing is claimed of it.
#[verifier::external_type_specification]
#[verifier::external_body]
#[verifier::reject_recursive_types(T)]
pub struct ExSender<T>(Sender<T>);

/// The sending end of the bounded channel to the network task. Beside the
/// channel it keeps, for the proofs only, the list of what was handed to it.
pub struct MessageBox {
    sender: Sender<NetworkMsg>,
    handed: Ghost<Seq<NetworkMsg>>,
}

/// `Sender::try_send` of the `futures` crate, which never blocks: it either
/// enqueues the message or gives it back at once, saying whether the channel
/// was full or the receiver gone. Which of the three happens depends on the
/// channel, so nothing is claimed of the outcome.
#[verifier::external_body]
fn sender_try_send(sender: &mut Sender<NetworkMsg>, msg: NetworkMsg) -> (outcome: SendOutcome) {
    match sender.try_send(msg) {
        Ok(()) => SendOutcome::Delivered,
        Err(e) => if e.is_full() {
            SendOutcome::Full
        } else {
            SendOutcome::Disconnected
        },
    }
}

impl MessageBox {
    /// The messages handed to the channel through this box so far, oldest
    /// first, whether or not the channel took them.
    pub closed spec fn handed(&self) -> Seq<NetworkMsg> {
        self.handed@
    }

    /// A box around the sending end of a channel; nothing was handed to it yet.
    pub fn new(sender: Sender<NetworkMsg>) -> (outbox: MessageBox)
        ensures
            outbox.handed() == Seq::<NetworkMsg>::empty(),
    {
        MessageBox { sender, handed: Ghost(Seq::empty()) }
    }

    /// Hands `msg` to the channel without waiting. A message the channel does
    /// not take is dropped; the outcome says which it was.
    pub fn try_send(&mut self, msg: NetworkMsg) -> (outcome: SendOutcome)
        ensures
            final(self).handed() == old(self).handed().push(msg),
    {
        proof {
            self.handed@ = self.handed@.push(msg);
        }
        sender_try_send(&mut self.sender, msg)
    }
}

} // verus!
