//! The progress-output handle: the endpoint through which a running
//! computation reports a human-readable status line.  The handle wraps a
//! multi-producer channel endpoint owned by the external consumer that
//! drains the messages; its view is the sequence of messages emitted
//! through it, in order.

use vstd::prelude::*;
use std::sync::mpsc::Sender;

verus! {

/// Declares std::sync::mpsc::Sender, the sending half of a multi-producer
/// channel, so a handle can own one.  The value is opaque here; all that is
/// assumed of it stands on `send_raw` below.
#[verifier::external_type_specification]
#[verifier::external_body]
#[verifier::reject_recursive_types(T)]
pub struct ExSender<T>(Sender<T>);

/// Relies on std::sync::mpsc::Sender::send: delivers `msg` to the receiving
/// end of the channel.  A send can fail only when the receiver has hung up;
/// progress reporting is best-effort, so that error is discarded rather
/// than failing the build step.
#[verifier::external_body]
fn send_raw(tx: &Sender<String>, msg: String) {
    let _ = tx.send(msg);
}

/// A progress sink for build computations.  Its view records the messages
/// that were emitted through this handle, oldest first.
pub struct Handle {
    tx: Sender<String>,
    log: Ghost<Seq<Seq<char>>>,
}

impl View for Handle {
    type V = Seq<Seq<char>>;

    closed spec fn view(&self) -> Seq<Seq<char>> {
        self.log@
    }
}

impl Handle {
    /// Wraps a channel endpoint into a fresh handle with an empty emission
    /// record.
    pub fn new(tx: Sender<String>) -> (h: Handle)
        ensures
            h@ == Seq::<Seq<char>>::empty(),
    {
        Handle { tx, log: Ghost(Seq::empty()) }
    }

    /// Emits one status message through the handle.
    pub fn send(&mut self, msg: String)
        ensures
            final(self)@ == old(self)@.push(msg@),
    {
        self.log = Ghost(self.log@.push(msg@));
        send_raw(&self.tx, msg);
    }
}

} // verus!
