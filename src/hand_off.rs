use vstd::prelude::*;
use crate::state::Web3State;
use async_std::channel::{Receiver, Sender};

verus! {

#[verifier::external_type_specification]
#[verifier::external_body]
#[verifier::reject_recursive_types(T)]
pub struct ExSender<T>(Sender<T>);

#[verifier::external_type_specification]
#[verifier::external_body]
#[verifier::reject_recursive_types(T)]
pub struct ExReceiver<T>(Receiver<T>);

/// The messages waiting in a channel, oldest first, as seen from its receiver.
pub uninterp spec fn queued(rx: Receiver<Web3State>) -> Seq<Web3State>;

/// The bound that a channel was created with, as seen from its receiver.
pub uninterp spec fn bound_of(rx: Receiver<Web3State>) -> nat;

/// The number of results that may wait in the slot at one time.
pub const SLOT_CAPACITY: usize = 1;

/// A bounded channel from the task that connects a wallet to the update loop.
///
/// Both ends are held here and never handed out, so the channel stays open
/// and changes only through the methods below.
pub struct HandOff {
    tx: Sender<Web3State>,
    rx: Receiver<Web3State>,
}

/// Relies on `async_std::channel::bounded` (async-channel's `bounded`): a new
/// open channel with room for `cap` messages, empty. It panics on a zero `cap`.
#[verifier::external_body]
fn channel_bounded(cap: usize) -> (r: HandOff)
    requires
        cap > 0,
    ensures
        queued(r.rx) == Seq::<Web3State>::empty(),
        bound_of(r.rx) == cap,
{
    let (tx, rx) = async_std::channel::bounded(cap);
    HandOff { tx, rx }
}

/// Relies on `async_std::channel::Sender::try_send`: on an open channel the
/// message is appended when fewer than the bound are waiting, and otherwise
/// handed back in `TrySendError::Full` with the channel unchanged.
#[verifier::external_body]
fn channel_try_send(h: &mut HandOff, msg: Web3State) -> (r: Result<(), Web3State>)
    ensures
        bound_of(final(h).rx) == bound_of(old(h).rx),
        queued(old(h).rx).len() < bound_of(old(h).rx) ==> r is Ok
            && queued(final(h).rx) == queued(old(h).rx).push(msg),
        queued(old(h).rx).len() >= bound_of(old(h).rx) ==> (r matches Err(m) && m == msg)
            && queued(final(h).rx) == queued(old(h).rx),
{
    h.tx.try_send(msg).map_err(|e| e.into_inner())
}

/// Relies on `async_std::channel::Receiver::try_recv`: on an open channel it
/// removes and returns the oldest message, or reports `Empty` without waiting.
#[verifier::external_body]
fn channel_try_recv(h: &mut HandOff) -> (r: Option<Web3State>)
    ensures
        bound_of(final(h).rx) == bound_of(old(h).rx),
        queued(old(h).rx).len() > 0 ==> r == Some(queued(old(h).rx)[0])
            && queued(final(h).rx) == queued(old(h).rx).drop_first(),
        queued(old(h).rx).len() == 0 ==> r is None && queued(final(h).rx) == queued(old(h).rx),
{
    h.rx.try_recv().ok()
}

impl View for HandOff {
    type V = Option<Web3State>;

    /// The result waiting in the slot, if any.
    closed spec fn view(&self) -> Option<Web3State> {
        if queued(self.rx).len() == 0 {
            None
        } else {
            Some(queued(self.rx)[0])
        }
    }
}

impl HandOff {
    /// The channel has room for one result and holds at most that.
    pub closed spec fn wf(&self) -> bool {
        &&& bound_of(self.rx) == SLOT_CAPACITY
        &&& queued(self.rx).len() <= SLOT_CAPACITY
    }

    /// An empty slot.
    pub fn new() -> (r: Self)
        ensures
            r.wf(),
            r@ is None,
    {
        channel_bounded(SLOT_CAPACITY)
    }

    /// Puts `s` into the slot if it is free; otherwise hands `s` back and
    /// leaves the waiting result as it was.
    pub fn offer(&mut self, s: Web3State) -> (r: Result<(), Web3State>)
        requires
            old(self).wf(),
        ensures
            final(self).wf(),
            old(self)@ is None ==> r is Ok && final(self)@ == Some(s),
            old(self)@ is Some ==> (r matches Err(m) && m == s) && final(self)@ == old(self)@,
    {
        let r = channel_try_send(self, s);
        proof {
            if queued(old(self).rx).len() == 0 {
                assert(queued(self.rx) =~= seq![s]);
            }
        }
        r
    }

    /// Takes the waiting result out of the slot, without waiting for one.
    pub fn take(&mut self) -> (r: Option<Web3State>)
        requires
            old(self).wf(),
        ensures
            final(self).wf(),
            r == old(self)@,
            final(self)@ is None,
    {
        channel_try_recv(self)
    }
}

} // verus!
