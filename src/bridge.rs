use vstd::prelude::*;
use crate::address::AccountId;
use crate::hand_off::HandOff;
use crate::state::{ConnectError, ProviderError, Receive, Send, WalletAddress, Web3State};

verus! {

/// The provider's answer to a request for accounts, with the list as a sequence.
pub open spec fn accounts_view(accounts: Result<Vec<AccountId>, ProviderError>) -> Result<
    Seq<AccountId>,
    ProviderError,
> {
    match accounts {
        Ok(v) => Ok(v@),
        Err(e) => Err(e),
    }
}

/// What a completed connect request hands over: a state with the first
/// account returned, or the reason there is none.
pub open spec fn outcome_of(accounts: Result<Seq<AccountId>, ProviderError>) -> Result<
    Web3State,
    ConnectError,
> {
    match accounts {
        Ok(a) => if a.len() > 0 {
            Ok(Web3State { wallet_address: WalletAddress(Some(a[0])) })
        } else {
            Err(ConnectError::EmptyAccountList)
        },
        Err(e) => Err(ConnectError::Provider(e)),
    }
}

/// The slot after offering `s`: a free slot takes it, an occupied one keeps
/// what it holds.
pub open spec fn offered(slot: Option<Web3State>, s: Web3State) -> Option<Web3State> {
    if slot is None {
        Some(s)
    } else {
        slot
    }
}

/// The slot after a completed connect request tries to hand over its outcome.
pub open spec fn delivered(slot: Option<Web3State>, accounts: Result<Seq<AccountId>, ProviderError>) -> Option<
    Web3State,
> {
    match outcome_of(accounts) {
        Ok(s) => offered(slot, s),
        Err(_) => slot,
    }
}

/// The connection state after a poll that found `slot`: a waiting result
/// overwrites the address, an empty slot leaves the state alone.
pub open spec fn polled(slot: Option<Web3State>, state: Web3State) -> Web3State {
    match slot {
        Some(s) => Web3State { wallet_address: s.wallet_address },
        None => state,
    }
}

/// Turns the provider's answer into the state to hand over.
pub fn connect_outcome(accounts: Result<Vec<AccountId>, ProviderError>) -> (r: Result<
    Web3State,
    ConnectError,
>)
    ensures
        r == outcome_of(accounts_view(accounts)),
{
    match accounts {
        Ok(v) => {
            if v.len() > 0 {
                Ok(Web3State::new(Some(v[0])))
            } else {
                Err(ConnectError::EmptyAccountList)
            }
        },
        Err(e) => Err(ConnectError::Provider(e)),
    }
}

/// Hands the outcome of a completed connect request to the update loop. A
/// result that finds the slot occupied is dropped.
pub fn deliver(h: &mut HandOff, accounts: Result<Vec<AccountId>, ProviderError>) -> (r: Result<
    (),
    ConnectError,
>)
    requires
        old(h).wf(),
    ensures
        final(h).wf(),
        final(h)@ == delivered(old(h)@, accounts_view(accounts)),
        outcome_of(accounts_view(accounts)) matches Err(e) ==> (r matches Err(x) && x == e),
        outcome_of(accounts_view(accounts)) is Ok ==> (old(h)@ is None <==> r is Ok),
        outcome_of(accounts_view(accounts)) is Ok && old(h)@ is Some ==> (r matches Err(x) && x
            == ConnectError::ChannelSaturated),
{
    match connect_outcome(accounts) {
        Ok(s) => match h.offer(s) {
            Ok(()) => Ok(()),
            Err(_) => Err(ConnectError::ChannelSaturated),
        },
        Err(e) => Err(e),
    }
}


/// The slot after forwarding each of `events` in turn.
pub open spec fn forwarded(slot: Option<Web3State>, events: Seq<Send>) -> Option<Web3State>
    decreases events.len(),
{
    if events.len() == 0 {
        slot
    } else {
        forwarded(offered(slot, events[0].0), events.drop_first())
    }
}

/// How many of `events` find the slot occupied when forwarded from `slot`.
pub open spec fn refused_count(slot: Option<Web3State>, events: Seq<Send>) -> nat {
    if slot is None && events.len() > 0 {
        (events.len() - 1) as nat
    } else {
        events.len()
    }
}

proof fn lemma_forwarded_prefix(slot: Option<Web3State>, events: Seq<Send>, i: int)
    requires
        0 <= i < events.len(),
    ensures
        forwarded(slot, events.take(i + 1)) == offered(forwarded(slot, events.take(i)), events[i].0),
    decreases i,
{
    let head = offered(slot, events[0].0);
    assert(events.take(i + 1)[0] == events[0]);
    assert(events.take(i + 1).drop_first() =~= events.drop_first().take(i));
    assert(forwarded(slot, events.take(i + 1)) == forwarded(head, events.drop_first().take(i)));
    if i > 0 {
        lemma_forwarded_prefix(head, events.drop_first(), i - 1);
        assert(events.take(i).drop_first() =~= events.drop_first().take(i - 1));
        assert(events.take(i)[0] == events[0]);
        assert(forwarded(slot, events.take(i)) == forwarded(head, events.drop_first().take(i - 1)));
        assert(events.drop_first()[i - 1] == events[i]);
    } else {
        assert(events.drop_first().take(0) =~= Seq::<Send>::empty());
        assert(forwarded(head, events.drop_first().take(0)) == head);
        assert(events.take(i) =~= Seq::<Send>::empty());
    }
}

/// Forwards each requested state through the slot, in order. Those that find
/// the slot occupied are dropped; the result is how many were.
pub fn send(h: &mut HandOff, events: &Vec<Send>) -> (dropped: usize)
    requires
        old(h).wf(),
    ensures
        final(h).wf(),
        final(h)@ == forwarded(old(h)@, events@),
        dropped == refused_count(old(h)@, events@),
{
    let mut dropped: usize = 0;
    let mut i: usize = 0;
    while i < events.len()
        invariant
            i <= events.len(),
            h.wf(),
            h@ == forwarded(old(h)@, events@.take(i as int)),
            h@ is None <==> (old(h)@ is None && i == 0),
            dropped == refused_count(old(h)@, events@.take(i as int)),
        decreases events.len() - i,
    {
        proof {
            lemma_forwarded_prefix(old(h)@, events@, i as int);
        }
        let ev = Web3State::new(events[i].0.wallet_address.0);
        match h.offer(ev) {
            Ok(()) => {},
            Err(_) => {
                dropped = dropped + 1;
            },
        }
        i = i + 1;
    }
    assert(events@.take(i as int) =~= events@);
    dropped
}

/// One poll of the update loop: takes the waiting result, if any, writes its
/// address into `state`, and reports it. Never waits.
pub fn receive(h: &mut HandOff, state: &mut Web3State) -> (r: Option<Receive>)
    requires
        old(h).wf(),
    ensures
        final(h).wf(),
        final(h)@ is None,
        *final(state) == polled(old(h)@, *old(state)),
        old(h)@ matches Some(s) ==> r == Some(Receive(s)),
        old(h)@ is None ==> r is None,
{
    match h.take() {
        Some(ev) => {
            state.wallet_address.0 = ev.wallet_address.0;
            Some(Receive(ev))
        },
        None => None,
    }
}

} // verus!
