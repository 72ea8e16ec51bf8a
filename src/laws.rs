use vstd::prelude::*;
use crate::address::AccountId;
use crate::bridge::{delivered, outcome_of, polled};
use crate::state::{ProviderError, WalletAddress, Web3State};

verus! {

/// One event seen by the bridge: a connect request completing with the
/// provider's answer, or a poll of the update loop.
pub enum BridgeStep {
    Completed(Result<Seq<AccountId>, ProviderError>),
    Poll,
}

/// The bridge as a pair: the slot, and the connection state.
pub type Bridge = (Option<Web3State>, Web3State);

/// The bridge after one event, as `deliver` and `receive` change it.
pub open spec fn step(b: Bridge, e: BridgeStep) -> Bridge {
    match e {
        BridgeStep::Completed(accounts) => (delivered(b.0, accounts), b.1),
        BridgeStep::Poll => (None, polled(b.0, b.1)),
    }
}

/// The bridge after a sequence of events, from an empty slot and no address.
pub open spec fn run(steps: Seq<BridgeStep>) -> Bridge
    decreases steps.len(),
{
    if steps.len() == 0 {
        (None, Web3State { wallet_address: WalletAddress(None) })
    } else {
        step(run(steps.drop_last()), steps.last())
    }
}

/// Event `i` is a connect request that completed with accounts and found the
/// slot free, so that its first account was handed over.
pub open spec fn accepted_at(steps: Seq<BridgeStep>, i: int) -> bool {
    &&& 0 <= i < steps.len()
    &&& steps[i] matches BridgeStep::Completed(accounts)
    &&& outcome_of(accounts) is Ok
    &&& run(steps.take(i)).0 is None
}

/// The address handed over by event `i`.
pub open spec fn handed_over(steps: Seq<BridgeStep>, i: int) -> Option<AccountId> {
    match steps[i] {
        BridgeStep::Completed(accounts) => match outcome_of(accounts) {
            Ok(s) => s.wallet_address.0,
            Err(_) => None,
        },
        BridgeStep::Poll => None,
    }
}

/// `a` is unset, or is the address that some accepted request handed over.
pub open spec fn from_delivered(steps: Seq<BridgeStep>, a: Option<AccountId>) -> bool {
    a is None || exists|i: int| #[trigger] accepted_at(steps, i) && handed_over(steps, i) == a
}

proof fn lemma_from_delivered_extends(steps: Seq<BridgeStep>, a: Option<AccountId>)
    requires
        steps.len() > 0,
        from_delivered(steps.drop_last(), a),
    ensures
        from_delivered(steps, a),
{
    if a is Some {
        let prev = steps.drop_last();
        let i = choose|i: int| #[trigger] accepted_at(prev, i) && handed_over(prev, i) == a;
        assert(prev.take(i) =~= steps.take(i));
        assert(prev[i] == steps[i]);
        assert(accepted_at(steps, i));
    }
}

proof fn lemma_run_from_delivered(steps: Seq<BridgeStep>)
    ensures
        from_delivered(steps, run(steps).1.wallet_address.0),
        run(steps).0 matches Some(s) ==> from_delivered(steps, s.wallet_address.0),
    decreases steps.len(),
{
    if steps.len() > 0 {
        let prev = steps.drop_last();
        lemma_run_from_delivered(prev);
        let b = run(prev);
        lemma_from_delivered_extends(steps, b.1.wallet_address.0);
        if let Some(s) = b.0 {
            lemma_from_delivered_extends(steps, s.wallet_address.0);
        }
        let n = steps.len() - 1;
        assert(steps.take(n) =~= prev);
        if let BridgeStep::Completed(accounts) = steps.last() {
            if let Ok(s) = outcome_of(accounts) {
                if b.0 is None {
                    assert(accepted_at(steps, n));
                    assert(handed_over(steps, n) == s.wallet_address.0);
                }
            }
        }
    }
}

/// Whatever events occur, the connection state's address is unset or is the
/// first account of a connect request that completed with accounts and was
/// accepted into the slot; no address appears from anywhere else.
pub proof fn lemma_address_only_from_delivered(steps: Seq<BridgeStep>)
    ensures
        run(steps).1.wallet_address.0 is None || exists|i: int|
            #[trigger] accepted_at(steps, i) && handed_over(steps, i) == run(
                steps,
            ).1.wallet_address.0,
{
    lemma_run_from_delivered(steps);
}

/// A result that arrives while the slot is occupied is never handed over: the
/// waiting result stays as it was, and the next poll applies the waiting one.
pub proof fn lemma_full_slot_drops_new_result(
    b: Bridge,
    accounts: Result<Seq<AccountId>, ProviderError>,
)
    requires
        b.0 is Some,
    ensures
        step(b, BridgeStep::Completed(accounts)).0 == b.0,
        step(step(b, BridgeStep::Completed(accounts)), BridgeStep::Poll).1.wallet_address == b.0->0.wallet_address,
{
}

/// A poll of an empty slot changes nothing, and a second poll right after a
/// first changes nothing further.
pub proof fn lemma_poll_idempotent(b: Bridge)
    ensures
        b.0 is None ==> step(b, BridgeStep::Poll) == b,
        step(step(b, BridgeStep::Poll), BridgeStep::Poll) == step(b, BridgeStep::Poll),
{
}

} // verus!
