use vstd::prelude::*;
use crate::address::{h160_display, label_of, AccountId};

verus! {

/// The connected account, if any.
#[derive(Clone, Copy, Debug, PartialEq, Eq, Default)]
pub struct WalletAddress(pub Option<AccountId>);

/// What the update loop knows of the wallet connection.
#[derive(Clone, Copy, Debug, PartialEq, Eq, Default)]
pub struct Web3State {
    pub wallet_address: WalletAddress,
}

/// A request to forward a state through the hand-off slot.
#[derive(Clone, Copy, Debug, PartialEq, Eq, Default)]
pub struct Send(pub Web3State);

/// Notice that a state arrived through the hand-off slot and was applied.
#[derive(Clone, Copy, Debug, PartialEq, Eq, Default)]
pub struct Receive(pub Web3State);

impl Web3State {
    pub open spec fn address(self) -> Option<AccountId> {
        self.wallet_address.0
    }

    pub fn new(n: Option<AccountId>) -> (r: Self)
        ensures
            r.address() == n,
    {
        Web3State { wallet_address: WalletAddress(n) }
    }

    /// The text shown for the connected account; nothing when unset.
    pub fn address_label(&self) -> (r: Option<String>)
        ensures
            self.address() is None ==> r is None,
            self.address() matches Some(a) ==> r matches Some(t) && t@ == label_of(a.bytes@),
    {
        match &self.wallet_address.0 {
            Some(a) => Some(h160_display(a)),
            None => None,
        }
    }
}

/// Why a connect request produced no state to hand over.
#[derive(Clone, Copy, Debug, PartialEq, Eq)]
pub enum ProviderError {
    /// No wallet provider was found in the host environment.
    Unavailable,
    /// The provider refused or failed the request for accounts.
    Rejected,
}

/// Why a completed connect request was not handed to the update loop.
#[derive(Clone, Copy, Debug, PartialEq, Eq)]
pub enum ConnectError {
    Provider(ProviderError),
    /// The provider answered with no accounts.
    EmptyAccountList,
    /// An earlier result still occupies the slot; this one is dropped.
    ChannelSaturated,
}

} // verus!
