use std::time::{Duration, Instant};
use wallet_bridge::{
    connect_outcome, deliver, receive, send, AccountId, ConnectError, HandOff, ProviderError,
    Receive, Send, WalletAddress, Web3State,
};

fn account(first: [u8; 2], last: [u8; 2]) -> AccountId {
    let mut bytes = [0u8; 20];
    bytes[0] = first[0];
    bytes[1] = first[1];
    bytes[18] = last[0];
    bytes[19] = last[1];
    AccountId { bytes }
}

fn abcd_1234() -> AccountId {
    account([0xAB, 0xCD], [0x12, 0x34])
}

#[test]
fn single_account_is_applied_after_one_cycle() {
    let mut h = HandOff::new();
    let mut state = Web3State::default();
    assert_eq!(deliver(&mut h, Ok(vec![abcd_1234()])), Ok(()));
    let ev = receive(&mut h, &mut state);
    assert_eq!(state.wallet_address, WalletAddress(Some(abcd_1234())));
    assert_eq!(ev, Some(Receive(Web3State::new(Some(abcd_1234())))));
}

#[test]
fn first_of_several_accounts_is_taken() {
    let other = account([0x01, 0x02], [0x03, 0x04]);
    let mut h = HandOff::new();
    let mut state = Web3State::default();
    assert_eq!(deliver(&mut h, Ok(vec![other, abcd_1234()])), Ok(()));
    receive(&mut h, &mut state);
    assert_eq!(state.wallet_address.0, Some(other));
}

#[test]
fn empty_account_list_leaves_address_unset() {
    let mut h = HandOff::new();
    let mut state = Web3State::default();
    assert_eq!(deliver(&mut h, Ok(vec![])), Err(ConnectError::EmptyAccountList));
    assert_eq!(receive(&mut h, &mut state), None);
    assert_eq!(state.wallet_address.0, None);
}

#[test]
fn two_requests_before_poll_deliver_the_first_only() {
    let second = account([0x11, 0x22], [0x33, 0x44]);
    let mut h = HandOff::new();
    let mut state = Web3State::default();
    assert_eq!(deliver(&mut h, Ok(vec![abcd_1234()])), Ok(()));
    assert_eq!(deliver(&mut h, Ok(vec![second])), Err(ConnectError::ChannelSaturated));
    assert!(receive(&mut h, &mut state).is_some());
    assert_eq!(state.wallet_address.0, Some(abcd_1234()));
    assert_eq!(receive(&mut h, &mut state), None);
    assert_eq!(state.wallet_address.0, Some(abcd_1234()));
}

#[test]
fn rejected_request_changes_nothing() {
    let mut h = HandOff::new();
    let mut state = Web3State::new(Some(abcd_1234()));
    assert_eq!(
        deliver(&mut h, Err(ProviderError::Rejected)),
        Err(ConnectError::Provider(ProviderError::Rejected))
    );
    assert_eq!(receive(&mut h, &mut state), None);
    assert_eq!(state, Web3State::new(Some(abcd_1234())));
}

#[test]
fn missing_provider_is_reported() {
    assert_eq!(
        connect_outcome(Err(ProviderError::Unavailable)),
        Err(ConnectError::Provider(ProviderError::Unavailable))
    );
}

#[test]
fn outcome_carries_first_account() {
    assert_eq!(
        connect_outcome(Ok(vec![abcd_1234()])),
        Ok(Web3State::new(Some(abcd_1234())))
    );
    assert_eq!(connect_outcome(Ok(vec![])), Err(ConnectError::EmptyAccountList));
}

#[test]
fn full_slot_keeps_waiting_result() {
    let later = account([0x55, 0x66], [0x77, 0x88]);
    let mut h = HandOff::new();
    assert_eq!(h.offer(Web3State::new(Some(abcd_1234()))), Ok(()));
    assert_eq!(
        h.offer(Web3State::new(Some(later))),
        Err(Web3State::new(Some(later)))
    );
    assert_eq!(h.take(), Some(Web3State::new(Some(abcd_1234()))));
    assert_eq!(h.take(), None);
}

#[test]
fn poll_of_empty_slot_is_a_no_op() {
    let mut h = HandOff::new();
    let mut state = Web3State::new(Some(abcd_1234()));
    assert_eq!(receive(&mut h, &mut state), None);
    assert_eq!(state, Web3State::new(Some(abcd_1234())));
}

#[test]
fn second_poll_after_one_delivery_changes_nothing() {
    let mut h = HandOff::new();
    let mut state = Web3State::default();
    deliver(&mut h, Ok(vec![abcd_1234()])).unwrap();
    receive(&mut h, &mut state);
    let after_first = state;
    assert_eq!(receive(&mut h, &mut state), None);
    assert_eq!(state, after_first);
}

#[test]
fn poll_returns_without_waiting() {
    let mut h = HandOff::new();
    let mut state = Web3State::default();
    let start = Instant::now();
    for _ in 0..1000 {
        receive(&mut h, &mut state);
    }
    h.offer(Web3State::new(Some(abcd_1234()))).unwrap();
    for _ in 0..1000 {
        receive(&mut h, &mut state);
    }
    assert!(start.elapsed() < Duration::from_secs(1));
}

#[test]
fn address_comes_only_from_accepted_results() {
    let second = account([0x11, 0x22], [0x33, 0x44]);
    let third = account([0x99, 0x98], [0x97, 0x96]);
    let mut h = HandOff::new();
    let mut state = Web3State::default();
    deliver(&mut h, Ok(vec![abcd_1234()])).unwrap();
    let _ = deliver(&mut h, Ok(vec![second]));
    receive(&mut h, &mut state);
    let _ = deliver(&mut h, Err(ProviderError::Rejected));
    receive(&mut h, &mut state);
    assert_eq!(state.wallet_address.0, Some(abcd_1234()));
    deliver(&mut h, Ok(vec![third])).unwrap();
    receive(&mut h, &mut state);
    assert_eq!(state.wallet_address.0, Some(third));
}

#[test]
fn send_forwards_first_and_drops_the_rest() {
    let second = account([0x11, 0x22], [0x33, 0x44]);
    let mut h = HandOff::new();
    let events = vec![
        Send(Web3State::new(Some(abcd_1234()))),
        Send(Web3State::new(Some(second))),
        Send(Web3State::new(None)),
    ];
    assert_eq!(send(&mut h, &events), 2);
    assert_eq!(h.take(), Some(Web3State::new(Some(abcd_1234()))));
}

#[test]
fn send_into_occupied_slot_drops_everything() {
    let mut h = HandOff::new();
    h.offer(Web3State::new(Some(abcd_1234()))).unwrap();
    let events = vec![Send(Web3State::new(None))];
    assert_eq!(send(&mut h, &events), 1);
    assert_eq!(send(&mut h, &vec![]), 0);
    assert_eq!(h.take(), Some(Web3State::new(Some(abcd_1234()))));
}

#[test]
fn address_label_is_short_hex() {
    let state = Web3State::new(Some(abcd_1234()));
    assert_eq!(state.address_label(), Some("0xabcd\u{2026}1234".to_string()));
    let digits = Web3State::new(Some(account([0x0f, 0xa0], [0x09, 0xff])));
    assert_eq!(digits.address_label(), Some("0x0fa0\u{2026}09ff".to_string()));
    assert_eq!(Web3State::default().address_label(), None);
}

#[test]
fn new_state_holds_given_address() {
    assert_eq!(Web3State::new(None), Web3State::default());
    assert_eq!(Web3State::new(Some(abcd_1234())).wallet_address.0, Some(abcd_1234()));
}
