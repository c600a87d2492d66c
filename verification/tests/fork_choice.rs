use moonglass::containers::{
    BeaconState, Eth1Data, ExecutionPayloadEnvelope, SignedExecutionPayloadEnvelope,
};
use moonglass::error::{ForkChoiceError, SignatureError, TransitionError};
use moonglass::fork_choice::on_execution_payload_envelope::{
    conclude_envelope_checks, is_data_available, verify_and_notify_new_payload,
};
use moonglass::fork_choice::store::{RootMap, Store};
use moonglass::primitives::{BLSSignature, Root, Slot};

fn state_at(slot: u64) -> BeaconState {
    BeaconState {
        slot: Slot(slot),
        eth1_data: Eth1Data { deposit_root: Root::default() },
        eth1_deposit_index: 0,
        validators: vec![],
        balances: vec![],
        previous_epoch_participation: vec![],
        current_epoch_participation: vec![],
        inactivity_scores: vec![],
        pending_deposits: vec![],
        builders: vec![],
    }
}

fn envelope(root: Root, payload: &[u8]) -> SignedExecutionPayloadEnvelope {
    SignedExecutionPayloadEnvelope {
        message: ExecutionPayloadEnvelope { beacon_block_root: root, payload: payload.to_vec() },
        signature: BLSSignature([0; 96]),
    }
}

fn store_with_block(root: Root, slot: u64) -> Store {
    let mut store = Store { block_states: RootMap::new(), payloads: RootMap::new() };
    store.block_states.insert(root, state_at(slot));
    store
}

#[test]
fn good_envelope_is_filed_and_read_back() {
    let root = Root([1; 32]);
    let mut store = store_with_block(root, 77);
    let signed = envelope(root, b"payload");
    let mut seen = None;
    let result = store.on_execution_payload_envelope(&signed, |state, given| {
        seen = Some((state.slot, given.clone()));
        Ok(())
    });
    assert_eq!(result, Ok(()));
    assert_eq!(seen, Some((Slot(77), signed.clone())));
    assert_eq!(store.payloads.get(&root), Some(&signed.message));
    assert_eq!(store.block_states.get(&root), Some(&state_at(77)));
}

#[test]
fn envelope_for_an_unknown_block_is_refused() {
    let root = Root([1; 32]);
    let stranger = Root([2; 32]);
    let mut store = store_with_block(root, 0);
    let mut asked = false;
    let result = store.on_execution_payload_envelope(&envelope(stranger, b"x"), |_, _| {
        asked = true;
        Ok(())
    });
    assert_eq!(result, Err(ForkChoiceError::PayloadEnvelopeForUnknownBlock(stranger)));
    assert!(!asked);
    assert_eq!(store.payloads.get(&stranger), None);
    assert_eq!(store.payloads.get(&root), None);
}

#[test]
fn envelope_that_does_not_verify_is_refused_and_not_filed() {
    let root = Root([1; 32]);
    let mut store = store_with_block(root, 0);
    assert_eq!(
        store.on_execution_payload_envelope(&envelope(root, b"first"), |_, _| Ok(())),
        Ok(())
    );
    let error = TransitionError::Signature(SignatureError::Deposit);
    let result = store.on_execution_payload_envelope(&envelope(root, b"second"), |_, _| Err(error));
    assert_eq!(result, Err(ForkChoiceError::Transition(error)));
    assert_eq!(store.payloads.get(&root).unwrap().payload, b"first".to_vec());
}

#[test]
fn later_envelope_replaces_the_earlier_one() {
    let root = Root([1; 32]);
    let other = Root([2; 32]);
    let mut store = store_with_block(root, 0);
    store.block_states.insert(other, state_at(1));
    for (block, payload) in [(root, b"a"), (other, b"b"), (root, b"c")] {
        let signed = envelope(block, payload);
        assert_eq!(store.on_execution_payload_envelope(&signed, |_, _| Ok(())), Ok(()));
    }
    assert_eq!(store.payloads.get(&root).unwrap().payload, b"c".to_vec());
    assert_eq!(store.payloads.get(&other).unwrap().payload, b"b".to_vec());
}

#[test]
fn first_failing_check_decides() {
    let root = Root([3; 32]);
    let error = TransitionError::BalanceOverflow;
    assert_eq!(conclude_envelope_checks(root, true, Ok(()), true), Ok(()));
    assert_eq!(
        conclude_envelope_checks(root, false, Err(error), false),
        Err(ForkChoiceError::PayloadDataUnavailable(root))
    );
    assert_eq!(
        conclude_envelope_checks(root, true, Err(error), false),
        Err(ForkChoiceError::Transition(error))
    );
    assert_eq!(
        conclude_envelope_checks(root, true, Ok(()), false),
        Err(ForkChoiceError::PayloadExecutionInvalid(root))
    );
}

#[test]
fn unwired_checks_pass() {
    assert!(is_data_available(Root([9; 32])));
    assert!(verify_and_notify_new_payload(&envelope(Root([9; 32]), b"")));
}

#[test]
fn redelivered_envelope_is_accepted_and_changes_nothing() {
    let root = Root([1; 32]);
    let mut store = store_with_block(root, 7);
    let signed = envelope(root, b"payload");
    for _ in 0..2 {
        assert_eq!(store.on_execution_payload_envelope(&signed, |_, _| Ok(())), Ok(()));
        assert_eq!(store.payloads.get(&root), Some(&signed.message));
        assert_eq!(store.block_states.get(&root), Some(&state_at(7)));
    }
}

/// Accepts what belongs to a state at an even slot.
fn even_slot(
    state: &BeaconState,
    _signed: &SignedExecutionPayloadEnvelope,
) -> Result<(), TransitionError> {
    if state.slot.0 % 2 == 0 {
        Ok(())
    } else {
        Err(TransitionError::BalanceOverflow)
    }
}

#[test]
fn envelopes_of_different_blocks_commute() {
    let blocks = [Root([1; 32]), Root([2; 32]), Root([3; 32])];
    let unknown = Root([4; 32]);
    let fresh = || {
        let mut store = store_with_block(blocks[0], 0);
        store.block_states.insert(blocks[1], state_at(1));
        store.block_states.insert(blocks[2], state_at(2));
        store
    };
    for left in [blocks[0], blocks[1], unknown] {
        let (a, b) = (envelope(left, b"a"), envelope(blocks[2], b"b"));
        let mut one = fresh();
        let a_first = one.on_execution_payload_envelope(&a, even_slot);
        let b_second = one.on_execution_payload_envelope(&b, even_slot);
        let mut two = fresh();
        let b_first = two.on_execution_payload_envelope(&b, even_slot);
        let a_second = two.on_execution_payload_envelope(&a, even_slot);
        assert_eq!(a_first, a_second);
        assert_eq!(b_first, b_second);
        for root in [blocks[0], blocks[1], blocks[2], unknown] {
            assert_eq!(one.payloads.get(&root), two.payloads.get(&root));
        }
    }
}

#[test]
fn answer_depends_on_the_named_block_only() {
    let root = Root([1; 32]);
    for slot in [4, 5] {
        let mut plain = store_with_block(root, slot);
        let mut busy = store_with_block(root, slot);
        busy.block_states.insert(Root([2; 32]), state_at(slot + 1));
        busy.payloads.insert(root, envelope(root, b"earlier").message);
        let signed = envelope(root, b"new");
        let answer = plain.on_execution_payload_envelope(&signed, even_slot);
        assert_eq!(answer, busy.on_execution_payload_envelope(&signed, even_slot));
        assert_eq!(answer.is_ok(), slot == 4);
    }
}

#[test]
fn store_hands_on_any_type_of_state() {
    let root = Root([1; 32]);
    let mut store = Store { block_states: RootMap::new(), payloads: RootMap::new() };
    store.block_states.insert(root, (7u64, Root([8; 32])));
    let signed = envelope(root, b"payload");
    let result = store.on_execution_payload_envelope(&signed, |state, _| {
        if *state == (7, Root([8; 32])) {
            Ok(())
        } else {
            Err(TransitionError::BalanceOverflow)
        }
    });
    assert_eq!(result, Ok(()));
}
