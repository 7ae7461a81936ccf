use cosmwasm_std::Binary;
use osmosis_std::types::ibc::applications::transfer::v1::MsgTransferResponse;
use osmosis_std::types::osmosis::poolmanager::v1beta1::MsgSwapExactAmountInResponse;

use osmosis_swap::commands::{
    after_swap_with_output, handle_after_swap_action, handle_ibc_transfer_reply, one_coin, swap,
    swap_output_amount,
};
use osmosis_swap::store::Store;
use osmosis_swap::types::{
    AfterSwapAction, Coin, ContractError, Env, MemoValue, MsgReplyId, OutgoingMsg,
    SubMsgResult, SwapHop, SwapSpec,
};

fn coin(denom: &str, amount: u128) -> Coin {
    Coin { denom: denom.to_string(), amount }
}

fn env() -> Env {
    Env { contract_address: "osmo1router".to_string(), block_time_nanos: 1_000_000_000 }
}

fn spec_to(denom: &str) -> SwapSpec {
    SwapSpec {
        routes: vec![SwapHop { pool_id: 1, token_out_denom: denom.to_string() }],
        token_out_min_amount: 1,
    }
}

fn bank_send(receiver: &str) -> AfterSwapAction {
    AfterSwapAction::BankSend { receiver: receiver.to_string() }
}

fn swap_reply(amount: &str) -> SubMsgResult {
    let data = Binary::from(MsgSwapExactAmountInResponse { token_out_amount: amount.to_string() });
    SubMsgResult::Success { data: Some(data.to_vec()) }
}

fn started(action: AfterSwapAction) -> Store {
    let mut store = Store::new();
    swap(&mut store, &env(), vec![coin("uosmo", 1000)], spec_to("uatom"), action, "osmo1fallback".to_string())
        .unwrap();
    store
}

#[test]
fn swap_records_continuation_and_emits_pool_swap() {
    let mut store = Store::new();
    let spec = SwapSpec {
        routes: vec![
            SwapHop { pool_id: 1, token_out_denom: "uion".to_string() },
            SwapHop { pool_id: 2, token_out_denom: "uatom".to_string() },
        ],
        token_out_min_amount: 5,
    };
    let r = swap(&mut store, &env(), vec![coin("uosmo", 1000)], spec, bank_send("osmo1bob"), "osmo1fb".to_string())
        .unwrap();
    assert_eq!(r.messages.len(), 1);
    assert_eq!(r.messages[0].reply_on_success, Some(MsgReplyId::Swap));
    match &r.messages[0].msg {
        OutgoingMsg::PoolSwap { sender, routes, token_in, token_out_min_amount } => {
            assert_eq!(sender, "osmo1router");
            assert_eq!(routes.len(), 2);
            assert_eq!(token_in, &coin("uosmo", 1000));
            assert_eq!(*token_out_min_amount, 5);
        }
        other => panic!("unexpected message {:?}", other),
    }
    let st = store.swap_reply.as_ref().unwrap();
    assert_eq!(st.output_denom, "uatom");
    assert_eq!(st.local_fallback_address, "osmo1fb");
}

#[test]
fn swap_rejected_while_another_is_in_flight() {
    let mut store = started(bank_send("osmo1bob"));
    let r = swap(
        &mut store,
        &env(),
        vec![coin("uion", 5)],
        spec_to("uosmo"),
        AfterSwapAction::CustomCall { contract_address: "osmo1c".to_string(), msg: vec![1] },
        "x".to_string(),
    );
    assert_eq!(r.unwrap_err(), ContractError::ContractLocked);
    match &store.swap_reply.as_ref().unwrap().after_swap_action {
        AfterSwapAction::BankSend { receiver } => assert_eq!(receiver, "osmo1bob"),
        other => panic!("continuation overwritten: {:?}", other),
    }
}

#[test]
fn swap_needs_exactly_one_nonzero_coin() {
    let mut store = Store::new();
    let r = swap(&mut store, &env(), vec![], spec_to("uatom"), bank_send("b"), "f".to_string());
    assert_eq!(r.unwrap_err(), ContractError::NoFunds);
    let r = swap(&mut store, &env(), vec![coin("uosmo", 0)], spec_to("uatom"), bank_send("b"), "f".to_string());
    assert_eq!(r.unwrap_err(), ContractError::NoFunds);
    let r = swap(
        &mut store,
        &env(),
        vec![coin("uosmo", 1), coin("uatom", 1)],
        spec_to("uatom"),
        bank_send("b"),
        "f".to_string(),
    );
    assert_eq!(r.unwrap_err(), ContractError::MultipleDenoms);
    assert!(store.swap_reply.is_none());
}

#[test]
fn swap_needs_a_route() {
    let mut store = Store::new();
    let spec = SwapSpec { routes: vec![], token_out_min_amount: 0 };
    let r = swap(&mut store, &env(), vec![coin("uosmo", 3)], spec, bank_send("b"), "f".to_string());
    assert_eq!(r.unwrap_err(), ContractError::EmptySwapRoute);
    assert!(store.swap_reply.is_none());
}

#[test]
fn one_coin_returns_the_coin() {
    assert_eq!(one_coin(vec![coin("uosmo", 7)]).unwrap(), coin("uosmo", 7));
    assert_eq!(one_coin(vec![]).unwrap_err(), ContractError::NoFunds);
}

#[test]
fn bank_send_runs_once_and_frees_the_slot() {
    let mut store = started(bank_send("osmo1bob"));
    let r = after_swap_with_output(&mut store, &env(), 970).unwrap();
    assert_eq!(r.messages.len(), 1);
    assert_eq!(r.messages[0].reply_on_success, None);
    match &r.messages[0].msg {
        OutgoingMsg::BankSend { to_address, amount } => {
            assert_eq!(to_address, "osmo1bob");
            assert_eq!(amount, &coin("uatom", 970));
        }
        other => panic!("unexpected message {:?}", other),
    }
    assert!(store.swap_reply.is_none());
    let again = after_swap_with_output(&mut store, &env(), 970);
    assert_eq!(again.unwrap_err(), ContractError::MissingState);
}

#[test]
fn custom_call_carries_payload_and_output() {
    let mut store = started(AfterSwapAction::CustomCall {
        contract_address: "osmo1target".to_string(),
        msg: b"{\"go\":{}}".to_vec(),
    });
    let r = after_swap_with_output(&mut store, &env(), 12).unwrap();
    match &r.messages[0].msg {
        OutgoingMsg::ContractCall { contract_addr, msg, funds } => {
            assert_eq!(contract_addr, "osmo1target");
            assert_eq!(msg, &b"{\"go\":{}}".to_vec());
            assert_eq!(funds, &coin("uatom", 12));
        }
        other => panic!("unexpected message {:?}", other),
    }
    assert!(store.swap_reply.is_none());
}

#[test]
fn ibc_transfer_injects_callback_into_memo() {
    let memo = MemoValue::Object(vec![
        ("wasm".to_string(), MemoValue::Str("x".to_string())),
        ("ibc_callback".to_string(), MemoValue::Str("old".to_string())),
        ("n".to_string(), MemoValue::Number("3".to_string())),
    ]);
    let mut store = started(AfterSwapAction::IbcTransfer {
        receiver: "cosmos1dest".to_string(),
        channel: "channel-0".to_string(),
        next_memo: Some(memo),
    });
    let r = after_swap_with_output(&mut store, &env(), 500).unwrap();
    assert_eq!(r.messages[0].reply_on_success, Some(MsgReplyId::IbcTransfer));
    match &r.messages[0].msg {
        OutgoingMsg::IbcTransfer(t) => {
            assert_eq!(t.source_port, "transfer");
            assert_eq!(t.source_channel, "channel-0");
            assert_eq!(t.sender, "osmo1router");
            assert_eq!(t.receiver, "cosmos1dest");
            assert_eq!(t.token, coin("uatom", 500));
            assert_eq!(t.timeout_timestamp_nanos, 1_000_000_000 + 604_800 * 1_000_000_000);
            match &t.memo {
                MemoValue::Object(es) => {
                    let keys: Vec<&str> = es.iter().map(|e| e.0.as_str()).collect();
                    assert_eq!(keys, vec!["wasm", "n", "ibc_callback"]);
                    assert!(matches!(&es[2].1, MemoValue::Str(a) if a == "osmo1router"));
                    assert!(matches!(&es[0].1, MemoValue::Str(a) if a == "x"));
                }
                other => panic!("memo is not an object: {:?}", other),
            }
        }
        other => panic!("unexpected message {:?}", other),
    }
    assert!(store.swap_reply.is_none());
    let info = store.ibc_transfer_reply.as_ref().unwrap();
    assert_eq!(info.channel, "channel-0");
    assert_eq!(info.denom, "uatom");
    assert_eq!(info.amount, 500);
    assert_eq!(info.local_fallback_address, "osmo1fallback");
}

#[test]
fn ibc_transfer_without_memo_gets_only_callback() {
    let mut store = started(AfterSwapAction::IbcTransfer {
        receiver: "cosmos1dest".to_string(),
        channel: "channel-1".to_string(),
        next_memo: None,
    });
    let r = after_swap_with_output(&mut store, &env(), 1).unwrap();
    match &r.messages[0].msg {
        OutgoingMsg::IbcTransfer(t) => match &t.memo {
            MemoValue::Object(es) => {
                assert_eq!(es.len(), 1);
                assert_eq!(es[0].0, "ibc_callback");
            }
            other => panic!("memo is not an object: {:?}", other),
        },
        other => panic!("unexpected message {:?}", other),
    }
}

#[test]
fn non_object_memo_is_rejected() {
    let mut store = started(AfterSwapAction::IbcTransfer {
        receiver: "cosmos1dest".to_string(),
        channel: "channel-1".to_string(),
        next_memo: Some(MemoValue::List(vec![])),
    });
    let r = after_swap_with_output(&mut store, &env(), 1);
    assert_eq!(r.unwrap_err(), ContractError::InvalidMemo);
    assert!(store.swap_reply.is_some());
    assert!(store.ibc_transfer_reply.is_none());
}

#[test]
fn swap_reply_payload_is_decoded() {
    assert_eq!(swap_output_amount(&swap_reply("970000")), Some(970000));
    assert_eq!(swap_output_amount(&swap_reply("abc")), None);
    assert_eq!(swap_output_amount(&SubMsgResult::Success { data: None }), None);
    let mut store = started(bank_send("osmo1bob"));
    let r = handle_after_swap_action(&mut store, &env(), swap_reply("42")).unwrap();
    match &r.messages[0].msg {
        OutgoingMsg::BankSend { amount, .. } => assert_eq!(amount, &coin("uatom", 42)),
        other => panic!("unexpected message {:?}", other),
    }
}

#[test]
fn unreadable_swap_reply_is_invalid() {
    let mut store = started(bank_send("osmo1bob"));
    let r = handle_after_swap_action(&mut store, &env(), SubMsgResult::Failure { msg: "boom".to_string() });
    assert_eq!(r.unwrap_err(), ContractError::InvalidReply);
    assert!(store.swap_reply.is_some());
}

fn transfer_in_flight() -> Store {
    let mut store = started(AfterSwapAction::IbcTransfer {
        receiver: "cosmos1dest".to_string(),
        channel: "channel-0".to_string(),
        next_memo: None,
    });
    after_swap_with_output(&mut store, &env(), 77).unwrap();
    store
}

#[test]
fn ibc_reply_moves_transfer_to_awaiting_table() {
    let mut store = transfer_in_flight();
    let data = Binary::from(MsgTransferResponse { sequence: 9 }).to_vec();
    let r = handle_ibc_transfer_reply(&mut store, SubMsgResult::Success { data: Some(data) }).unwrap();
    assert!(r.messages.is_empty());
    assert!(store.ibc_transfer_reply.is_none());
    let info = store.awaiting_ibc_transfers.get(&9).unwrap();
    assert_eq!(info.amount, 77);
    assert_eq!(info.channel, "channel-0");
}

#[test]
fn failed_ibc_reply_is_a_failed_transfer() {
    let mut store = transfer_in_flight();
    let r = handle_ibc_transfer_reply(&mut store, SubMsgResult::Failure { msg: "timeout".to_string() });
    assert_eq!(r.unwrap_err(), ContractError::FailedIbcTransfer);
    let r = handle_ibc_transfer_reply(&mut store, SubMsgResult::Success { data: None });
    assert_eq!(r.unwrap_err(), ContractError::FailedIbcTransfer);
    let r = handle_ibc_transfer_reply(&mut store, SubMsgResult::Success { data: Some(vec![0xff, 0xff]) });
    assert_eq!(r.unwrap_err(), ContractError::FailedIbcTransfer);
    assert!(store.ibc_transfer_reply.is_some());
    assert!(store.awaiting_ibc_transfers.is_empty());
}
