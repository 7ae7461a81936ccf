//! The handlers: swap initiation, the reply continuations, and the
//! multi-swap queue driver.
use vstd::prelude::*;

use crate::codec::{
    decode_swap_response, decode_transfer_response, parse_uint128, parsed_uint128,
    swap_response_token_out, transfer_response_sequence,
};
use crate::memo::{
    accepts_callback, base_entries, inject_ibc_callback, is_callback_merge, memo_accepts_callback,
};
use crate::store::Store;
use crate::types::{
    AfterSwapAction, Coin, ContractError, Env, IbcTransferMsg, IbcTransferReplyState, MsgReplyId,
    MultiSwapMsg, MultiSwapState, OutgoingMsg, Response, SubMsg, SubMsgResult, SwapReplyState,
    SwapSpec,
};

verus! {

/// Port IBC transfers leave from.
pub const TRANSFER_PORT: &'static str = "transfer";

/// Lifetime of an outgoing IBC packet: seven days, in nanoseconds.
pub const IBC_PACKET_LIFETIME_NANOS: u64 = 604_800_000_000_000;

/// Only the swap slot may differ between the two stores.
pub open spec fn same_except_swap(a: Store, b: Store) -> bool {
    &&& a.ibc_transfer_reply == b.ibc_transfer_reply
    &&& a.multi_swap == b.multi_swap
    &&& a.awaiting_ibc_transfers@ == b.awaiting_ibc_transfers@
}

/// The error for a list of attached coins, if it is not exactly one non-zero coin.
pub open spec fn one_coin_error(funds: Seq<Coin>) -> Option<ContractError> {
    if funds.len() == 0 {
        Some(ContractError::NoFunds)
    } else if funds.len() == 1 {
        if funds[0].amount == 0 {
            Some(ContractError::NoFunds)
        } else {
            None
        }
    } else {
        Some(ContractError::MultipleDenoms)
    }
}

/// The single coin attached to a call: one coin, of non-zero amount.
pub fn one_coin(funds: Vec<Coin>) -> (r: Result<Coin, ContractError>)
    ensures
        match one_coin_error(funds@) {
            Some(e) => r == Err::<Coin, ContractError>(e),
            None => r == Ok::<Coin, ContractError>(funds@[0]),
        },
{
    let mut funds = funds;
    if funds.len() == 0 {
        Err(ContractError::NoFunds)
    } else if funds.len() > 1 {
        Err(ContractError::MultipleDenoms)
    } else {
        match funds.pop() {
            Some(c) => if c.amount == 0 {
                Err(ContractError::NoFunds)
            } else {
                Ok(c)
            },
            None => Err(ContractError::NoFunds),
        }
    }
}

/// Why a swap cannot start, if it cannot.
pub open spec fn swap_error(store: Store, funds: Seq<Coin>, swap_msg: SwapSpec) -> Option<ContractError> {
    if store.swap_reply is Some {
        Some(ContractError::ContractLocked)
    } else if one_coin_error(funds) is Some {
        one_coin_error(funds)
    } else if swap_msg.routes@.len() == 0 {
        Some(ContractError::EmptySwapRoute)
    } else {
        None
    }
}

/// Starts a pool swap of the one attached coin along `swap_msg`, recording
/// what to do with its output; refused while another swap is in flight.
pub fn swap(
    store: &mut Store,
    env: &Env,
    funds: Vec<Coin>,
    swap_msg: SwapSpec,
    after_swap_action: AfterSwapAction,
    local_fallback_address: String,
) -> (r: Result<Response, ContractError>)
    ensures
        match swap_error(*old(store), funds@, swap_msg) {
            Some(e) => r == Err::<Response, ContractError>(e) && *final(store) == *old(store),
            None => {
                &&& r is Ok
                &&& r->Ok_0.single(
                    (SubMsg {
                        msg: OutgoingMsg::PoolSwap {
                            sender: env.contract_address,
                            routes: swap_msg.routes,
                            token_in: funds@[0],
                            token_out_min_amount: swap_msg.token_out_min_amount,
                        },
                        reply_on_success: Some(MsgReplyId::Swap),
                    }),
                )
                &&& final(store).swap_reply == Some(
                    (SwapReplyState {
                        after_swap_action,
                        local_fallback_address,
                        output_denom: swap_msg.routes@.last().token_out_denom,
                    }),
                )
                &&& same_except_swap(*old(store), *final(store))
            },
        },
{
    // re-entrancy check
    if store.swap_reply_state_exists() {
        return Err(ContractError::ContractLocked);
    }
    let input_coin = match one_coin(funds) {
        Ok(c) => c,
        Err(e) => return Err(e),
    };
    let n = swap_msg.routes.len();
    if n == 0 {
        return Err(ContractError::EmptySwapRoute);
    }
    let output_denom = swap_msg.routes[n - 1].token_out_denom.clone();
    let msg = OutgoingMsg::PoolSwap {
        sender: env.contract_address.clone(),
        routes: swap_msg.routes,
        token_in: input_coin,
        token_out_min_amount: swap_msg.token_out_min_amount,
    };
    store.swap_reply = Some(SwapReplyState { after_swap_action, local_fallback_address, output_denom });
    let mut messages: Vec<SubMsg> = Vec::new();
    messages.push(SubMsg { msg, reply_on_success: Some(MsgReplyId::Swap) });
    assert(messages@ =~= seq![messages@[0]]);
    Ok(Response { messages })
}

/// The outgoing transfer carries `coin` from this contract to `receiver` over
/// `channel`, times out seven days after the block, and carries `memo`
/// extended with the callback marker naming this contract.
pub open spec fn is_ibc_transfer_of(
    t: IbcTransferMsg,
    env: Env,
    coin: Coin,
    receiver: String,
    channel: String,
    memo: Option<crate::types::MemoValue>,
) -> bool {
    &&& t.source_port@ == TRANSFER_PORT@
    &&& t.source_channel == channel
    &&& t.token == coin
    &&& t.sender == env.contract_address
    &&& t.receiver == receiver
    &&& t.timeout_timestamp_nanos == env.block_time_nanos + IBC_PACKET_LIFETIME_NANOS
    &&& is_callback_merge(base_entries(memo), t.memo, env.contract_address@)
}

/// What resuming a swap with `amount_out` received does: the recorded
/// after-swap action, carried out on the output coin, and the swap slot freed.
pub open spec fn after_swap_outcome(
    pre: Store,
    post: Store,
    env: Env,
    amount_out: u128,
    r: Result<Response, ContractError>,
) -> bool {
    match pre.swap_reply {
        None => r == Err::<Response, ContractError>(ContractError::MissingState) && post == pre,
        Some(st) => {
            let coin = Coin { denom: st.output_denom, amount: amount_out };
            match st.after_swap_action {
                AfterSwapAction::BankSend { receiver } => {
                    &&& r is Ok
                    &&& r->Ok_0.single(
                        (SubMsg {
                            msg: OutgoingMsg::BankSend { to_address: receiver, amount: coin },
                            reply_on_success: None,
                        }),
                    )
                    &&& post.swap_reply is None
                    &&& same_except_swap(pre, post)
                },
                AfterSwapAction::CustomCall { contract_address, msg } => {
                    &&& r is Ok
                    &&& r->Ok_0.single(
                        (SubMsg {
                            msg: OutgoingMsg::ContractCall {
                                contract_addr: contract_address,
                                msg,
                                funds: coin,
                            },
                            reply_on_success: None,
                        }),
                    )
                    &&& post.swap_reply is None
                    &&& same_except_swap(pre, post)
                },
                AfterSwapAction::IbcTransfer { receiver, channel, next_memo } => {
                    if !memo_accepts_callback(next_memo) {
                        r == Err::<Response, ContractError>(ContractError::InvalidMemo) && post == pre
                    } else {
                        &&& r is Ok
                        &&& r->Ok_0.messages@.len() == 1
                        &&& r->Ok_0.messages@[0].reply_on_success == Some(MsgReplyId::IbcTransfer)
                        &&& r->Ok_0.messages@[0].msg is IbcTransfer
                        &&& is_ibc_transfer_of(
                            r->Ok_0.messages@[0].msg->IbcTransfer_0,
                            env,
                            coin,
                            receiver,
                            channel,
                            next_memo,
                        )
                        &&& post.swap_reply is None
                        &&& post.ibc_transfer_reply == Some(
                            (IbcTransferReplyState {
                                local_fallback_address: st.local_fallback_address,
                                channel,
                                denom: st.output_denom,
                                amount: amount_out,
                            }),
                        )
                        &&& post.multi_swap == pre.multi_swap
                        &&& post.awaiting_ibc_transfers@ == pre.awaiting_ibc_transfers@
                    }
                },
            }
        },
    }
}

/// Resumes a finished swap whose pool paid out `amount_out`: carries out the
/// after-swap action recorded when the swap started, and frees the swap slot.
pub fn after_swap_with_output(store: &mut Store, env: &Env, amount_out: u128) -> (r: Result<
    Response,
    ContractError,
>)
    requires
        env.block_time_nanos + IBC_PACKET_LIFETIME_NANOS <= u64::MAX,
    ensures
        after_swap_outcome(*old(store), *final(store), *env, amount_out, r),
{
    match &store.swap_reply {
        None => return Err(ContractError::MissingState),
        Some(st) => {
            if let AfterSwapAction::IbcTransfer { next_memo, .. } = &st.after_swap_action {
                if !accepts_callback(next_memo) {
                    return Err(ContractError::InvalidMemo);
                }
            }
        },
    }
    let st = match store.swap_reply.take() {
        Some(st) => st,
        None => return Err(ContractError::MissingState),
    };
    let mut messages: Vec<SubMsg> = Vec::new();
    match st.after_swap_action {
        AfterSwapAction::BankSend { receiver } => {
            let coin = Coin { denom: st.output_denom, amount: amount_out };
            messages.push(
                SubMsg {
                    msg: OutgoingMsg::BankSend { to_address: receiver, amount: coin },
                    reply_on_success: None,
                },
            );
        },
        AfterSwapAction::CustomCall { contract_address, msg } => {
            let coin = Coin { denom: st.output_denom, amount: amount_out };
            messages.push(
                SubMsg {
                    msg: OutgoingMsg::ContractCall { contract_addr: contract_address, msg, funds: coin },
                    reply_on_success: None,
                },
            );
        },
        AfterSwapAction::IbcTransfer { receiver, channel, next_memo } => {
            let memo = inject_ibc_callback(next_memo, env.contract_address.clone());
            let coin = Coin { denom: st.output_denom.clone(), amount: amount_out };
            let transfer = IbcTransferMsg {
                source_port: String::from_str(TRANSFER_PORT),
                source_channel: channel.clone(),
                token: coin,
                sender: env.contract_address.clone(),
                receiver,
                timeout_timestamp_nanos: env.block_time_nanos + IBC_PACKET_LIFETIME_NANOS,
                memo,
            };
            store.ibc_transfer_reply = Some(
                IbcTransferReplyState {
                    local_fallback_address: st.local_fallback_address,
                    channel,
                    denom: st.output_denom,
                    amount: amount_out,
                },
            );
            messages.push(
                SubMsg {
                    msg: OutgoingMsg::IbcTransfer(transfer),
                    reply_on_success: Some(MsgReplyId::IbcTransfer),
                },
            );
        },
    }
    assert(messages@ =~= seq![messages@[0]]);
    Ok(Response { messages })
}

/// The output amount a swap reply reports: the response payload decodes and
/// its amount parses.
pub open spec fn reply_output_amount(reply: SubMsgResult) -> Option<u128> {
    match reply {
        SubMsgResult::Success { data: Some(d) } => match swap_response_token_out(d@) {
            Some(t) => parsed_uint128(t),
            None => None,
        },
        _ => None,
    }
}

/// Reads the pool's output amount from a swap reply.
pub fn swap_output_amount(reply: &SubMsgResult) -> (r: Option<u128>)
    ensures
        r == reply_output_amount(*reply),
{
    match reply {
        SubMsgResult::Success { data: Some(d) } => match decode_swap_response(d) {
            Some(t) => parse_uint128(t.as_str()),
            None => None,
        },
        _ => None,
    }
}

/// Resumes after a pool swap: reads the output amount from the reply, then
/// carries out the recorded after-swap action on the output coin.
pub fn handle_after_swap_action(store: &mut Store, env: &Env, reply: SubMsgResult) -> (r: Result<
    Response,
    ContractError,
>)
    requires
        env.block_time_nanos + IBC_PACKET_LIFETIME_NANOS <= u64::MAX,
    ensures
        match reply_output_amount(reply) {
            None => r == Err::<Response, ContractError>(ContractError::InvalidReply) && *final(store)
                == *old(store),
            Some(a) => after_swap_outcome(*old(store), *final(store), *env, a, r),
        },
{
    match swap_output_amount(&reply) {
        None => Err(ContractError::InvalidReply),
        Some(a) => after_swap_with_output(store, env, a),
    }
}

/// Exactly-once continuation: a swap reply carries out the action recorded
/// when the swap started, on the coin the pool paid out, and leaves the swap
/// slot empty, so that no second reply can carry it out again.
pub proof fn lemma_continuation_runs_once(
    pre: Store,
    post: Store,
    env: Env,
    amount_out: u128,
    r: Result<Response, ContractError>,
)
    requires
        after_swap_outcome(pre, post, env, amount_out, r),
        r is Ok,
    ensures
        pre.swap_reply is Some,
        post.swap_reply is None,
        after_swap_outcome(post, post, env, amount_out, Err(ContractError::MissingState)),
        match pre.swap_reply->Some_0.after_swap_action {
            AfterSwapAction::BankSend { receiver } => r->Ok_0.messages@[0].msg == (OutgoingMsg::BankSend {
                to_address: receiver,
                amount: Coin { denom: pre.swap_reply->Some_0.output_denom, amount: amount_out },
            }),
            AfterSwapAction::CustomCall { contract_address, msg } => r->Ok_0.messages@[0].msg == (
            OutgoingMsg::ContractCall {
                contract_addr: contract_address,
                msg,
                funds: Coin { denom: pre.swap_reply->Some_0.output_denom, amount: amount_out },
            }),
            AfterSwapAction::IbcTransfer { receiver, .. } => r->Ok_0.messages@[0].msg is IbcTransfer
                && r->Ok_0.messages@[0].msg->IbcTransfer_0.receiver == receiver,
        },
{
}

/// What an IBC-transfer reply whose acknowledgement names packet `sequence`
/// does: the waiting transfer moves to the awaiting table under `sequence`.
pub open spec fn transfer_ack_outcome(
    pre: Store,
    post: Store,
    sequence: u64,
    r: Result<Response, ContractError>,
) -> bool {
    match pre.ibc_transfer_reply {
        None => r == Err::<Response, ContractError>(ContractError::MissingState) && post == pre,
        Some(info) => {
            &&& r is Ok
            &&& r->Ok_0.is_empty()
            &&& post.ibc_transfer_reply is None
            &&& post.awaiting_ibc_transfers@ == pre.awaiting_ibc_transfers@.insert(sequence, info)
            &&& post.swap_reply == pre.swap_reply
            &&& post.multi_swap == pre.multi_swap
        },
    }
}

/// Hands the waiting IBC transfer over to the awaiting table, under the
/// packet sequence number of its acknowledgement.
pub fn ibc_transfer_sent(store: &mut Store, sequence: u64) -> (r: Result<Response, ContractError>)
    ensures
        transfer_ack_outcome(*old(store), *final(store), sequence, r),
{
    match store.ibc_transfer_reply.take() {
        None => Err(ContractError::MissingState),
        Some(info) => {
            store.store_awaiting_ibc_transfer(sequence, info);
            Ok(Response::new())
        },
    }
}

/// The packet sequence an IBC-transfer reply acknowledges: it succeeded,
/// carries data, and the data decodes.
pub open spec fn reply_transfer_sequence(reply: SubMsgResult) -> Option<u64> {
    match reply {
        SubMsgResult::Success { data: Some(d) } => transfer_response_sequence(d@),
        _ => None,
    }
}

/// Resumes after an IBC transfer was sent: a failed reply, one without data,
/// or one whose data does not decode is a failed transfer.
pub fn handle_ibc_transfer_reply(store: &mut Store, reply: SubMsgResult) -> (r: Result<
    Response,
    ContractError,
>)
    ensures
        match reply_transfer_sequence(reply) {
            None => r == Err::<Response, ContractError>(ContractError::FailedIbcTransfer)
                && *final(store) == *old(store),
            Some(sequence) => transfer_ack_outcome(*old(store), *final(store), sequence, r),
        },
{
    let sequence = match &reply {
        SubMsgResult::Success { data: Some(d) } => decode_transfer_response(d),
        _ => None,
    };
    match sequence {
        None => Err(ContractError::FailedIbcTransfer),
        Some(s) => ibc_transfer_sent(store, s),
    }
}

/// Only the multi-swap slot may differ between the two stores.
pub open spec fn same_except_multi_swap(a: Store, b: Store) -> bool {
    &&& a.swap_reply == b.swap_reply
    &&& a.ibc_transfer_reply == b.ibc_transfer_reply
    &&& a.awaiting_ibc_transfers@ == b.awaiting_ibc_transfers@
}

/// The self-addressed call that runs one queued step as a full swap.
pub open spec fn step_call(step: MultiSwapMsg, env: Env, local_fallback_address: String) -> SubMsg {
    SubMsg {
        msg: OutgoingMsg::SwapWithAction {
            contract_addr: env.contract_address,
            swap_msg: step.swap_msg,
            after_swap_action: step.after_swap_action,
            local_fallback_address,
            funds: step.amount_in,
        },
        reply_on_success: Some(MsgReplyId::MultiSwap),
    }
}

/// What one advance of the multi-swap queue does: with steps left, it runs
/// the last stored one and stores the rest; with none, it removes the queue.
pub open spec fn advance_outcome(pre: Store, post: Store, env: Env, r: Result<Response, ContractError>) -> bool {
    match pre.multi_swap {
        None => r == Err::<Response, ContractError>(ContractError::MissingState) && post == pre,
        Some(ms) => {
            &&& r is Ok
            &&& same_except_multi_swap(pre, post)
            &&& if ms.swaps@.len() == 0 {
                &&& r->Ok_0.is_empty()
                &&& post.multi_swap is None
            } else {
                &&& r->Ok_0.single(step_call(ms.swaps@.last(), env, ms.local_fallback_address))
                &&& post.multi_swap is Some
                &&& post.multi_swap->Some_0.swaps@ == ms.swaps@.drop_last()
                &&& post.multi_swap->Some_0.local_fallback_address == ms.local_fallback_address
            }
        },
    }
}

/// Advances the multi-swap queue by one step; called at the start and again
/// on each step's reply.
pub fn handle_multiswap_reply(store: &mut Store, env: &Env) -> (r: Result<Response, ContractError>)
    ensures
        advance_outcome(*old(store), *final(store), *env, r),
{
    let mut multi_swaps = match store.multi_swap.take() {
        None => return Err(ContractError::MissingState),
        Some(ms) => ms,
    };
    let next_swap = match multi_swaps.swaps.pop() {
        None => {
            // all swaps are done: the queue stays removed
            return Ok(Response::new());
        },
        Some(step) => step,
    };
    let msg = OutgoingMsg::SwapWithAction {
        contract_addr: env.contract_address.clone(),
        swap_msg: next_swap.swap_msg,
        after_swap_action: next_swap.after_swap_action,
        local_fallback_address: multi_swaps.local_fallback_address.clone(),
        funds: next_swap.amount_in,
    };
    store.multi_swap = Some(multi_swaps);
    let mut messages: Vec<SubMsg> = Vec::new();
    messages.push(SubMsg { msg, reply_on_success: Some(MsgReplyId::MultiSwap) });
    assert(messages@ =~= seq![messages@[0]]);
    Ok(Response { messages })
}

/// Starts a multi-swap: stores the steps, next-to-run last, and runs the first.
pub fn handle_multiswap(
    store: &mut Store,
    env: &Env,
    swaps: Vec<MultiSwapMsg>,
    local_fallback_address: String,
) -> (r: Result<Response, ContractError>)
    ensures
        swaps@.len() == 0 ==> r == Err::<Response, ContractError>(ContractError::InvalidAmountOfSwaps)
            && *final(store) == *old(store),
        swaps@.len() > 0 ==> {
            &&& r is Ok
            &&& r->Ok_0.single(step_call(swaps@[0], *env, local_fallback_address))
            &&& final(store).multi_swap is Some
            &&& final(store).multi_swap->Some_0.swaps@ == swaps@.drop_first().reverse()
            &&& final(store).multi_swap->Some_0.local_fallback_address == local_fallback_address
            &&& same_except_multi_swap(*old(store), *final(store))
        },
{
    if swaps.len() == 0 {
        return Err(ContractError::InvalidAmountOfSwaps);
    }
    // store the steps reversed, so that the next one is always the last
    let mut pending = swaps;
    let ghost orig = pending@;
    let mut reversed: Vec<MultiSwapMsg> = Vec::new();
    while pending.len() > 0
        invariant
            pending@.len() + reversed@.len() == orig.len(),
            pending@ == orig.subrange(0, pending@.len() as int),
            reversed@ == orig.subrange(pending@.len() as int, orig.len() as int).reverse(),
        decreases pending.len(),
    {
        let ghost before = pending@.len() as int;
        let step = pending.pop().unwrap();
        reversed.push(step);
        assert(pending@ =~= orig.subrange(0, before - 1));
        assert(reversed@ =~= orig.subrange(before - 1, orig.len() as int).reverse());
    }
    assert(orig.subrange(0, orig.len() as int).reverse() =~= orig.reverse());
    proof {
        assert(orig.drop_first().reverse() =~= orig.reverse().drop_last());
        assert(orig.reverse().last() == orig[0]);
    }
    store.multi_swap = Some(MultiSwapState { swaps: reversed, local_fallback_address });
    handle_multiswap_reply(store, env)
}

/// The stored queue after a multi-swap of `swaps` has started and advanced `k` more times.
pub open spec fn queue_after(swaps: Seq<MultiSwapMsg>, k: nat) -> Seq<MultiSwapMsg>
    decreases k,
{
    if k == 0 {
        swaps.drop_first().reverse()
    } else {
        queue_after(swaps, (k - 1) as nat).drop_last()
    }
}

/// Multi-swap ordering: the steps of a submitted list run in the order given.
/// After the start, which runs `swaps[0]`, the `k`-th advance finds `swaps[k]`
/// as the step to run (the last stored), and the advance after the final
/// step finds the queue empty, which is the one point where it is removed.
pub proof fn lemma_multiswap_order(swaps: Seq<MultiSwapMsg>, k: nat)
    requires
        swaps.len() > 0,
        k < swaps.len(),
    ensures
        queue_after(swaps, k) == swaps.subrange((k + 1) as int, swaps.len() as int).reverse(),
        k + 1 < swaps.len() ==> queue_after(swaps, k).last() == swaps[(k + 1) as int],
        k + 1 == swaps.len() ==> queue_after(swaps, k).len() == 0,
    decreases k,
{
    if k == 0 {
        assert(swaps.drop_first() =~= swaps.subrange(1, swaps.len() as int));
    } else {
        lemma_multiswap_order(swaps, (k - 1) as nat);
        assert(swaps.subrange(k as int, swaps.len() as int).reverse().drop_last()
            =~= swaps.subrange((k + 1) as int, swaps.len() as int).reverse());
    }
}

} // verus!
