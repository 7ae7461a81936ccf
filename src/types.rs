//! Plain data carried between the entry points, the continuation store and
//! the messages handed to the host.
use vstd::prelude::*;

verus! {

/// A fungible token amount.
#[derive(Clone, Debug, PartialEq, Eq)]
pub struct Coin {
    pub denom: String,
    pub amount: u128,
}

/// A non-negative decimal with 18 fractional digits, as its count of
/// 10^-18 units.
#[derive(PartialEq, Eq, Structural, Clone, Copy, Debug)]
pub struct Decimal {
    pub atomics: u128,
}

/// One hop of a pool-swap route.
#[derive(Clone, Debug, PartialEq, Eq)]
pub struct SwapHop {
    pub pool_id: u64,
    pub token_out_denom: String,
}

/// What the caller asks of the pool: a non-empty route and the smallest
/// acceptable output.
#[derive(Clone, Debug, PartialEq, Eq)]
pub struct SwapSpec {
    pub routes: Vec<SwapHop>,
    pub token_out_min_amount: u128,
}

/// A JSON-like memo value: the closed set of shapes an IBC memo can take.
#[derive(Debug)]
pub enum MemoValue {
    Null,
    Bool(bool),
    /// A number, kept as its literal text.
    Number(String),
    Str(String),
    List(Vec<MemoValue>),
    Object(Vec<(String, MemoValue)>),
}

/// What happens to the output of a swap, fixed when the swap starts.
#[derive(Debug)]
pub enum AfterSwapAction {
    BankSend { receiver: String },
    CustomCall { contract_address: String, msg: Vec<u8> },
    IbcTransfer { receiver: String, channel: String, next_memo: Option<MemoValue> },
}

/// Continuation of an in-flight pool swap; its presence is the re-entrancy lock.
#[derive(Debug)]
pub struct SwapReplyState {
    pub after_swap_action: AfterSwapAction,
    pub local_fallback_address: String,
    /// Denomination the pool pays out (last hop of the route).
    pub output_denom: String,
}

/// Continuation of an in-flight IBC transfer.
#[derive(Clone, Debug, PartialEq, Eq)]
pub struct IbcTransferReplyState {
    pub local_fallback_address: String,
    pub channel: String,
    pub denom: String,
    pub amount: u128,
}

/// One queued step of a multi-swap.
#[derive(Debug)]
pub struct MultiSwapMsg {
    pub swap_msg: SwapSpec,
    pub after_swap_action: AfterSwapAction,
    pub amount_in: Coin,
}

/// The multi-swap queue, stored reversed: the next step to run is the last.
#[derive(Debug)]
pub struct MultiSwapState {
    pub swaps: Vec<MultiSwapMsg>,
    pub local_fallback_address: String,
}

/// Result of the trade-sizing search.
#[derive(Clone, Debug, PartialEq, Eq)]
pub struct PriceImpactTradeResponse {
    pub amount_in: Coin,
    pub amount_out: Coin,
}

/// Tag attached to a sub-message, naming the handler its reply goes to.
#[derive(PartialEq, Eq, Structural, Clone, Copy, Debug)]
pub enum MsgReplyId {
    Swap,
    IbcTransfer,
    MultiSwap,
}

/// Outgoing IBC transfer request.
#[derive(Debug)]
pub struct IbcTransferMsg {
    pub source_port: String,
    pub source_channel: String,
    pub token: Coin,
    pub sender: String,
    pub receiver: String,
    pub timeout_timestamp_nanos: u64,
    pub memo: MemoValue,
}

/// A message handed to the host.
#[derive(Debug)]
pub enum OutgoingMsg {
    /// Exact-amount-in swap through the pools of `routes`.
    PoolSwap { sender: String, routes: Vec<SwapHop>, token_in: Coin, token_out_min_amount: u128 },
    BankSend { to_address: String, amount: Coin },
    ContractCall { contract_addr: String, msg: Vec<u8>, funds: Coin },
    IbcTransfer(IbcTransferMsg),
    /// A call of this contract's own swap entry point.
    SwapWithAction {
        contract_addr: String,
        swap_msg: SwapSpec,
        after_swap_action: AfterSwapAction,
        local_fallback_address: String,
        funds: Coin,
    },
}

/// A message, and the reply it asks for on success (if any).
#[derive(Debug)]
pub struct SubMsg {
    pub msg: OutgoingMsg,
    pub reply_on_success: Option<MsgReplyId>,
}

/// What a handler hands back to the host.
#[derive(Debug)]
pub struct Response {
    pub messages: Vec<SubMsg>,
}

/// The part of the execution environment the handlers read.
#[derive(Clone, Debug, PartialEq, Eq)]
pub struct Env {
    pub contract_address: String,
    /// Block time, in nanoseconds since the epoch.
    pub block_time_nanos: u64,
}

/// Outcome of a sub-message, as the host reports it in a reply.
#[derive(Clone, Debug, PartialEq, Eq)]
pub enum SubMsgResult {
    Success { data: Option<Vec<u8>> },
    Failure { msg: String },
}

/// Errors of the handlers.
#[derive(Clone, Copy, Debug, PartialEq, Eq, Structural)]
pub enum ContractError {
    /// A swap is already in flight.
    ContractLocked,
    /// No coin, a zero coin, or several coins were attached.
    NoFunds,
    MultipleDenoms,
    /// A swap route with no hop.
    EmptySwapRoute,
    /// An empty multi-swap list.
    InvalidAmountOfSwaps,
    /// The memo to extend is not a JSON object.
    InvalidMemo,
    /// A reply with no state waiting for it.
    MissingState,
    /// The pool-swap reply carried no readable output amount.
    InvalidReply,
    /// The IBC transfer failed or its acknowledgement was unreadable.
    FailedIbcTransfer,
    /// The pool's spot price is not a decimal.
    InvalidSpotPrice,
    /// A pool query failed.
    QueryFailed,
    /// The pool's quoted output is not an unsigned integer.
    InvalidQuote,
    /// The pool quotes no output for the amount.
    ZeroTokenOut,
    /// The sizing search ran out of input, or a price left the decimal range.
    NumericError,
}

impl Response {
    pub open spec fn is_empty(&self) -> bool {
        self.messages@.len() == 0
    }

    pub open spec fn single(&self, m: SubMsg) -> bool {
        self.messages@ == seq![m]
    }

    /// A response with no message.
    pub fn new() -> (r: Response)
        ensures
            r.is_empty(),
    {
        Response { messages: Vec::new() }
    }
}

} // verus!
