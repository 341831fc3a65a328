use vstd::prelude::*;
use vstd::utf8::encode_utf8;
use crate::decimal::{decimal_string, decimal_text};
use crate::hex_codec::{
    HexError, decode_byte_rec, hex_decoded, hex_encode_bytes, hex_encoded,
    hex_error_for, is_hex_digit, is_valid_hex,
};
use crate::rpc_types::ByteRec;

verus! {

/// The order methods that the server offers.
#[derive(Debug, Clone, Copy, PartialEq, Eq, Structural)]
pub enum RpcMethod {
    CreateTraderOrder,
    CreateLendOrder,
    ExecuteTraderOrder,
    ExecuteLendOrder,
    CancelTraderOrder,
}

/// The name under which a method is called.
pub open spec fn method_name(m: RpcMethod) -> Seq<char> {
    match m {
        RpcMethod::CreateTraderOrder => "CreateTraderOrder"@,
        RpcMethod::CreateLendOrder => "CreateLendOrder"@,
        RpcMethod::ExecuteTraderOrder => "ExecuteTraderOrder"@,
        RpcMethod::ExecuteLendOrder => "ExecuteLendOrder"@,
        RpcMethod::CancelTraderOrder => "CancelTraderOrder"@,
    }
}

/// Methods whose orders carry amounts that are checked before queueing.
pub open spec fn checks_limits(m: RpcMethod) -> bool {
    m == RpcMethod::CreateTraderOrder || m == RpcMethod::CreateLendOrder
}

/// The topic that accepted requests are queued on.
pub open spec fn request_topic() -> Seq<char> {
    "CLIENT-REQUEST"@
}

/// The topic that failed requests are recorded on.
pub open spec fn failed_topic() -> Seq<char> {
    "CLIENT-FAILED-REQUEST"@
}

impl RpcMethod {
    /// The name under which the method is called.
    pub fn name(&self) -> (s: String)
        ensures
            s@ == method_name(*self),
    {
        match self {
            RpcMethod::CreateTraderOrder => String::from_str("CreateTraderOrder"),
            RpcMethod::CreateLendOrder => String::from_str("CreateLendOrder"),
            RpcMethod::ExecuteTraderOrder => String::from_str("ExecuteTraderOrder"),
            RpcMethod::ExecuteLendOrder => String::from_str("ExecuteLendOrder"),
            RpcMethod::CancelTraderOrder => String::from_str("CancelTraderOrder"),
        }
    }
}

/// How a floating-point amount compares with zero.
#[derive(Debug, Clone, Copy, PartialEq, Eq, Structural)]
pub enum AmountSign {
    /// Greater than zero.
    Positive,
    /// Zero or less.
    NotPositive,
    /// Not a number: neither greater than zero nor at most zero.
    Unordered,
}

/// Why a request was refused.
#[derive(Debug, Clone)]
pub enum RequestError {
    /// The parameter, the order, or the order's proof was rejected; the text
    /// says why.
    InvalidParams(String),
    /// The parameter is not hex text.
    InvalidHex(HexError),
    /// A trader order's initial margin is not greater than zero.
    InvalidInitialMargin,
    /// A trader order's leverage is above the limit (or not a number).
    InvalidLeverage,
    /// A lend order's deposit is not greater than zero.
    InvalidDeposit,
    /// The order's zkos transaction could not be serialized.
    TxSerialization(String),
    /// The response could not be serialized.
    ResponseSerialization(String),
    /// The request could not be queued.
    QueueSend(String),
}

/// Where a message goes on the queue.
#[derive(Debug, Clone)]
pub struct QueueRecord {
    pub topic: String,
    pub key: String,
}

/// Where a request is in its handling.
#[derive(Debug, Clone)]
pub enum Phase {
    /// Waiting for the request's parameter.
    AwaitParams,
    /// Waiting for the decoded bytes to be read as an order.
    AwaitOrder,
    /// Waiting for the verdict on the order's proof.
    AwaitVerification,
    /// Waiting for the order's amounts to be compared with their limits.
    AwaitLimits,
    /// Waiting for the order's zkos transaction to be serialized.
    AwaitZkosTx,
    /// Waiting for the response to be serialized; carries the zkos
    /// transaction's hex text where the method forwards one.
    AwaitResponse { zkos_tx: Option<String> },
    /// Waiting for the queue to take the request.
    AwaitSubmission,
    /// The request has been answered.
    Done,
}

/// One request being handled.
#[derive(Debug, Clone)]
pub struct RequestFlow {
    pub method: RpcMethod,
    pub phase: Phase,
}

/// What the outside world reports back to a request being handled.
#[derive(Debug)]
pub enum Event {
    /// The request's parameter, or why it could not be read.
    Params(Result<ByteRec, String>),
    /// Whether the decoded bytes read as the method's order.
    Order(Result<(), String>),
    /// The verdict on the order's proof, at `now_micros`.
    Verification { outcome: Result<(), String>, now_micros: u128 },
    /// How a trader order's initial margin compares with zero, and whether
    /// its leverage is at most the limit.
    TraderLimits { margin: AmountSign, leverage_within_limit: bool },
    /// How a lend order's deposit compares with zero, at `now_micros`.
    LendLimits { deposit: AmountSign, now_micros: u128 },
    /// The serialized zkos transaction, or why it could not be serialized.
    ZkosTx(Result<Vec<u8>, String>),
    /// Whether the response serialized, at `now_micros`.
    ResponseValue { outcome: Result<(), String>, now_micros: u128 },
    /// Whether the queue took the request.
    Submitted(Result<(), String>),
}

/// What the handler asks the outside world to do next.
#[derive(Debug, Clone)]
pub enum Action {
    /// Nothing: the event does not fit the request's phase.
    Wait,
    /// Read these bytes as the method's order.
    DecodeOrder(Vec<u8>),
    /// Check the order's proof.
    Verify,
    /// Compare the order's amounts with their limits.
    CheckLimits,
    /// Serialize the order's zkos transaction.
    SerializeZkosTx,
    /// Serialize the response.
    SerializeResponse,
    /// Queue the request under `record`, with the zkos transaction's hex text
    /// where the method forwards one.
    Submit { record: QueueRecord, zkos_tx: Option<String> },
    /// Refuse the request with `error`, recording it first under `log` where
    /// there is one.
    Reject { error: RequestError, log: Option<QueueRecord> },
    /// Answer with the serialized response.
    Accept,
}

// ----- views -----

pub enum ErrorView {
    InvalidParams(Seq<char>),
    InvalidHex(HexError),
    InvalidInitialMargin,
    InvalidLeverage,
    InvalidDeposit,
    TxSerialization(Seq<char>),
    ResponseSerialization(Seq<char>),
    QueueSend(Seq<char>),
}

pub struct RecordView {
    pub topic: Seq<char>,
    pub key: Seq<char>,
}

pub enum PhaseView {
    AwaitParams,
    AwaitOrder,
    AwaitVerification,
    AwaitLimits,
    AwaitZkosTx,
    AwaitResponse { zkos_tx: Option<Seq<char>> },
    AwaitSubmission,
    Done,
}

pub struct FlowView {
    pub method: RpcMethod,
    pub phase: PhaseView,
}

pub enum EventView {
    Params(Result<Seq<char>, Seq<char>>),
    Order(Result<(), Seq<char>>),
    Verification { outcome: Result<(), Seq<char>>, now_micros: u128 },
    TraderLimits { margin: AmountSign, leverage_within_limit: bool },
    LendLimits { deposit: AmountSign, now_micros: u128 },
    ZkosTx(Result<Seq<u8>, Seq<char>>),
    ResponseValue { outcome: Result<(), Seq<char>>, now_micros: u128 },
    Submitted(Result<(), Seq<char>>),
}

pub enum ActionView {
    Wait,
    DecodeOrder(Seq<u8>),
    Verify,
    CheckLimits,
    SerializeZkosTx,
    SerializeResponse,
    Submit { record: RecordView, zkos_tx: Option<Seq<char>> },
    Reject { error: ErrorView, log: Option<RecordView> },
    Accept,
}

pub open spec fn text_result(r: Result<(), String>) -> Result<(), Seq<char>> {
    match r {
        Ok(()) => Ok(()),
        Err(t) => Err(t@),
    }
}

pub open spec fn option_text(o: Option<String>) -> Option<Seq<char>> {
    match o {
        Some(t) => Some(t@),
        None => None,
    }
}

impl View for RequestError {
    type V = ErrorView;

    open spec fn view(&self) -> ErrorView {
        match self {
            RequestError::InvalidParams(t) => ErrorView::InvalidParams(t@),
            RequestError::InvalidHex(e) => ErrorView::InvalidHex(*e),
            RequestError::InvalidInitialMargin => ErrorView::InvalidInitialMargin,
            RequestError::InvalidLeverage => ErrorView::InvalidLeverage,
            RequestError::InvalidDeposit => ErrorView::InvalidDeposit,
            RequestError::TxSerialization(t) => ErrorView::TxSerialization(t@),
            RequestError::ResponseSerialization(t) => ErrorView::ResponseSerialization(t@),
            RequestError::QueueSend(t) => ErrorView::QueueSend(t@),
        }
    }
}

impl View for QueueRecord {
    type V = RecordView;

    open spec fn view(&self) -> RecordView {
        RecordView { topic: self.topic@, key: self.key@ }
    }
}

pub open spec fn record_option_view(o: Option<QueueRecord>) -> Option<RecordView> {
    match o {
        Some(r) => Some(r@),
        None => None,
    }
}

impl View for Phase {
    type V = PhaseView;

    open spec fn view(&self) -> PhaseView {
        match self {
            Phase::AwaitParams => PhaseView::AwaitParams,
            Phase::AwaitOrder => PhaseView::AwaitOrder,
            Phase::AwaitVerification => PhaseView::AwaitVerification,
            Phase::AwaitLimits => PhaseView::AwaitLimits,
            Phase::AwaitZkosTx => PhaseView::AwaitZkosTx,
            Phase::AwaitResponse { zkos_tx } => PhaseView::AwaitResponse {
                zkos_tx: option_text(*zkos_tx),
            },
            Phase::AwaitSubmission => PhaseView::AwaitSubmission,
            Phase::Done => PhaseView::Done,
        }
    }
}

impl View for RequestFlow {
    type V = FlowView;

    open spec fn view(&self) -> FlowView {
        FlowView { method: self.method, phase: self.phase@ }
    }
}

impl View for Event {
    type V = EventView;

    open spec fn view(&self) -> EventView {
        match self {
            Event::Params(r) => EventView::Params(
                match r {
                    Ok(rec) => Ok(rec.data@),
                    Err(t) => Err(t@),
                },
            ),
            Event::Order(r) => EventView::Order(text_result(*r)),
            Event::Verification { outcome, now_micros } => EventView::Verification {
                outcome: text_result(*outcome),
                now_micros: *now_micros,
            },
            Event::TraderLimits { margin, leverage_within_limit } => EventView::TraderLimits {
                margin: *margin,
                leverage_within_limit: *leverage_within_limit,
            },
            Event::LendLimits { deposit, now_micros } => EventView::LendLimits {
                deposit: *deposit,
                now_micros: *now_micros,
            },
            Event::ZkosTx(r) => EventView::ZkosTx(
                match r {
                    Ok(b) => Ok(b@),
                    Err(t) => Err(t@),
                },
            ),
            Event::ResponseValue { outcome, now_micros } => EventView::ResponseValue {
                outcome: text_result(*outcome),
                now_micros: *now_micros,
            },
            Event::Submitted(r) => EventView::Submitted(text_result(*r)),
        }
    }
}

impl View for Action {
    type V = ActionView;

    open spec fn view(&self) -> ActionView {
        match self {
            Action::Wait => ActionView::Wait,
            Action::DecodeOrder(b) => ActionView::DecodeOrder(b@),
            Action::Verify => ActionView::Verify,
            Action::CheckLimits => ActionView::CheckLimits,
            Action::SerializeZkosTx => ActionView::SerializeZkosTx,
            Action::SerializeResponse => ActionView::SerializeResponse,
            Action::Submit { record, zkos_tx } => ActionView::Submit {
                record: record@,
                zkos_tx: option_text(*zkos_tx),
            },
            Action::Reject { error, log } => ActionView::Reject {
                error: error@,
                log: record_option_view(*log),
            },
            Action::Accept => ActionView::Accept,
        }
    }
}

// ----- the handling rule -----

/// The first byte of `d` that is not a hex digit.
pub open spec fn first_non_hex(d: Seq<u8>) -> int {
    choose|i: int|
        0 <= i < d.len() && !is_hex_digit(d[i]) && forall|j: int|
            0 <= j < i ==> #[trigger] is_hex_digit(d[j])
}

/// The error that decoding invalid hex input `d` reports.
pub open spec fn hex_error_of(d: Seq<u8>) -> HexError {
    if d.len() % 2 == 1 {
        HexError::OddLength
    } else {
        HexError::InvalidHexCharacter {
            c: d[first_non_hex(d)] as char,
            index: first_non_hex(d) as usize,
        }
    }
}

/// The record under which a request refused after decoding is logged.
pub open spec fn failure_record(m: RpcMethod, now_micros: u128) -> RecordView {
    RecordView {
        topic: failed_topic(),
        key: method_name(m) + "failed-"@ + decimal_text(now_micros as nat),
    }
}

/// The record under which an accepted request is queued.
pub open spec fn submission_record(m: RpcMethod, now_micros: u128) -> RecordView {
    RecordView {
        topic: request_topic(),
        key: method_name(m) + "-"@ + decimal_text(now_micros as nat),
    }
}

/// The record under which a trader order refused for its amounts is logged.
pub open spec fn trader_limits_record() -> RecordView {
    RecordView { topic: failed_topic(), key: "CreateTraderOrderfailed"@ }
}

/// A new request for method `m`.
pub open spec fn start(m: RpcMethod) -> FlowView {
    FlowView { method: m, phase: PhaseView::AwaitParams }
}

/// How a request moves on when `e` is reported in flow `f`: its next state
/// and what is to be done.
pub open spec fn next_step(f: FlowView, e: EventView) -> (FlowView, ActionView) {
    let m = f.method;
    let done = FlowView { method: m, phase: PhaseView::Done };
    let unchanged = (f, ActionView::Wait);
    match f.phase {
        PhaseView::AwaitParams => match e {
            EventView::Params(Err(t)) => (
                done,
                ActionView::Reject { error: ErrorView::InvalidParams(t), log: None },
            ),
            EventView::Params(Ok(text)) => {
                let b = encode_utf8(text);
                if is_valid_hex(b) {
                    (
                        FlowView { method: m, phase: PhaseView::AwaitOrder },
                        ActionView::DecodeOrder(hex_decoded(b)),
                    )
                } else {
                    (
                        done,
                        ActionView::Reject {
                            error: ErrorView::InvalidHex(hex_error_of(b)),
                            log: None,
                        },
                    )
                }
            },
            _ => unchanged,
        },
        PhaseView::AwaitOrder => match e {
            EventView::Order(Err(t)) => (
                done,
                ActionView::Reject { error: ErrorView::InvalidParams(t), log: None },
            ),
            EventView::Order(Ok(())) => (
                FlowView { method: m, phase: PhaseView::AwaitVerification },
                ActionView::Verify,
            ),
            _ => unchanged,
        },
        PhaseView::AwaitVerification => match e {
            EventView::Verification { outcome: Err(t), now_micros } => (
                done,
                ActionView::Reject {
                    error: ErrorView::InvalidParams(t),
                    log: Some(failure_record(m, now_micros)),
                },
            ),
            EventView::Verification { outcome: Ok(()), now_micros } => {
                if checks_limits(m) {
                    (FlowView { method: m, phase: PhaseView::AwaitLimits }, ActionView::CheckLimits)
                } else {
                    (
                        FlowView { method: m, phase: PhaseView::AwaitResponse { zkos_tx: None } },
                        ActionView::SerializeResponse,
                    )
                }
            },
            _ => unchanged,
        },
        PhaseView::AwaitLimits => match e {
            EventView::TraderLimits { margin, leverage_within_limit } => {
                if m != RpcMethod::CreateTraderOrder {
                    unchanged
                } else if margin == AmountSign::Positive && leverage_within_limit {
                    (FlowView { method: m, phase: PhaseView::AwaitZkosTx }, ActionView::SerializeZkosTx)
                } else {
                    (
                        done,
                        ActionView::Reject {
                            error: if margin == AmountSign::NotPositive {
                                ErrorView::InvalidInitialMargin
                            } else {
                                ErrorView::InvalidLeverage
                            },
                            log: Some(trader_limits_record()),
                        },
                    )
                }
            },
            EventView::LendLimits { deposit, now_micros } => {
                if m != RpcMethod::CreateLendOrder {
                    unchanged
                } else if deposit == AmountSign::Positive {
                    (
                        FlowView { method: m, phase: PhaseView::AwaitResponse { zkos_tx: None } },
                        ActionView::SerializeResponse,
                    )
                } else {
                    (
                        done,
                        ActionView::Reject {
                            error: ErrorView::InvalidDeposit,
                            log: Some(failure_record(m, now_micros)),
                        },
                    )
                }
            },
            _ => unchanged,
        },
        PhaseView::AwaitZkosTx => match e {
            EventView::ZkosTx(Err(t)) => (
                done,
                ActionView::Reject { error: ErrorView::TxSerialization(t), log: None },
            ),
            EventView::ZkosTx(Ok(bytes)) => (
                FlowView {
                    method: m,
                    phase: PhaseView::AwaitResponse { zkos_tx: Some(hex_encoded(bytes)) },
                },
                ActionView::SerializeResponse,
            ),
            _ => unchanged,
        },
        PhaseView::AwaitResponse { zkos_tx } => match e {
            EventView::ResponseValue { outcome: Err(t), now_micros } => (
                done,
                ActionView::Reject { error: ErrorView::ResponseSerialization(t), log: None },
            ),
            EventView::ResponseValue { outcome: Ok(()), now_micros } => (
                FlowView { method: m, phase: PhaseView::AwaitSubmission },
                ActionView::Submit { record: submission_record(m, now_micros), zkos_tx },
            ),
            _ => unchanged,
        },
        PhaseView::AwaitSubmission => match e {
            EventView::Submitted(Err(t)) => (
                done,
                ActionView::Reject { error: ErrorView::QueueSend(t), log: None },
            ),
            EventView::Submitted(Ok(())) => (done, ActionView::Accept),
            _ => unchanged,
        },
        PhaseView::Done => unchanged,
    }
}

/// Invalid hex input has exactly one error that decoding may report.
proof fn lemma_hex_error_is_determined(d: Seq<u8>, e: HexError)
    requires
        !is_valid_hex(d),
        hex_error_for(d, e),
    ensures
        e == hex_error_of(d),
{
    match e {
        HexError::InvalidHexCharacter { c, index } => {
            let i = index as int;
            assert(0 <= i < d.len() && !is_hex_digit(d[i]) && forall|j: int|
                0 <= j < i ==> #[trigger] is_hex_digit(d[j]));
            let k = first_non_hex(d);
            if k < i {
                assert(is_hex_digit(d[k]));
            }
            if i < k {
                assert(is_hex_digit(d[i]));
            }
        },
        _ => {},
    }
}

/// The text `method name + sep + decimal time`.
fn record_key(m: RpcMethod, sep: &str, now_micros: u128) -> (s: String)
    ensures
        s@ == method_name(m) + sep@ + decimal_text(now_micros as nat),
{
    let mut s = m.name();
    s.append(sep);
    let t = decimal_string(now_micros);
    s.append(t.as_str());
    s
}

/// The record under which a request refused after decoding is logged.
pub fn failure_record_for(m: RpcMethod, now_micros: u128) -> (r: QueueRecord)
    ensures
        r@ == failure_record(m, now_micros),
{
    QueueRecord {
        topic: String::from_str("CLIENT-FAILED-REQUEST"),
        key: record_key(m, "failed-", now_micros),
    }
}

/// The record under which an accepted request is queued.
pub fn submission_record_for(m: RpcMethod, now_micros: u128) -> (r: QueueRecord)
    ensures
        r@ == submission_record(m, now_micros),
{
    QueueRecord {
        topic: String::from_str("CLIENT-REQUEST"),
        key: record_key(m, "-", now_micros),
    }
}

impl RequestFlow {
    /// A new request for method `m`.
    pub fn new(m: RpcMethod) -> (f: Self)
        ensures
            f@ == start(m),
    {
        RequestFlow { method: m, phase: Phase::AwaitParams }
    }

    /// Whether the request has been answered.
    pub fn is_done(&self) -> (b: bool)
        ensures
            b == (self@.phase is Done),
    {
        match self.phase {
            Phase::Done => true,
            _ => false,
        }
    }
}

/// Moves a request on when `event` is reported: its next state and what is
/// to be done, as [`next_step`] says.
pub fn step(flow: RequestFlow, event: Event) -> (r: (RequestFlow, Action))
    ensures
        (r.0@, r.1@) == next_step(flow@, event@),
{
    let m = flow.method;
    let done = RequestFlow { method: m, phase: Phase::Done };
    match flow.phase {
        Phase::AwaitParams => match event {
            Event::Params(Err(t)) => (
                done,
                Action::Reject { error: RequestError::InvalidParams(t), log: None },
            ),
            Event::Params(Ok(rec)) => match decode_byte_rec(&rec) {
                Ok(bytes) => (
                    RequestFlow { method: m, phase: Phase::AwaitOrder },
                    Action::DecodeOrder(bytes),
                ),
                Err(e) => {
                    proof {
                        lemma_hex_error_is_determined(encode_utf8(rec.data@), e);
                    }
                    (done, Action::Reject { error: RequestError::InvalidHex(e), log: None })
                },
            },
            _ => (RequestFlow { method: m, phase: Phase::AwaitParams }, Action::Wait),
        },
        Phase::AwaitOrder => match event {
            Event::Order(Err(t)) => (
                done,
                Action::Reject { error: RequestError::InvalidParams(t), log: None },
            ),
            Event::Order(Ok(())) => (
                RequestFlow { method: m, phase: Phase::AwaitVerification },
                Action::Verify,
            ),
            _ => (RequestFlow { method: m, phase: Phase::AwaitOrder }, Action::Wait),
        },
        Phase::AwaitVerification => match event {
            Event::Verification { outcome: Err(t), now_micros } => (
                done,
                Action::Reject {
                    error: RequestError::InvalidParams(t),
                    log: Some(failure_record_for(m, now_micros)),
                },
            ),
            Event::Verification { outcome: Ok(()), now_micros: _ } => {
                match m {
                    RpcMethod::CreateTraderOrder | RpcMethod::CreateLendOrder => (
                        RequestFlow { method: m, phase: Phase::AwaitLimits },
                        Action::CheckLimits,
                    ),
                    _ => (
                        RequestFlow { method: m, phase: Phase::AwaitResponse { zkos_tx: None } },
                        Action::SerializeResponse,
                    ),
                }
            },
            _ => (RequestFlow { method: m, phase: Phase::AwaitVerification }, Action::Wait),
        },
        Phase::AwaitLimits => match event {
            Event::TraderLimits { margin, leverage_within_limit } => {
                match m {
                    RpcMethod::CreateTraderOrder => {
                        match margin {
                            AmountSign::Positive => {
                                if leverage_within_limit {
                                    (
                                        RequestFlow { method: m, phase: Phase::AwaitZkosTx },
                                        Action::SerializeZkosTx,
                                    )
                                } else {
                                    (
                                        done,
                                        Action::Reject {
                                            error: RequestError::InvalidLeverage,
                                            log: Some(trader_limits_record_for()),
                                        },
                                    )
                                }
                            },
                            AmountSign::NotPositive => (
                                done,
                                Action::Reject {
                                    error: RequestError::InvalidInitialMargin,
                                    log: Some(trader_limits_record_for()),
                                },
                            ),
                            AmountSign::Unordered => (
                                done,
                                Action::Reject {
                                    error: RequestError::InvalidLeverage,
                                    log: Some(trader_limits_record_for()),
                                },
                            ),
                        }
                    },
                    _ => (RequestFlow { method: m, phase: Phase::AwaitLimits }, Action::Wait),
                }
            },
            Event::LendLimits { deposit, now_micros } => {
                match m {
                    RpcMethod::CreateLendOrder => {
                        match deposit {
                            AmountSign::Positive => (
                                RequestFlow {
                                    method: m,
                                    phase: Phase::AwaitResponse { zkos_tx: None },
                                },
                                Action::SerializeResponse,
                            ),
                            _ => (
                                done,
                                Action::Reject {
                                    error: RequestError::InvalidDeposit,
                                    log: Some(failure_record_for(m, now_micros)),
                                },
                            ),
                        }
                    },
                    _ => (RequestFlow { method: m, phase: Phase::AwaitLimits }, Action::Wait),
                }
            },
            _ => (RequestFlow { method: m, phase: Phase::AwaitLimits }, Action::Wait),
        },
        Phase::AwaitZkosTx => match event {
            Event::ZkosTx(Err(t)) => (
                done,
                Action::Reject { error: RequestError::TxSerialization(t), log: None },
            ),
            Event::ZkosTx(Ok(bytes)) => {
                let text = hex_encode_bytes(bytes.as_slice());
                (
                    RequestFlow { method: m, phase: Phase::AwaitResponse { zkos_tx: Some(text) } },
                    Action::SerializeResponse,
                )
            },
            _ => (RequestFlow { method: m, phase: Phase::AwaitZkosTx }, Action::Wait),
        },
        Phase::AwaitResponse { zkos_tx } => match event {
            Event::ResponseValue { outcome: Err(t), now_micros: _ } => (
                done,
                Action::Reject { error: RequestError::ResponseSerialization(t), log: None },
            ),
            Event::ResponseValue { outcome: Ok(()), now_micros } => (
                RequestFlow { method: m, phase: Phase::AwaitSubmission },
                Action::Submit { record: submission_record_for(m, now_micros), zkos_tx },
            ),
            _ => (RequestFlow { method: m, phase: Phase::AwaitResponse { zkos_tx } }, Action::Wait),
        },
        Phase::AwaitSubmission => match event {
            Event::Submitted(Err(t)) => (
                done,
                Action::Reject { error: RequestError::QueueSend(t), log: None },
            ),
            Event::Submitted(Ok(())) => (done, Action::Accept),
            _ => (RequestFlow { method: m, phase: Phase::AwaitSubmission }, Action::Wait),
        },
        Phase::Done => (done, Action::Wait),
    }
}

/// The record under which a trader order refused for its amounts is logged.
fn trader_limits_record_for() -> (r: QueueRecord)
    ensures
        r@ == trader_limits_record(),
{
    QueueRecord {
        topic: String::from_str("CLIENT-FAILED-REQUEST"),
        key: String::from_str("CreateTraderOrderfailed"),
    }
}

} // verus!
