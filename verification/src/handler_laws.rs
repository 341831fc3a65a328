use vstd::prelude::*;
use crate::handler::{
    AmountSign, ActionView, EventView, FlowView, PhaseView, RpcMethod, failed_topic, next_step,
    request_topic, start, submission_record,
};
use crate::hex_codec::{HexError, hex_decoded, hex_encoded, hex_error_for, is_hex_digit, is_valid_hex};
use crate::handler::{ErrorView, RecordView, checks_limits, first_non_hex, hex_error_of, method_name};
use vstd::utf8::encode_utf8;

verus! {

/// The state reached and the actions asked for when `events` are reported in
/// turn, starting from flow `f`.
pub open spec fn run(f: FlowView, events: Seq<EventView>) -> (FlowView, Seq<ActionView>)
    decreases events.len(),
{
    if events.len() == 0 {
        (f, Seq::empty())
    } else {
        let (f1, a) = next_step(f, events[0]);
        let (f2, rest) = run(f1, events.drop_first());
        (f2, seq![a] + rest)
    }
}

/// An action that answers the request.
pub open spec fn is_answer(a: ActionView) -> bool {
    a is Reject || a is Accept
}

/// The number of answers among `acts`.
pub open spec fn answer_count(acts: Seq<ActionView>) -> nat
    decreases acts.len(),
{
    if acts.len() == 0 {
        0
    } else {
        (if is_answer(acts[0]) { 1nat } else { 0nat }) + answer_count(acts.drop_first())
    }
}

/// The verifier accepted the order's proof.
pub open spec fn is_verified(e: EventView) -> bool {
    match e {
        EventView::Verification { outcome: Ok(()), .. } => true,
        _ => false,
    }
}

/// The order read as the method's order.
pub open spec fn is_decoded(e: EventView) -> bool {
    match e {
        EventView::Order(Ok(())) => true,
        _ => false,
    }
}

/// The order's amounts are within their limits, for a method that checks
/// them (a positive margin and a leverage within the limit for a trader
/// order, a positive deposit for a lend order); for the other methods, the
/// order's proof was accepted.
pub open spec fn passes_limits(m: RpcMethod, e: EventView) -> bool {
    match m {
        RpcMethod::CreateTraderOrder => match e {
            EventView::TraderLimits { margin, leverage_within_limit } => margin
                == AmountSign::Positive && leverage_within_limit,
            _ => false,
        },
        RpcMethod::CreateLendOrder => match e {
            EventView::LendLimits { deposit, .. } => deposit == AmountSign::Positive,
            _ => false,
        },
        _ => is_verified(e),
    }
}

/// The request has got past the check of its proof.
pub open spec fn past_verification(p: PhaseView) -> bool {
    p is AwaitLimits || p is AwaitZkosTx || p is AwaitResponse || p is AwaitSubmission
}

/// The request has got past the check of its amounts.
pub open spec fn past_limits(m: RpcMethod, p: PhaseView) -> bool {
    if m == RpcMethod::CreateTraderOrder || m == RpcMethod::CreateLendOrder {
        p is AwaitZkosTx || p is AwaitResponse || p is AwaitSubmission
    } else {
        past_verification(p)
    }
}

/// The request's order has been read.
pub open spec fn past_decoding(p: PhaseView) -> bool {
    p is AwaitVerification || past_verification(p)
}

proof fn lemma_run_len(f: FlowView, events: Seq<EventView>)
    ensures
        run(f, events).1.len() == events.len(),
    decreases events.len(),
{
    if events.len() > 0 {
        lemma_run_len(next_step(f, events[0]).0, events.drop_first());
    }
}

proof fn lemma_step_keeps_method(f: FlowView, e: EventView)
    ensures
        next_step(f, e).0.method == f.method,
{
}

proof fn lemma_run_from_done(f: FlowView, events: Seq<EventView>)
    requires
        f.phase is Done,
    ensures
        run(f, events).0 == f,
        forall|k: int| 0 <= k < events.len() ==> run(f, events).1[k] is Wait,
        run(f, events).1.len() == events.len(),
        answer_count(run(f, events).1) == 0,
    decreases events.len(),
{
    if events.len() > 0 {
        lemma_run_from_done(f, events.drop_first());
        let acts = run(f, events).1;
        assert(acts.drop_first() =~= run(f, events.drop_first()).1);
    } else {
        assert(run(f, events).1 =~= Seq::<ActionView>::empty());
    }
}

/// Once a request has been answered it stays answered, and nothing more is
/// done for it whatever is reported.
pub proof fn law_answered_is_final(f: FlowView, e: EventView)
    requires
        f.phase is Done,
    ensures
        next_step(f, e) == (f, ActionView::Wait),
{
}

/// A request is answered exactly once: the actions of any run from a
/// pending request hold one answer if the request ends answered and none
/// otherwise.
pub proof fn law_answered_once(f: FlowView, events: Seq<EventView>)
    requires
        !(f.phase is Done),
    ensures
        answer_count(run(f, events).1) == (if run(f, events).0.phase is Done {
            1nat
        } else {
            0nat
        }),
    decreases events.len(),
{
    if events.len() > 0 {
        let (f1, a) = next_step(f, events[0]);
        let rest = events.drop_first();
        let acts = run(f, events).1;
        assert(acts.drop_first() =~= run(f1, rest).1);
        assert(acts[0] == a);
        if f1.phase is Done {
            assert(is_answer(a));
            lemma_run_from_done(f1, rest);
        } else {
            assert(!is_answer(a));
            law_answered_once(f1, rest);
        }
    }
}

/// A request is answered with success only after it has been queued: every
/// `Accept` in a run from a new request follows a `Submit`.
pub proof fn law_accept_follows_submit(m: RpcMethod, events: Seq<EventView>, k: int)
    requires
        0 <= k < run(start(m), events).1.len(),
        run(start(m), events).1[k] is Accept,
    ensures
        exists|j: int| 0 <= j < k && (#[trigger] run(start(m), events).1[j]) is Submit,
{
    lemma_accept_follows_submit(start(m), events, k);
}

proof fn lemma_accept_follows_submit(f: FlowView, events: Seq<EventView>, k: int)
    requires
        0 <= k < run(f, events).1.len(),
        run(f, events).1[k] is Accept,
    ensures
        f.phase is AwaitSubmission || exists|j: int|
            0 <= j < k && (#[trigger] run(f, events).1[j]) is Submit,
    decreases events.len(),
{
    if events.len() == 0 {
        assert(run(f, events).1.len() == 0);
    } else {
        let (f1, a) = next_step(f, events[0]);
        let rest = events.drop_first();
        let acts = run(f, events).1;
        assert(acts =~= seq![a] + run(f1, rest).1);
        if k == 0 {
            assert(a is Accept);
        } else {
            assert(acts[k] == run(f1, rest).1[k - 1]);
            lemma_accept_follows_submit(f1, rest, k - 1);
            if f1.phase is AwaitSubmission {
                if !(f.phase is AwaitSubmission) {
                    assert(a is Submit);
                    assert(acts[0] is Submit);
                }
            } else {
                let j = choose|j: int| 0 <= j < k - 1 && (#[trigger] run(f1, rest).1[j]) is Submit;
                assert(acts[j + 1] == run(f1, rest).1[j]);
            }
        }
    }
}

proof fn lemma_submit_needs_approval(f: FlowView, events: Seq<EventView>, k: int)
    requires
        0 <= k < run(f, events).1.len(),
        run(f, events).1[k] is Submit,
    ensures
        past_verification(f.phase) || exists|i: int|
            0 <= i < k && #[trigger] is_verified(events[i]),
        past_limits(f.method, f.phase) || exists|i: int|
            0 <= i < k && #[trigger] passes_limits(f.method, events[i]),
    decreases events.len(),
{
    if events.len() == 0 {
        assert(run(f, events).1.len() == 0);
    } else {
        let (f1, a) = next_step(f, events[0]);
        let rest = events.drop_first();
        let acts = run(f, events).1;
        lemma_run_len(f1, rest);
        lemma_step_keeps_method(f, events[0]);
        assert(acts =~= seq![a] + run(f1, rest).1);
        if k == 0 {
            assert(a is Submit);
        } else {
            assert(acts[k] == run(f1, rest).1[k - 1]);
            lemma_submit_needs_approval(f1, rest, k - 1);
            if past_verification(f1.phase) {
                if !past_verification(f.phase) {
                    assert(is_verified(events[0]));
                }
            } else {
                let i = choose|i: int| 0 <= i < k - 1 && #[trigger] is_verified(rest[i]);
                assert(rest[i] == events[i + 1]);
            }
            if past_limits(f.method, f1.phase) {
                if !past_limits(f.method, f.phase) {
                    assert(passes_limits(f.method, events[0]));
                }
            } else {
                let i = choose|i: int| 0 <= i < k - 1 && #[trigger] passes_limits(f.method, rest[i]);
                assert(rest[i] == events[i + 1]);
            }
        }
    }
}

/// A request is queued only once its order's proof has been accepted and,
/// for the methods that check them, its amounts are within their limits.
pub proof fn law_queued_only_when_approved(m: RpcMethod, events: Seq<EventView>, k: int)
    requires
        0 <= k < run(start(m), events).1.len(),
        run(start(m), events).1[k] is Submit,
    ensures
        exists|i: int| 0 <= i < k && #[trigger] is_verified(events[i]),
        exists|i: int| 0 <= i < k && #[trigger] passes_limits(m, events[i]),
{
    lemma_submit_needs_approval(start(m), events, k);
}

proof fn lemma_log_needs_decoding(f: FlowView, events: Seq<EventView>, k: int)
    requires
        0 <= k < run(f, events).1.len(),
        run(f, events).1[k] matches ActionView::Reject { log: Some(_), .. },
    ensures
        past_decoding(f.phase) || exists|i: int| 0 <= i < k && #[trigger] is_decoded(events[i]),
    decreases events.len(),
{
    if events.len() == 0 {
        assert(run(f, events).1.len() == 0);
    } else {
        let (f1, a) = next_step(f, events[0]);
        let rest = events.drop_first();
        let acts = run(f, events).1;
        lemma_run_len(f1, rest);
        assert(acts =~= seq![a] + run(f1, rest).1);
        if k == 0 {
            assert(acts[0] == a);
        } else {
            assert(acts[k] == run(f1, rest).1[k - 1]);
            lemma_log_needs_decoding(f1, rest, k - 1);
            if past_decoding(f1.phase) {
                if !past_decoding(f.phase) {
                    assert(is_decoded(events[0]));
                }
            } else {
                let i = choose|i: int| 0 <= i < k - 1 && #[trigger] is_decoded(rest[i]);
                assert(rest[i] == events[i + 1]);
            }
        }
    }
}

/// A refused request is recorded on the failure topic only if its order had
/// been read: refusals of the parameter, its hex text or the order's bytes are
/// answered without a record.
pub proof fn law_failure_logged_only_after_decoding(m: RpcMethod, events: Seq<EventView>, k: int)
    requires
        0 <= k < run(start(m), events).1.len(),
        run(start(m), events).1[k] matches ActionView::Reject { log: Some(_), .. },
    ensures
        exists|i: int| 0 <= i < k && #[trigger] is_decoded(events[i]),
{
    lemma_log_needs_decoding(start(m), events, k);
}

/// Accepted requests go to the request topic under the method's name and the
/// time; logged failures go to the failure topic.
pub proof fn law_topics(f: FlowView, e: EventView)
    ensures
        next_step(f, e).1 matches ActionView::Submit { record, .. } ==> record == submission_record(
            f.method,
            record_time(e),
        ) && record.topic == request_topic(),
        next_step(f, e).1 matches ActionView::Reject { log: Some(record), .. } ==> record.topic
            == failed_topic(),
{
}

/// The time an event was reported at, where it carries one.
pub open spec fn record_time(e: EventView) -> u128 {
    match e {
        EventView::Verification { now_micros, .. } => now_micros,
        EventView::LendLimits { now_micros, .. } => now_micros,
        EventView::ResponseValue { now_micros, .. } => now_micros,
        _ => 0,
    }
}

/// A flow in a shape that requests reach: only trader orders await a zkos
/// transaction, and exactly they carry one when awaiting the response.
pub open spec fn carries_zkos_as_expected(f: FlowView) -> bool {
    match f.phase {
        PhaseView::AwaitZkosTx => f.method == RpcMethod::CreateTraderOrder,
        PhaseView::AwaitResponse { zkos_tx } => (f.method == RpcMethod::CreateTraderOrder) == (
        zkos_tx is Some),
        _ => true,
    }
}

/// The serialized zkos transaction `bytes` was reported.
pub open spec fn reports_zkos_tx(e: EventView, bytes: Seq<u8>) -> bool {
    e == EventView::ZkosTx(Ok(bytes))
}

proof fn lemma_step_carries_zkos(f: FlowView, e: EventView)
    requires
        carries_zkos_as_expected(f),
    ensures
        carries_zkos_as_expected(next_step(f, e).0),
{
}

proof fn lemma_submit_carries_zkos(f: FlowView, events: Seq<EventView>, k: int)
    requires
        carries_zkos_as_expected(f),
        0 <= k < run(f, events).1.len(),
        run(f, events).1[k] is Submit,
    ensures
        f.method != RpcMethod::CreateTraderOrder ==> run(f, events).1[k]->Submit_zkos_tx is None,
        f.method == RpcMethod::CreateTraderOrder ==> (f.phase matches PhaseView::AwaitResponse {
            zkos_tx,
        } && run(f, events).1[k]->Submit_zkos_tx == zkos_tx) || exists|i: int, b: Seq<u8>|
            0 <= i < k && #[trigger] reports_zkos_tx(events[i], b) && run(f, events).1[k]->Submit_zkos_tx
                == Some(hex_encoded(b)),
    decreases events.len(),
{
    if events.len() == 0 {
        assert(run(f, events).1.len() == 0);
    } else {
        let (f1, a) = next_step(f, events[0]);
        let rest = events.drop_first();
        let acts = run(f, events).1;
        lemma_run_len(f1, rest);
        lemma_step_keeps_method(f, events[0]);
        lemma_step_carries_zkos(f, events[0]);
        assert(acts =~= seq![a] + run(f1, rest).1);
        if k > 0 {
            assert(acts[k] == run(f1, rest).1[k - 1]);
            lemma_submit_carries_zkos(f1, rest, k - 1);
            if f.method == RpcMethod::CreateTraderOrder {
                let z = acts[k]->Submit_zkos_tx;
                if f1.phase matches PhaseView::AwaitResponse { zkos_tx } && z == zkos_tx {
                    if f.phase is AwaitZkosTx {
                        let b = events[0]->ZkosTx_0->Ok_0;
                        assert(reports_zkos_tx(events[0], b));
                    }
                } else {
                    let (i, b) = choose|i: int, b: Seq<u8>|
                        0 <= i < k - 1 && #[trigger] reports_zkos_tx(rest[i], b) && z == Some(
                            hex_encoded(b),
                        );
                    assert(rest[i] == events[i + 1]);
                    assert(reports_zkos_tx(events[i + 1], b));
                }
            }
        }
    }
}

/// A trader order is queued with the hex text of the serialized zkos
/// transaction reported for it; the other orders are queued without one.
pub proof fn law_trader_order_carries_zkos_tx(m: RpcMethod, events: Seq<EventView>, k: int)
    requires
        0 <= k < run(start(m), events).1.len(),
        run(start(m), events).1[k] is Submit,
    ensures
        m != RpcMethod::CreateTraderOrder ==> run(start(m), events).1[k]->Submit_zkos_tx is None,
        m == RpcMethod::CreateTraderOrder ==> exists|i: int, b: Seq<u8>|
            0 <= i < k && #[trigger] reports_zkos_tx(events[i], b) && run(start(m), events).1[k]->Submit_zkos_tx
                == Some(hex_encoded(b)),
{
    lemma_submit_carries_zkos(start(m), events, k);
}

proof fn lemma_first_non_hex_below(d: Seq<u8>, i: int)
    requires
        0 <= i < d.len(),
        !is_hex_digit(d[i]),
    ensures
        exists|k: int|
            0 <= k < d.len() && !is_hex_digit(d[k]) && forall|j: int|
                0 <= j < k ==> #[trigger] is_hex_digit(d[j]),
    decreases i,
{
    if exists|j: int| 0 <= j < i && !is_hex_digit(d[j]) {
        let j = choose|j: int| 0 <= j < i && !is_hex_digit(d[j]);
        lemma_first_non_hex_below(d, j);
    } else {
        assert forall|j: int| 0 <= j < i implies #[trigger] is_hex_digit(d[j]) by {}
    }
}

/// Invalid hex input is refused with an error that fits it.
proof fn lemma_hex_error_of_fits(d: Seq<u8>)
    requires
        !is_valid_hex(d),
        d.len() <= usize::MAX,
    ensures
        hex_error_for(d, hex_error_of(d)),
{
    if d.len() % 2 == 0 {
        let i = choose|i: int| 0 <= i < d.len() && !#[trigger] is_hex_digit(d[i]);
        lemma_first_non_hex_below(d, i);
        let k = first_non_hex(d);
        assert(0 <= k < d.len() && !is_hex_digit(d[k]));
    }
}

/// The parameter of every method is decoded whatever its length: valid hex
/// text (an even number of hex digits, in UTF-8) moves the request on with
/// exactly its decoded bytes to be read as the order; any other text is
/// refused, without a failure record, with the error that decoding reports
/// for it.
pub proof fn law_parameter_decoding(m: RpcMethod, text: Seq<char>)
    requires
        encode_utf8(text).len() <= usize::MAX,
    ensures
        is_valid_hex(encode_utf8(text)) ==> next_step(start(m), EventView::Params(Ok(text)))
            == (flow_in(m, PhaseView::AwaitOrder), ActionView::DecodeOrder(
            hex_decoded(encode_utf8(text)),
        )),
        is_valid_hex(encode_utf8(text)) ==> hex_decoded(encode_utf8(text)).len() * 2
            == encode_utf8(text).len(),
        !is_valid_hex(encode_utf8(text)) ==> next_step(start(m), EventView::Params(Ok(text))).0
            == flow_in(m, PhaseView::Done),
        !is_valid_hex(encode_utf8(text)) ==> next_step(start(m), EventView::Params(Ok(text))).1 is Reject,
        !is_valid_hex(encode_utf8(text)) ==> next_step(
            start(m),
            EventView::Params(Ok(text)),
        ).1->Reject_log is None,
        !is_valid_hex(encode_utf8(text)) ==> next_step(
            start(m),
            EventView::Params(Ok(text)),
        ).1->Reject_error is InvalidHex,
        !is_valid_hex(encode_utf8(text)) ==> hex_error_for(
            encode_utf8(text),
            next_step(start(m), EventView::Params(Ok(text))).1->Reject_error->InvalidHex_0,
        ),
{
    if !is_valid_hex(encode_utf8(text)) {
        lemma_hex_error_of_fits(encode_utf8(text));
    }
}

/// The flow of a request for method `m` in phase `p`.
pub open spec fn flow_in(m: RpcMethod, p: PhaseView) -> FlowView {
    FlowView { method: m, phase: p }
}

/// An order whose proof is accepted goes on at any time: to the check of its
/// amounts for new trader and lend orders, straight to serializing the
/// response for settle and cancel requests.
pub proof fn law_verified_order_goes_on(m: RpcMethod, now_micros: u128)
    ensures
        checks_limits(m) ==> next_step(
            flow_in(m, PhaseView::AwaitVerification),
            EventView::Verification { outcome: Ok(()), now_micros: now_micros },
        ) == (flow_in(m, PhaseView::AwaitLimits), ActionView::CheckLimits),
        !checks_limits(m) ==> next_step(
            flow_in(m, PhaseView::AwaitVerification),
            EventView::Verification { outcome: Ok(()), now_micros: now_micros },
        ) == (flow_in(m, (PhaseView::AwaitResponse { zkos_tx: None })), ActionView::SerializeResponse),
{
}

/// A trader order's serialized zkos transaction of any length is taken, as
/// its hex text, to the response step.
pub proof fn law_zkos_tx_taken(bytes: Seq<u8>)
    ensures
        next_step(
            flow_in(RpcMethod::CreateTraderOrder, PhaseView::AwaitZkosTx),
            EventView::ZkosTx(Ok(bytes)),
        ) == (flow_in(
            RpcMethod::CreateTraderOrder,
            (PhaseView::AwaitResponse { zkos_tx: Some(hex_encoded(bytes)) }),
        ), ActionView::SerializeResponse),
        hex_encoded(bytes).len() == 2 * bytes.len(),
{
}

proof fn lemma_run_cons(f: FlowView, e: EventView, rest: Seq<EventView>)
    ensures
        run(f, seq![e] + rest) == (
            run(next_step(f, e).0, rest).0,
            seq![next_step(f, e).1] + run(next_step(f, e).0, rest).1,
        ),
{
    assert((seq![e] + rest).drop_first() =~= rest);
    assert((seq![e] + rest)[0] == e);
}

proof fn lemma_run_one(f: FlowView, e: EventView)
    ensures
        run(f, seq![e]) == (next_step(f, e).0, seq![next_step(f, e).1]),
{
    lemma_run_cons(f, e, Seq::empty());
    assert(seq![e] + Seq::<EventView>::empty() =~= seq![e]);
    assert(seq![next_step(f, e).1] + Seq::<ActionView>::empty() =~= seq![next_step(f, e).1]);
}

/// An approved trader order is queued and accepted: from a new request, valid
/// hex text of any length, a decoded order, an accepted proof, a positive
/// margin with a leverage within the limit, a serialized zkos transaction of
/// any length, a serialized response and a successful submission lead to
/// exactly these actions, the last of which is `Accept`.
#[verifier::rlimit(60)]
pub proof fn law_trader_order_accepted(
    text: Seq<char>,
    verified_at: u128,
    zkos_tx: Seq<u8>,
    response_at: u128,
)
    requires
        is_valid_hex(encode_utf8(text)),
    ensures
        run(
            start(RpcMethod::CreateTraderOrder),
            seq![
                EventView::Params(Ok(text)),
                EventView::Order(Ok(())),
                EventView::Verification { outcome: Ok(()), now_micros: verified_at },
                EventView::TraderLimits { margin: AmountSign::Positive, leverage_within_limit: true },
                EventView::ZkosTx(Ok(zkos_tx)),
                EventView::ResponseValue { outcome: Ok(()), now_micros: response_at },
                EventView::Submitted(Ok(())),
            ],
        ) == (
            FlowView { method: RpcMethod::CreateTraderOrder, phase: PhaseView::Done },
            seq![
                ActionView::DecodeOrder(hex_decoded(encode_utf8(text))),
                ActionView::Verify,
                ActionView::CheckLimits,
                ActionView::SerializeZkosTx,
                ActionView::SerializeResponse,
                ActionView::Submit {
                    record: RecordView {
                        topic: "CLIENT-REQUEST"@,
                        key: "CreateTraderOrder-"@ + crate::decimal::decimal_text(response_at as nat),
                    },
                    zkos_tx: Some(hex_encoded(zkos_tx)),
                },
                ActionView::Accept,
            ],
        ),
{
    let m = RpcMethod::CreateTraderOrder;
    let d = encode_utf8(text);
    let hex = hex_encoded(zkos_tx);
    let e0 = EventView::Params(Ok(text));
    let e1 = EventView::Order(Ok(()));
    let e2 = EventView::Verification { outcome: Ok(()), now_micros: verified_at };
    let e3 = EventView::TraderLimits { margin: AmountSign::Positive, leverage_within_limit: true };
    let e4 = EventView::ZkosTx(Ok(zkos_tx));
    let e5 = EventView::ResponseValue { outcome: Ok(()), now_micros: response_at };
    let e6 = EventView::Submitted(Ok(()));
    let f0 = start(m);
    let f1 = flow_in(m, PhaseView::AwaitOrder);
    let f2 = flow_in(m, PhaseView::AwaitVerification);
    let f3 = flow_in(m, PhaseView::AwaitLimits);
    let f4 = flow_in(m, PhaseView::AwaitZkosTx);
    let f5 = flow_in(m, PhaseView::AwaitResponse { zkos_tx: Some(hex) });
    let f6 = flow_in(m, PhaseView::AwaitSubmission);
    let f7 = flow_in(m, PhaseView::Done);
    let a0 = ActionView::DecodeOrder(hex_decoded(d));
    let a5 = ActionView::Submit { record: submission_record(m, response_at), zkos_tx: Some(hex) };
    assert(next_step(f0, e0) == (f1, a0));
    assert(next_step(f1, e1) == (f2, ActionView::Verify));
    assert(next_step(f2, e2) == (f3, ActionView::CheckLimits));
    assert(next_step(f3, e3) == (f4, ActionView::SerializeZkosTx));
    assert(next_step(f4, e4) == (f5, ActionView::SerializeResponse));
    assert(next_step(f5, e5) == (f6, a5));
    assert(next_step(f6, e6) == (f7, ActionView::Accept));
    assert(submission_record(m, response_at) == RecordView {
        topic: "CLIENT-REQUEST"@,
        key: "CreateTraderOrder-"@ + crate::decimal::decimal_text(response_at as nat),
    }) by {
        reveal_strlit("CreateTraderOrder");
        reveal_strlit("-");
        reveal_strlit("CreateTraderOrder-");
        assert("CreateTraderOrder"@ + "-"@ =~= "CreateTraderOrder-"@);
        assert(("CreateTraderOrder"@ + "-"@) + crate::decimal::decimal_text(response_at as nat)
            =~= "CreateTraderOrder-"@ + crate::decimal::decimal_text(response_at as nat));
    }
    lemma_run_one(f6, e6);
    lemma_run_cons(f5, e5, seq![e6]);
    assert(seq![e5] + seq![e6] =~= seq![e5, e6]);
    lemma_run_cons(f4, e4, seq![e5, e6]);
    assert(seq![e4] + seq![e5, e6] =~= seq![e4, e5, e6]);
    lemma_run_cons(f3, e3, seq![e4, e5, e6]);
    assert(seq![e3] + seq![e4, e5, e6] =~= seq![e3, e4, e5, e6]);
    lemma_run_cons(f2, e2, seq![e3, e4, e5, e6]);
    assert(seq![e2] + seq![e3, e4, e5, e6] =~= seq![e2, e3, e4, e5, e6]);
    lemma_run_cons(f1, e1, seq![e2, e3, e4, e5, e6]);
    assert(seq![e1] + seq![e2, e3, e4, e5, e6] =~= seq![e1, e2, e3, e4, e5, e6]);
    lemma_run_cons(f0, e0, seq![e1, e2, e3, e4, e5, e6]);
    assert(seq![e0] + seq![e1, e2, e3, e4, e5, e6] =~= seq![e0, e1, e2, e3, e4, e5, e6]);
    assert(run(f0, seq![e0, e1, e2, e3, e4, e5, e6]).1 =~= seq![
        a0,
        ActionView::Verify,
        ActionView::CheckLimits,
        ActionView::SerializeZkosTx,
        ActionView::SerializeResponse,
        a5,
        ActionView::Accept,
    ]);
}

proof fn lemma_accepted_tail(m: RpcMethod, zkos_tx: Option<Seq<char>>, response_at: u128)
    ensures
        run(
            flow_in(m, PhaseView::AwaitResponse { zkos_tx }),
            seq![
                EventView::ResponseValue { outcome: Ok(()), now_micros: response_at },
                EventView::Submitted(Ok(())),
            ],
        ) == (
            flow_in(m, PhaseView::Done),
            seq![
                ActionView::Submit { record: submission_record(m, response_at), zkos_tx },
                ActionView::Accept,
            ],
        ),
{
    let e5 = EventView::ResponseValue { outcome: Ok(()), now_micros: response_at };
    let e6 = EventView::Submitted(Ok(()));
    let f5 = flow_in(m, PhaseView::AwaitResponse { zkos_tx });
    let f6 = flow_in(m, PhaseView::AwaitSubmission);
    assert(next_step(f5, e5) == (
        f6,
        ActionView::Submit { record: submission_record(m, response_at), zkos_tx },
    ));
    assert(next_step(f6, e6) == (flow_in(m, PhaseView::Done), ActionView::Accept));
    lemma_run_one(f6, e6);
    lemma_run_cons(f5, e5, seq![e6]);
    assert(seq![e5] + seq![e6] =~= seq![e5, e6]);
    assert(run(f5, seq![e5, e6]).1 =~= seq![
        ActionView::Submit { record: submission_record(m, response_at), zkos_tx },
        ActionView::Accept,
    ]);
}

/// An approved lend order is queued and accepted: valid hex text of any
/// length, a decoded order, an accepted proof, a positive deposit, a
/// serialized response and a successful submission lead to exactly these
/// actions, the last of which is `Accept`; no zkos text is forwarded.
#[verifier::rlimit(60)]
pub proof fn law_lend_order_accepted(
    text: Seq<char>,
    verified_at: u128,
    checked_at: u128,
    response_at: u128,
)
    requires
        is_valid_hex(encode_utf8(text)),
    ensures
        run(
            start(RpcMethod::CreateLendOrder),
            seq![
                EventView::Params(Ok(text)),
                EventView::Order(Ok(())),
                EventView::Verification { outcome: Ok(()), now_micros: verified_at },
                EventView::LendLimits { deposit: AmountSign::Positive, now_micros: checked_at },
                EventView::ResponseValue { outcome: Ok(()), now_micros: response_at },
                EventView::Submitted(Ok(())),
            ],
        ) == (
            flow_in(RpcMethod::CreateLendOrder, PhaseView::Done),
            seq![
                ActionView::DecodeOrder(hex_decoded(encode_utf8(text))),
                ActionView::Verify,
                ActionView::CheckLimits,
                ActionView::SerializeResponse,
                ActionView::Submit {
                    record: RecordView {
                        topic: "CLIENT-REQUEST"@,
                        key: "CreateLendOrder-"@ + crate::decimal::decimal_text(response_at as nat),
                    },
                    zkos_tx: None,
                },
                ActionView::Accept,
            ],
        ),
{
    let m = RpcMethod::CreateLendOrder;
    let d = encode_utf8(text);
    let e0 = EventView::Params(Ok(text));
    let e1 = EventView::Order(Ok(()));
    let e2 = EventView::Verification { outcome: Ok(()), now_micros: verified_at };
    let e3 = EventView::LendLimits { deposit: AmountSign::Positive, now_micros: checked_at };
    let e5 = EventView::ResponseValue { outcome: Ok(()), now_micros: response_at };
    let e6 = EventView::Submitted(Ok(()));
    let f0 = start(m);
    let f1 = flow_in(m, PhaseView::AwaitOrder);
    let f2 = flow_in(m, PhaseView::AwaitVerification);
    let f3 = flow_in(m, PhaseView::AwaitLimits);
    let f5 = flow_in(m, PhaseView::AwaitResponse { zkos_tx: None });
    let a0 = ActionView::DecodeOrder(hex_decoded(d));
    let a5 = ActionView::Submit { record: submission_record(m, response_at), zkos_tx: None };
    assert(next_step(f0, e0) == (f1, a0));
    assert(next_step(f1, e1) == (f2, ActionView::Verify));
    assert(next_step(f2, e2) == (f3, ActionView::CheckLimits));
    assert(next_step(f3, e3) == (f5, ActionView::SerializeResponse));
    assert(submission_record(m, response_at) == RecordView {
        topic: "CLIENT-REQUEST"@,
        key: "CreateLendOrder-"@ + crate::decimal::decimal_text(response_at as nat),
    }) by {
        reveal_strlit("CreateLendOrder");
        reveal_strlit("-");
        reveal_strlit("CreateLendOrder-");
        assert("CreateLendOrder"@ + "-"@ =~= "CreateLendOrder-"@);
        assert(("CreateLendOrder"@ + "-"@) + crate::decimal::decimal_text(response_at as nat)
            =~= "CreateLendOrder-"@ + crate::decimal::decimal_text(response_at as nat));
    }
    lemma_accepted_tail(m, None, response_at);
    lemma_run_cons(f3, e3, seq![e5, e6]);
    assert(seq![e3] + seq![e5, e6] =~= seq![e3, e5, e6]);
    lemma_run_cons(f2, e2, seq![e3, e5, e6]);
    assert(seq![e2] + seq![e3, e5, e6] =~= seq![e2, e3, e5, e6]);
    lemma_run_cons(f1, e1, seq![e2, e3, e5, e6]);
    assert(seq![e1] + seq![e2, e3, e5, e6] =~= seq![e1, e2, e3, e5, e6]);
    lemma_run_cons(f0, e0, seq![e1, e2, e3, e5, e6]);
    assert(seq![e0] + seq![e1, e2, e3, e5, e6] =~= seq![e0, e1, e2, e3, e5, e6]);
    assert(run(f0, seq![e0, e1, e2, e3, e5, e6]).1 =~= seq![
        a0,
        ActionView::Verify,
        ActionView::CheckLimits,
        ActionView::SerializeResponse,
        a5,
        ActionView::Accept,
    ]);
}

/// An approved settle or cancel request is queued and accepted at any time:
/// valid hex text of any length, a decoded request, an accepted proof, a
/// serialized response and a successful submission lead to exactly these
/// actions, queued under the method's name and the submission time, the
/// last of which is `Accept`.
#[verifier::rlimit(60)]
pub proof fn law_settle_or_cancel_accepted(
    m: RpcMethod,
    text: Seq<char>,
    verified_at: u128,
    response_at: u128,
)
    requires
        !checks_limits(m),
        is_valid_hex(encode_utf8(text)),
    ensures
        run(
            start(m),
            seq![
                EventView::Params(Ok(text)),
                EventView::Order(Ok(())),
                EventView::Verification { outcome: Ok(()), now_micros: verified_at },
                EventView::ResponseValue { outcome: Ok(()), now_micros: response_at },
                EventView::Submitted(Ok(())),
            ],
        ) == (
            flow_in(m, PhaseView::Done),
            seq![
                ActionView::DecodeOrder(hex_decoded(encode_utf8(text))),
                ActionView::Verify,
                ActionView::SerializeResponse,
                ActionView::Submit {
                    record: RecordView {
                        topic: "CLIENT-REQUEST"@,
                        key: method_name(m) + "-"@ + crate::decimal::decimal_text(response_at as nat),
                    },
                    zkos_tx: None,
                },
                ActionView::Accept,
            ],
        ),
{
    let d = encode_utf8(text);
    let e0 = EventView::Params(Ok(text));
    let e1 = EventView::Order(Ok(()));
    let e2 = EventView::Verification { outcome: Ok(()), now_micros: verified_at };
    let e5 = EventView::ResponseValue { outcome: Ok(()), now_micros: response_at };
    let e6 = EventView::Submitted(Ok(()));
    let f0 = start(m);
    let f1 = flow_in(m, PhaseView::AwaitOrder);
    let f2 = flow_in(m, PhaseView::AwaitVerification);
    let f5 = flow_in(m, PhaseView::AwaitResponse { zkos_tx: None });
    let a0 = ActionView::DecodeOrder(hex_decoded(d));
    let a5 = ActionView::Submit { record: submission_record(m, response_at), zkos_tx: None };
    assert(next_step(f0, e0) == (f1, a0));
    assert(next_step(f1, e1) == (f2, ActionView::Verify));
    assert(next_step(f2, e2) == (f5, ActionView::SerializeResponse));
    lemma_accepted_tail(m, None, response_at);
    lemma_run_cons(f2, e2, seq![e5, e6]);
    assert(seq![e2] + seq![e5, e6] =~= seq![e2, e5, e6]);
    lemma_run_cons(f1, e1, seq![e2, e5, e6]);
    assert(seq![e1] + seq![e2, e5, e6] =~= seq![e1, e2, e5, e6]);
    lemma_run_cons(f0, e0, seq![e1, e2, e5, e6]);
    assert(seq![e0] + seq![e1, e2, e5, e6] =~= seq![e0, e1, e2, e5, e6]);
    assert(run(f0, seq![e0, e1, e2, e5, e6]).1 =~= seq![
        a0,
        ActionView::Verify,
        ActionView::SerializeResponse,
        a5,
        ActionView::Accept,
    ]);
}

} // verus!
