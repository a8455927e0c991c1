use vstd::prelude::*;
use crate::api_models::ExchangeCurrencyRequest;
use crate::errors::ErrorKind;
use crate::ledger::{apply_delta_spec, exchange_spec, lemma_found_wallet_position, LedgerModel};
use crate::models::ExchangeResult;
use crate::rate::{debit_spec, lemma_rounding_bound, rounding_residue, Rate, RATE_SCALE};

verus! {

/// Exchanges applied one after another, in order, starting from `m`: the
/// final state and the outcome of each request.
pub open spec fn run_exchanges(m: LedgerModel, reqs: Seq<ExchangeCurrencyRequest>) -> (
    LedgerModel,
    Seq<Result<ExchangeResult, ErrorKind>>,
)
    decreases reqs.len(),
{
    if reqs.len() == 0 {
        (m, Seq::empty())
    } else {
        let before = run_exchanges(m, reqs.drop_last());
        let step = exchange_spec(before.0, reqs.last());
        (step.0, before.1.push(step.1))
    }
}

/// The amount an exchange request would debit from the paying wallet.
pub open spec fn debit_of(req: ExchangeCurrencyRequest) -> int {
    debit_spec(req.sum as int, req.rate.micros as int)
}

/// The debits of all the requests together.
pub open spec fn total_debits(reqs: Seq<ExchangeCurrencyRequest>) -> int
    decreases reqs.len(),
{
    if reqs.len() == 0 {
        0
    } else {
        total_debits(reqs.drop_last()) + debit_of(reqs.last())
    }
}

/// The debits of the requests whose outcome is a success.
pub open spec fn paid_debits(
    reqs: Seq<ExchangeCurrencyRequest>,
    outcomes: Seq<Result<ExchangeResult, ErrorKind>>,
) -> int
    decreases reqs.len(),
{
    if reqs.len() == 0 || outcomes.len() == 0 {
        0
    } else {
        paid_debits(reqs.drop_last(), outcomes.drop_last()) + if outcomes.last() is Ok {
            debit_of(reqs.last())
        } else {
            0
        }
    }
}

/// The value held by a paying and a receiving wallet together, counted in
/// rate units of the paying currency, when one receiving unit is worth
/// `micros / RATE_SCALE` paying units.
pub open spec fn pair_value(m: LedgerModel, paying_id: int, receiving_id: int, micros: int) -> int {
    (RATE_SCALE as int) * m.balance_of(paying_id) + micros * m.balance_of(receiving_id)
}

/// Every exchange keeps the ledger well formed, so no balance ever goes
/// negative; it changes no wallet and no catalog entry; and a failed one
/// leaves the state exactly as it was.
pub proof fn lemma_exchange_preserves_wf(m: LedgerModel, req: ExchangeCurrencyRequest)
    requires
        m.wf(),
        req.is_valid(),
    ensures
        exchange_spec(m, req).0.wf(),
        exchange_spec(m, req).0.wallets == m.wallets,
        exchange_spec(m, req).0.currencies == m.currencies,
        exchange_spec(m, req).1 is Err ==> exchange_spec(m, req).0 == m,
        forall|id: int| #[trigger] exchange_spec(m, req).0.balance_of(id) >= 0,
{
    let u = req.order_issuer_id as int;
    if m.find_wallet(u, req.incoming_currency_id as int) is Some && m.find_wallet(
        u,
        req.outgoing_currency_id as int,
    ) is Some {
        lemma_found_wallet_position(m, u, req.incoming_currency_id as int);
        lemma_found_wallet_position(m, u, req.outgoing_currency_id as int);
        lemma_rounding_bound(req.sum as int, req.rate.micros as int);
    }
    let next = exchange_spec(m, req).0;
    assert forall|id: int| #[trigger] next.balance_of(id) >= 0 by {
        if 1 <= id <= next.balances.len() {
            assert(next.balances[id - 1] >= 0);
        }
    }
}

/// Funding never drives a balance negative: a delta that would fails with
/// `InsufficientFunds` and changes nothing, and every other outcome keeps
/// the ledger well formed.
pub proof fn lemma_apply_delta_preserves_wf(m: LedgerModel, wallet_id: int, delta: int)
    requires
        m.wf(),
    ensures
        apply_delta_spec(m, wallet_id, delta).0.wf(),
        apply_delta_spec(m, wallet_id, delta).0.wallets == m.wallets,
        apply_delta_spec(m, wallet_id, delta).1 is Err ==> apply_delta_spec(m, wallet_id, delta).0 == m,
        1 <= wallet_id <= m.wallets.len() && m.balance_of(wallet_id) + delta < 0 ==> apply_delta_spec(
            m,
            wallet_id,
            delta,
        ).1 == Err::<i32, ErrorKind>(ErrorKind::InsufficientFunds),
        forall|id: int| #[trigger] apply_delta_spec(m, wallet_id, delta).0.balance_of(id) >= 0,
{
    let next = apply_delta_spec(m, wallet_id, delta).0;
    assert forall|id: int| #[trigger] next.balance_of(id) >= 0 by {
        if 1 <= id <= next.balances.len() {
            assert(next.balances[id - 1] >= 0);
        }
    }
}

/// Conservation: an exchange between two distinct wallets moves value from
/// one to the other without creating or destroying any beyond rounding.
/// Counted in rate units of the paying currency, the pair's value changes by
/// exactly the rounding residue, which lies in `[-RATE_SCALE/2, RATE_SCALE/2)`,
/// i.e. less than half a minor unit; every other wallet is untouched.
pub proof fn lemma_exchange_conserves_value(m: LedgerModel, req: ExchangeCurrencyRequest)
    requires
        m.wf(),
        req.is_valid(),
        req.incoming_currency_id != req.outgoing_currency_id,
        exchange_spec(m, req).1 is Ok,
    ensures
        ({
            let next = exchange_spec(m, req).0;
            let settled = exchange_spec(m, req).1->Ok_0;
            let paying = settled.outgoing_wallet_id as int;
            let receiving = settled.incoming_wallet_id as int;
            &&& paying != receiving
            &&& next.balance_of(paying) == m.balance_of(paying) - debit_of(req)
            &&& next.balance_of(receiving) == m.balance_of(receiving) + req.sum
            &&& pair_value(next, paying, receiving, req.rate.micros as int) == pair_value(
                m,
                paying,
                receiving,
                req.rate.micros as int,
            ) + rounding_residue(req.sum as int, req.rate.micros as int)
            &&& -(RATE_SCALE as int) / 2 <= rounding_residue(req.sum as int, req.rate.micros as int) < (
            RATE_SCALE as int) / 2
            &&& forall|id: int|
                id != paying && id != receiving ==> #[trigger] next.balance_of(id) == m.balance_of(id)
        }),
{
    let u = req.order_issuer_id as int;
    lemma_found_wallet_position(m, u, req.incoming_currency_id as int);
    lemma_found_wallet_position(m, u, req.outgoing_currency_id as int);
    lemma_rounding_bound(req.sum as int, req.rate.micros as int);
    let next = exchange_spec(m, req).0;
    let settled = exchange_spec(m, req).1->Ok_0;
    let paying = settled.outgoing_wallet_id as int;
    let receiving = settled.incoming_wallet_id as int;
    let s = RATE_SCALE as int;
    let r = req.rate.micros as int;
    let d = debit_of(req);
    let pb = m.balance_of(paying);
    let rb = m.balance_of(receiving);
    assert(s * (pb - d) + r * (rb + req.sum) == s * pb + r * rb + (req.sum * r - s * d)) by (nonlinear_arith);
}

/// Conservation over a sequence: any run of exchanges between the same two
/// wallets of one issuer at one rate changes the pair's value, counted in
/// rate units of the paying currency, by at most half a minor unit per
/// exchange.
pub proof fn lemma_exchanges_conserve_value(
    m: LedgerModel,
    reqs: Seq<ExchangeCurrencyRequest>,
    issuer_id: i32,
    incoming_currency_id: i32,
    outgoing_currency_id: i32,
    rate: Rate,
)
    requires
        m.wf(),
        incoming_currency_id != outgoing_currency_id,
        m.find_wallet(issuer_id as int, incoming_currency_id as int) is Some,
        m.find_wallet(issuer_id as int, outgoing_currency_id as int) is Some,
        forall|k: int|
            0 <= k < reqs.len() ==> {
                &&& (#[trigger] reqs[k]).is_valid()
                &&& reqs[k].order_issuer_id == issuer_id
                &&& reqs[k].incoming_currency_id == incoming_currency_id
                &&& reqs[k].outgoing_currency_id == outgoing_currency_id
                &&& reqs[k].rate == rate
            },
    ensures
        ({
            let last = run_exchanges(m, reqs).0;
            let paying = m.find_wallet(issuer_id as int, outgoing_currency_id as int)->Some_0.wallet_id as int;
            let receiving = m.find_wallet(issuer_id as int, incoming_currency_id as int)->Some_0.wallet_id as int;
            let drift = pair_value(last, paying, receiving, rate.micros as int) - pair_value(
                m,
                paying,
                receiving,
                rate.micros as int,
            );
            &&& last.wf()
            &&& last.wallets == m.wallets
            &&& -(reqs.len() * (RATE_SCALE as int) / 2) <= drift <= reqs.len() * (RATE_SCALE as int) / 2
        }),
    decreases reqs.len(),
{
    if reqs.len() > 0 {
        let init = reqs.drop_last();
        assert forall|k: int| 0 <= k < init.len() implies {
            &&& (#[trigger] init[k]).is_valid()
            &&& init[k].order_issuer_id == issuer_id
            &&& init[k].incoming_currency_id == incoming_currency_id
            &&& init[k].outgoing_currency_id == outgoing_currency_id
            &&& init[k].rate == rate
        } by {
            assert(init[k] == reqs[k]);
        }
        lemma_exchanges_conserve_value(m, init, issuer_id, incoming_currency_id, outgoing_currency_id, rate);
        let before = run_exchanges(m, init).0;
        let req = reqs.last();
        assert(req == reqs[reqs.len() - 1]);
        lemma_exchange_preserves_wf(before, req);
        if exchange_spec(before, req).1 is Ok {
            lemma_exchange_conserves_value(before, req);
        }
        let n = reqs.len() as int;
        assert((n - 1) * (RATE_SCALE as int) / 2 + (RATE_SCALE as int) / 2 == n * (RATE_SCALE as int) / 2);
    }
}

/// Serial debits against one wallet: when requests that all pay from the
/// same wallet are applied in some serial order, that wallet ends with its
/// starting balance less the debits of exactly the requests that succeeded,
/// never below zero. So when the debits together exceed the starting
/// balance, not all of them succeed.
pub proof fn lemma_serial_debits(
    m: LedgerModel,
    reqs: Seq<ExchangeCurrencyRequest>,
    issuer_id: i32,
    outgoing_currency_id: i32,
)
    requires
        m.wf(),
        m.find_wallet(issuer_id as int, outgoing_currency_id as int) is Some,
        forall|k: int|
            0 <= k < reqs.len() ==> {
                &&& (#[trigger] reqs[k]).is_valid()
                &&& reqs[k].order_issuer_id == issuer_id
                &&& reqs[k].outgoing_currency_id == outgoing_currency_id
                &&& reqs[k].incoming_currency_id != outgoing_currency_id
            },
    ensures
        ({
            let (last, outcomes) = run_exchanges(m, reqs);
            let paying = m.find_wallet(issuer_id as int, outgoing_currency_id as int)->Some_0.wallet_id as int;
            &&& last.wf()
            &&& last.wallets == m.wallets
            &&& outcomes.len() == reqs.len()
            &&& last.balance_of(paying) == m.balance_of(paying) - paid_debits(reqs, outcomes)
            &&& last.balance_of(paying) >= 0
            &&& (forall|k: int| 0 <= k < outcomes.len() ==> #[trigger] outcomes[k] is Ok) ==> paid_debits(
                reqs,
                outcomes,
            ) == total_debits(reqs)
            &&& total_debits(reqs) > m.balance_of(paying) ==> exists|k: int|
                0 <= k < outcomes.len() && #[trigger] outcomes[k] is Err
        }),
    decreases reqs.len(),
{
    let paying = m.find_wallet(issuer_id as int, outgoing_currency_id as int)->Some_0.wallet_id as int;
    lemma_found_wallet_position(m, issuer_id as int, outgoing_currency_id as int);
    if reqs.len() > 0 {
        let init = reqs.drop_last();
        assert forall|k: int| 0 <= k < init.len() implies {
            &&& (#[trigger] init[k]).is_valid()
            &&& init[k].order_issuer_id == issuer_id
            &&& init[k].outgoing_currency_id == outgoing_currency_id
            &&& init[k].incoming_currency_id != outgoing_currency_id
        } by {
            assert(init[k] == reqs[k]);
        }
        lemma_serial_debits(m, init, issuer_id, outgoing_currency_id);
        let (before, earlier) = run_exchanges(m, init);
        let req = reqs.last();
        assert(req == reqs[reqs.len() - 1]);
        lemma_exchange_preserves_wf(before, req);
        let (last, outcomes) = run_exchanges(m, reqs);
        assert(outcomes == earlier.push(exchange_spec(before, req).1));
        assert(outcomes.drop_last() == earlier);
        if exchange_spec(before, req).1 is Ok {
            lemma_exchange_conserves_value(before, req);
            lemma_found_wallet_position(before, issuer_id as int, outgoing_currency_id as int);
        }
        if forall|k: int| 0 <= k < outcomes.len() ==> #[trigger] outcomes[k] is Ok {
            assert forall|k: int| 0 <= k < earlier.len() implies #[trigger] earlier[k] is Ok by {
                assert(earlier[k] == outcomes[k]);
            }
            assert(outcomes[outcomes.len() - 1] is Ok);
        }
        if total_debits(reqs) > m.balance_of(paying) {
            if forall|k: int| 0 <= k < outcomes.len() ==> !(#[trigger] outcomes[k] is Err) {
                assert forall|k: int| 0 <= k < outcomes.len() implies #[trigger] outcomes[k] is Ok by {
                    assert(!(outcomes[k] is Err));
                }
            }
        }
    }
}

/// The outcome of the `k`-th request of a run is that of one exchange on
/// the state the requests before it left.
pub proof fn lemma_run_step(m: LedgerModel, reqs: Seq<ExchangeCurrencyRequest>, k: int)
    requires
        0 <= k < reqs.len(),
    ensures
        run_exchanges(m, reqs).1.len() == reqs.len(),
        run_exchanges(m, reqs).1[k] == exchange_spec(run_exchanges(m, reqs.take(k)).0, reqs[k]).1,
    decreases reqs.len(),
{
    let init = reqs.drop_last();
    if k == reqs.len() - 1 {
        assert(init =~= reqs.take(k));
        if init.len() > 0 {
            lemma_run_step(m, init, 0);
        } else {
            assert(run_exchanges(m, init).1.len() == 0);
        }
    } else {
        lemma_run_step(m, init, k);
        assert(init.take(k) =~= reqs.take(k));
        assert(init[k] == reqs[k]);
    }
}

/// Serial debits, request by request: each request that pays from the
/// shared wallet fails with `InsufficientFunds` exactly when its debit
/// exceeds what the requests before it left there, and succeeds exactly
/// when both its wallets exist, its debit fits, and the credit stays
/// representable.
pub proof fn lemma_serial_turn(
    m: LedgerModel,
    reqs: Seq<ExchangeCurrencyRequest>,
    issuer_id: i32,
    outgoing_currency_id: i32,
    k: int,
)
    requires
        m.wf(),
        m.find_wallet(issuer_id as int, outgoing_currency_id as int) is Some,
        0 <= k < reqs.len(),
        forall|j: int|
            0 <= j < reqs.len() ==> {
                &&& (#[trigger] reqs[j]).is_valid()
                &&& reqs[j].order_issuer_id == issuer_id
                &&& reqs[j].outgoing_currency_id == outgoing_currency_id
                &&& reqs[j].incoming_currency_id != outgoing_currency_id
            },
    ensures
        ({
            let before = run_exchanges(m, reqs.take(k)).0;
            let outcome = run_exchanges(m, reqs).1[k];
            let paying = m.find_wallet(issuer_id as int, outgoing_currency_id as int)->Some_0.wallet_id as int;
            let receiving = m.find_wallet(issuer_id as int, reqs[k].incoming_currency_id as int);
            &&& outcome == Err::<ExchangeResult, ErrorKind>(ErrorKind::InsufficientFunds) <==> (receiving is Some
                && debit_of(reqs[k]) > before.balance_of(paying))
            &&& outcome is Ok <==> ({
                &&& receiving is Some
                &&& debit_of(reqs[k]) <= before.balance_of(paying)
                &&& before.balance_of(receiving->Some_0.wallet_id as int) + reqs[k].sum <= i32::MAX
            })
        }),
{
    let prefix = reqs.take(k);
    assert forall|j: int| 0 <= j < prefix.len() implies {
        &&& (#[trigger] prefix[j]).is_valid()
        &&& prefix[j].order_issuer_id == issuer_id
        &&& prefix[j].outgoing_currency_id == outgoing_currency_id
        &&& prefix[j].incoming_currency_id != outgoing_currency_id
    } by {
        assert(prefix[j] == reqs[j]);
    }
    lemma_serial_debits(m, prefix, issuer_id, outgoing_currency_id);
    lemma_run_step(m, reqs, k);
    let before = run_exchanges(m, prefix).0;
    let req = reqs[k];
    assert(req.is_valid());
    lemma_found_wallet_position(m, issuer_id as int, outgoing_currency_id as int);
    if m.find_wallet(issuer_id as int, req.incoming_currency_id as int) is Some {
        lemma_found_wallet_position(m, issuer_id as int, req.incoming_currency_id as int);
    }
}

} // verus!
