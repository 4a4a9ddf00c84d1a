//! The funds guard: decides whether a caller-attached payment strictly
//! exceeds a required threshold for the threshold's denomination.

use vstd::prelude::*;
use vstd::string::StringExecFns;
use crate::error::ContractError;
use crate::types::{Coin, CoinV, coins_view, opt_coin_view};

verus! {

/// The default denomination of the zero-amount placeholder returned when no
/// threshold is enforced.
pub open spec fn default_denom() -> Seq<char> {
    "token"@
}

/// The zero-amount placeholder: it stands for "no real bid" and carries the
/// default denomination.
pub open spec fn zero_coin() -> CoinV {
    CoinV { denom: default_denom(), amount: 0 }
}

/// A coin settles a threshold when it is of the same denomination and its
/// amount is strictly greater: a payment must strictly improve, a payment
/// at the exact threshold is refused.
pub open spec fn coin_sufficient(c: CoinV, required: CoinV) -> bool {
    c.denom == required.denom && c.amount > required.amount
}

/// The first coin in scan order that settles the threshold, if any.
pub open spec fn first_sufficient(sent: Seq<CoinV>, required: CoinV) -> Option<CoinV>
    decreases sent.len(),
{
    if sent.len() == 0 {
        None
    } else if coin_sufficient(sent[0], required) {
        Some(sent[0])
    } else {
        first_sufficient(sent.drop_first(), required)
    }
}

/// What the funds guard decides. With no threshold (or a zero threshold) it
/// accepts trivially with the zero placeholder; otherwise it accepts the
/// first attached coin that strictly exceeds the threshold, and fails when
/// none does.
pub open spec fn validate_payment(sent: Seq<CoinV>, required: Option<CoinV>) -> Result<
    Option<CoinV>,
    ContractError,
> {
    match required {
        None => Ok(Some(zero_coin())),
        Some(req) => if req.amount == 0 {
            Ok(Some(zero_coin()))
        } else {
            match first_sufficient(sent, req) {
                Some(c) => Ok(Some(c)),
                None => Err(ContractError::InsufficientFundsSend),
            }
        },
    }
}

/// Mathematical image of the guard's executable result.
pub open spec fn guard_result_view(r: Result<Option<Coin>, ContractError>) -> Result<
    Option<CoinV>,
    ContractError,
> {
    match r {
        Ok(o) => Ok(opt_coin_view(o)),
        Err(e) => Err(e),
    }
}

/// Skipping coins that do not settle the threshold leaves the first match
/// unchanged.
proof fn lemma_first_sufficient_skip(sent: Seq<CoinV>, required: CoinV, i: int)
    requires
        0 <= i <= sent.len(),
        forall|j: int| 0 <= j < i ==> !coin_sufficient(sent[j], required),
    ensures
        first_sufficient(sent, required) == first_sufficient(sent.skip(i), required),
    decreases i,
{
    if i > 0 {
        lemma_first_sufficient_skip(sent, required, i - 1);
        let t = sent.skip(i - 1);
        assert(t[0] == sent[i - 1]);
        assert(t.drop_first() =~= sent.skip(i));
    } else {
        assert(sent.skip(0) =~= sent);
    }
}

/// A first match settles the threshold; no match means no attached coin
/// settles it.
pub proof fn lemma_first_sufficient_props(sent: Seq<CoinV>, required: CoinV)
    ensures
        first_sufficient(sent, required) matches Some(c) ==> exists|i: int|
            0 <= i < sent.len() && sent[i] == c && coin_sufficient(c, required),
        first_sufficient(sent, required) is None <==> forall|i: int|
            0 <= i < sent.len() ==> !coin_sufficient(sent[i], required),
    decreases sent.len(),
{
    if sent.len() > 0 {
        lemma_first_sufficient_props(sent.drop_first(), required);
        if !coin_sufficient(sent[0], required) {
            assert(forall|i: int| 0 < i < sent.len() ==> sent.drop_first()[i - 1] == sent[i]);
            match first_sufficient(sent.drop_first(), required) {
                Some(c) => {
                    let i = choose|i: int|
                        0 <= i < sent.drop_first().len() && sent.drop_first()[i] == c
                            && coin_sufficient(c, required);
                    assert(sent[i + 1] == c);
                },
                None => {},
            }
        }
    }
}

/// Scans the attached payment for a coin that strictly exceeds `required`.
/// With no threshold, or a zero threshold, it succeeds trivially with a
/// zero-amount placeholder of the default denomination; otherwise it
/// returns the first sufficient coin in scan order, and fails with
/// `InsufficientFundsSend` when none is sufficient.
pub fn assert_sent_sufficient_coin(sent: &Vec<Coin>, required: Option<Coin>) -> (result: Result<
    Option<Coin>,
    ContractError,
>)
    ensures
        guard_result_view(result) == validate_payment(
            coins_view(sent@),
            opt_coin_view(required),
        ),
{
    let ghost sent_v = coins_view(sent@);
    if let Some(required_coin) = &required {
        if required_coin.amount > 0 {
            let mut i: usize = 0;
            while i < sent.len()
                invariant
                    0 <= i <= sent.len(),
                    sent_v == coins_view(sent@),
                    opt_coin_view(required) == Some(required_coin@),
                    required_coin@.amount > 0,
                    forall|j: int| 0 <= j < i ==> !coin_sufficient(sent_v[j], required_coin@),
                decreases sent.len() - i,
            {
                let coin = &sent[i];
                if coin.denom == required_coin.denom && coin.amount > required_coin.amount {
                    proof {
                        assert(sent_v[i as int] == sent@[i as int]@);
                        assert(coin_sufficient(sent_v[i as int], required_coin@));
                        lemma_first_sufficient_skip(sent_v, required_coin@, i as int);
                        assert(sent_v.skip(i as int)[0] == sent_v[i as int]);
                        assert(first_sufficient(sent_v, required_coin@) == Some(sent_v[i as int]));
                    }
                    let c = sent[i].dup();
                    proof {
                        assert(c@ == sent_v[i as int]);
                        assert(opt_coin_view(required) == Some(required_coin@));
                        assert(validate_payment(sent_v, opt_coin_view(required)) == Ok::<
                            Option<CoinV>,
                            ContractError,
                        >(Some(c@)));
                    }
                    return Ok(Some(c));
                }
                i = i + 1;
            }
            proof {
                lemma_first_sufficient_skip(sent_v, required_coin@, sent.len() as int);
                assert(sent_v.skip(sent.len() as int).len() == 0);
            }
            return Err(ContractError::InsufficientFundsSend);
        }
    }
    let placeholder = Coin { denom: String::from_str("token"), amount: 0 };
    Ok(Some(placeholder))
}

} // verus!
