//! The decisions of the five spending policies, on the signals of the year
//! (which the caller derives from the prior year's real return and the
//! current withdrawal rate).

use crate::types::WithdrawalStrategy;
use vstd::prelude::*;

verus! {

/// What this year's spending starts from before any cut or raise.
#[derive(Copy, Clone, Debug, PartialEq, Eq, Structural)]
pub enum SpendingBase {
    /// Last year's real spending.
    Current,
    /// Last year's real spending, lifted to the floor if below it.
    AtLeastFloor,
    /// The available real balance times the level-annuity payment rate.
    Amortized,
}

/// The raise applied after the base (and any cut).
#[derive(Copy, Clone, Debug, PartialEq, Eq, Structural)]
pub enum SpendingRaise {
    Hold,
    /// Raise by the good-year raise.
    Full,
    /// Raise by half the good-year raise.
    Half,
    /// Raise by the prior real return times the capture fraction.
    ReturnCapture,
}

/// The rule a policy applies this year; the result is then clamped to the
/// floor and ceiling.
#[derive(Copy, Clone, Debug, PartialEq, Eq, Structural)]
pub struct SpendingRule {
    pub base: SpendingBase,
    /// Whether the bad-year cut applies.
    pub cut: bool,
    pub raise: SpendingRaise,
}

/// The facts about the year that the policies react to.
#[derive(Copy, Clone, Debug, PartialEq, Eq, Structural)]
pub struct YearSignals {
    /// Prior real return below the bad-year threshold.
    pub bad_year: bool,
    /// Prior real return above the good-year threshold.
    pub good_year: bool,
    /// Prior real return above zero.
    pub positive_return: bool,
    /// Current withdrawal rate above the upper Guyton-Klinger guardrail.
    pub above_upper_guardrail: bool,
    /// Current withdrawal rate below the lower Guyton-Klinger guardrail.
    pub below_lower_guardrail: bool,
}

pub open spec fn spending_rule_spec(strategy: WithdrawalStrategy, s: YearSignals) -> SpendingRule {
    match strategy {
        WithdrawalStrategy::Guardrails => SpendingRule {
            base: SpendingBase::Current,
            cut: s.bad_year,
            raise: if !s.bad_year && s.good_year { SpendingRaise::Full } else { SpendingRaise::Hold },
        },
        WithdrawalStrategy::GuytonKlinger => {
            let cut = s.bad_year && s.above_upper_guardrail;
            SpendingRule {
                base: SpendingBase::Current,
                cut,
                raise: if !cut && s.good_year && s.below_lower_guardrail {
                    SpendingRaise::Full
                } else {
                    SpendingRaise::Hold
                },
            }
        },
        WithdrawalStrategy::Vpw => SpendingRule {
            base: SpendingBase::Amortized,
            cut: false,
            raise: SpendingRaise::Hold,
        },
        WithdrawalStrategy::FloorUpside => SpendingRule {
            base: SpendingBase::AtLeastFloor,
            cut: s.bad_year,
            raise: if s.positive_return { SpendingRaise::ReturnCapture } else { SpendingRaise::Hold },
        },
        WithdrawalStrategy::Bucket => SpendingRule {
            base: SpendingBase::Current,
            cut: s.bad_year,
            raise: if !s.bad_year && s.good_year { SpendingRaise::Half } else { SpendingRaise::Hold },
        },
    }
}

/// The spending rule of `strategy` for a year with signals `signals`.
pub fn spending_rule(strategy: WithdrawalStrategy, signals: YearSignals) -> (r: SpendingRule)
    ensures
        r == spending_rule_spec(strategy, signals),
        r.cut ==> signals.bad_year,
        r.raise != SpendingRaise::Hold ==> !r.cut || strategy == WithdrawalStrategy::FloorUpside,
{
    match strategy {
        WithdrawalStrategy::Guardrails => SpendingRule {
            base: SpendingBase::Current,
            cut: signals.bad_year,
            raise: if !signals.bad_year && signals.good_year {
                SpendingRaise::Full
            } else {
                SpendingRaise::Hold
            },
        },
        WithdrawalStrategy::GuytonKlinger => {
            let cut = signals.bad_year && signals.above_upper_guardrail;
            SpendingRule {
                base: SpendingBase::Current,
                cut,
                raise: if !cut && signals.good_year && signals.below_lower_guardrail {
                    SpendingRaise::Full
                } else {
                    SpendingRaise::Hold
                },
            }
        },
        WithdrawalStrategy::Vpw => SpendingRule {
            base: SpendingBase::Amortized,
            cut: false,
            raise: SpendingRaise::Hold,
        },
        WithdrawalStrategy::FloorUpside => SpendingRule {
            base: SpendingBase::AtLeastFloor,
            cut: signals.bad_year,
            raise: if signals.positive_return {
                SpendingRaise::ReturnCapture
            } else {
                SpendingRaise::Hold
            },
        },
        WithdrawalStrategy::Bucket => SpendingRule {
            base: SpendingBase::Current,
            cut: signals.bad_year,
            raise: if !signals.bad_year && signals.good_year {
                SpendingRaise::Half
            } else {
                SpendingRaise::Hold
            },
        },
    }
}

/// The extra withdrawal moved into the cash buffer at the end of a year.
#[derive(Copy, Clone, Debug, PartialEq, Eq, Structural)]
pub enum BufferTopUp {
    NoTopUp,
    /// Refill the buffer toward `spending * bucket_target_years`, capped by the
    /// per-year refill cap when that cap is positive.
    RefillTowardTarget,
    /// Withdraw `spending * buffer_top_up_rate`.
    ShareOfSpending,
}

/// Which buffer top-up applies: none unless the prior year was good; a refill
/// toward the bucket target under the bucket policy; a share of spending otherwise.
pub fn buffer_top_up(strategy: WithdrawalStrategy, good_year: bool) -> (r: BufferTopUp)
    ensures
        r == (if !good_year {
            BufferTopUp::NoTopUp
        } else if strategy == WithdrawalStrategy::Bucket {
            BufferTopUp::RefillTowardTarget
        } else {
            BufferTopUp::ShareOfSpending
        }),
{
    if !good_year {
        BufferTopUp::NoTopUp
    } else {
        match strategy {
            WithdrawalStrategy::Bucket => BufferTopUp::RefillTowardTarget,
            _ => BufferTopUp::ShareOfSpending,
        }
    }
}

} // verus!
