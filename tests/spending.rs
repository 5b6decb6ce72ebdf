use fire::spending::{
    buffer_top_up, spending_rule, BufferTopUp, SpendingBase, SpendingRaise, SpendingRule,
    YearSignals,
};
use fire::types::WithdrawalStrategy;

fn signals(bad: bool, good: bool, positive: bool, above: bool, below: bool) -> YearSignals {
    YearSignals {
        bad_year: bad,
        good_year: good,
        positive_return: positive,
        above_upper_guardrail: above,
        below_lower_guardrail: below,
    }
}

#[test]
fn guardrails_cut_raise_hold() {
    let s = WithdrawalStrategy::Guardrails;
    let cut = spending_rule(s, signals(true, false, false, false, false));
    assert_eq!(cut, SpendingRule { base: SpendingBase::Current, cut: true, raise: SpendingRaise::Hold });
    let raise = spending_rule(s, signals(false, true, true, false, false));
    assert_eq!(raise.raise, SpendingRaise::Full);
    assert!(!raise.cut);
    let hold = spending_rule(s, signals(false, false, true, false, false));
    assert_eq!(hold, SpendingRule { base: SpendingBase::Current, cut: false, raise: SpendingRaise::Hold });
}

#[test]
fn guyton_klinger_cuts_only_above_upper_guardrail() {
    let s = WithdrawalStrategy::GuytonKlinger;
    assert!(spending_rule(s, signals(true, false, false, true, false)).cut);
    assert!(!spending_rule(s, signals(true, false, false, false, false)).cut);
    assert_eq!(spending_rule(s, signals(false, true, true, false, true)).raise, SpendingRaise::Full);
    assert_eq!(spending_rule(s, signals(false, true, true, false, false)).raise, SpendingRaise::Hold);
}

#[test]
fn vpw_amortizes() {
    let r = spending_rule(WithdrawalStrategy::Vpw, signals(true, true, true, true, true));
    assert_eq!(r, SpendingRule { base: SpendingBase::Amortized, cut: false, raise: SpendingRaise::Hold });
}

#[test]
fn floor_upside_captures_positive_returns() {
    let s = WithdrawalStrategy::FloorUpside;
    let r = spending_rule(s, signals(false, false, true, false, false));
    assert_eq!(r, SpendingRule { base: SpendingBase::AtLeastFloor, cut: false, raise: SpendingRaise::ReturnCapture });
    let bad = spending_rule(s, signals(true, false, false, false, false));
    assert_eq!(bad, SpendingRule { base: SpendingBase::AtLeastFloor, cut: true, raise: SpendingRaise::Hold });
}

#[test]
fn bucket_raise_is_muted() {
    let r = spending_rule(WithdrawalStrategy::Bucket, signals(false, true, true, false, false));
    assert_eq!(r.raise, SpendingRaise::Half);
    assert!(spending_rule(WithdrawalStrategy::Bucket, signals(true, false, false, false, false)).cut);
}

#[test]
fn buffer_top_up_only_in_good_years() {
    assert_eq!(buffer_top_up(WithdrawalStrategy::Bucket, false), BufferTopUp::NoTopUp);
    assert_eq!(buffer_top_up(WithdrawalStrategy::Bucket, true), BufferTopUp::RefillTowardTarget);
    assert_eq!(buffer_top_up(WithdrawalStrategy::Guardrails, true), BufferTopUp::ShareOfSpending);
    assert_eq!(buffer_top_up(WithdrawalStrategy::Vpw, false), BufferTopUp::NoTopUp);
}
