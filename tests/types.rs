use fire::types::{draw_order, PotKind, WithdrawalOrder};

#[test]
fn fixed_orders_after_pension_access() {
    assert_eq!(
        draw_order(WithdrawalOrder::IsaFirst, true),
        vec![PotKind::Isa, PotKind::Taxable, PotKind::Pension]
    );
    assert_eq!(
        draw_order(WithdrawalOrder::TaxableFirst, true),
        vec![PotKind::Taxable, PotKind::Isa, PotKind::Pension]
    );
    assert_eq!(
        draw_order(WithdrawalOrder::PensionFirst, true),
        vec![PotKind::Pension, PotKind::Taxable, PotKind::Isa]
    );
    assert_eq!(
        draw_order(WithdrawalOrder::BondLadderFirst, true),
        vec![PotKind::BondLadder, PotKind::Isa, PotKind::Taxable, PotKind::Pension]
    );
}

#[test]
fn orders_before_pension_access_skip_pension() {
    for order in [
        WithdrawalOrder::ProRata,
        WithdrawalOrder::IsaFirst,
        WithdrawalOrder::TaxableFirst,
        WithdrawalOrder::PensionFirst,
        WithdrawalOrder::BondLadderFirst,
    ] {
        assert!(!draw_order(order, false).contains(&PotKind::Pension));
    }
    assert_eq!(
        draw_order(WithdrawalOrder::PensionFirst, false),
        vec![PotKind::Isa, PotKind::Taxable]
    );
    assert_eq!(
        draw_order(WithdrawalOrder::BondLadderFirst, false),
        vec![PotKind::BondLadder, PotKind::Isa, PotKind::Taxable]
    );
}

#[test]
fn pro_rata_fallback_order() {
    assert_eq!(
        draw_order(WithdrawalOrder::ProRata, true),
        vec![PotKind::Isa, PotKind::Pension, PotKind::Taxable, PotKind::BondLadder]
    );
    assert_eq!(
        draw_order(WithdrawalOrder::ProRata, false),
        vec![PotKind::Isa, PotKind::Taxable, PotKind::BondLadder]
    );
}
