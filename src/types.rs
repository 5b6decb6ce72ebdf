//! The closed sets of policies the planner chooses from, and the pots it draws on.

use vstd::prelude::*;

verus! {

/// Order in which pots are drained once spending is not covered by income,
/// cash and the scheduled bond-ladder draw.
#[derive(Copy, Clone, Debug, PartialEq, Eq, Structural)]
pub enum WithdrawalOrder {
    ProRata,
    IsaFirst,
    TaxableFirst,
    PensionFirst,
    BondLadderFirst,
}

/// Policy that sets each retirement year's real spending.
#[derive(Copy, Clone, Debug, PartialEq, Eq, Structural)]
pub enum WithdrawalStrategy {
    Guardrails,
    GuytonKlinger,
    Vpw,
    FloorUpside,
    Bucket,
}

/// How pension withdrawals are taxed.
#[derive(Copy, Clone, Debug, PartialEq, Eq, Structural)]
pub enum PensionTaxMode {
    UkBands,
    FlatRate,
}

/// A pot that a withdrawal can be drawn from.
#[derive(Copy, Clone, Debug, PartialEq, Eq, Structural)]
pub enum PotKind {
    BondLadder,
    Isa,
    Taxable,
    Pension,
}

/// The pots drained one after another for `order`. For `ProRata` this is the
/// fallback drain that follows the proportional rounds.
pub open spec fn draw_order_spec(order: WithdrawalOrder, pension_access: bool) -> Seq<PotKind> {
    match order {
        WithdrawalOrder::ProRata => if pension_access {
            seq![PotKind::Isa, PotKind::Pension, PotKind::Taxable, PotKind::BondLadder]
        } else {
            seq![PotKind::Isa, PotKind::Taxable, PotKind::BondLadder]
        },
        WithdrawalOrder::BondLadderFirst => if pension_access {
            seq![PotKind::BondLadder, PotKind::Isa, PotKind::Taxable, PotKind::Pension]
        } else {
            seq![PotKind::BondLadder, PotKind::Isa, PotKind::Taxable]
        },
        WithdrawalOrder::IsaFirst => if pension_access {
            seq![PotKind::Isa, PotKind::Taxable, PotKind::Pension]
        } else {
            seq![PotKind::Isa, PotKind::Taxable]
        },
        WithdrawalOrder::TaxableFirst => if pension_access {
            seq![PotKind::Taxable, PotKind::Isa, PotKind::Pension]
        } else {
            seq![PotKind::Isa, PotKind::Taxable]
        },
        WithdrawalOrder::PensionFirst => if pension_access {
            seq![PotKind::Pension, PotKind::Taxable, PotKind::Isa]
        } else {
            seq![PotKind::Isa, PotKind::Taxable]
        },
    }
}

/// The sequence of pots that `order` drains, given whether the pension can be accessed.
pub fn draw_order(order: WithdrawalOrder, pension_access: bool) -> (r: Vec<PotKind>)
    ensures
        r@ == draw_order_spec(order, pension_access),
        !pension_access ==> !r@.contains(PotKind::Pension),
        r@.no_duplicates(),
{
    let r = match order {
        WithdrawalOrder::ProRata => if pension_access {
            vec![PotKind::Isa, PotKind::Pension, PotKind::Taxable, PotKind::BondLadder]
        } else {
            vec![PotKind::Isa, PotKind::Taxable, PotKind::BondLadder]
        },
        WithdrawalOrder::BondLadderFirst => if pension_access {
            vec![PotKind::BondLadder, PotKind::Isa, PotKind::Taxable, PotKind::Pension]
        } else {
            vec![PotKind::BondLadder, PotKind::Isa, PotKind::Taxable]
        },
        WithdrawalOrder::IsaFirst => if pension_access {
            vec![PotKind::Isa, PotKind::Taxable, PotKind::Pension]
        } else {
            vec![PotKind::Isa, PotKind::Taxable]
        },
        WithdrawalOrder::TaxableFirst => if pension_access {
            vec![PotKind::Taxable, PotKind::Isa, PotKind::Pension]
        } else {
            vec![PotKind::Isa, PotKind::Taxable]
        },
        WithdrawalOrder::PensionFirst => if pension_access {
            vec![PotKind::Pension, PotKind::Taxable, PotKind::Isa]
        } else {
            vec![PotKind::Isa, PotKind::Taxable]
        },
    };
    proof {
        let s = r@;
        assert(!pension_access ==> s[0] != PotKind::Pension && s[1] != PotKind::Pension
            && (s.len() > 2 ==> s[2] != PotKind::Pension));
        assert(forall|i: int, j: int| 0 <= i < j < s.len() ==> s[i] != s[j]);
    }
    r
}

} // verus!
