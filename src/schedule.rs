//! Which ages a sweep evaluates and how the years of one scenario are laid out.

use vstd::prelude::*;

verus! {

/// One candidate of a sweep: scenarios retire at `retirement_age`, stop
/// contributing at `contribution_stop_age`, and are seeded and reported under
/// `reported_age`.
#[derive(Copy, Clone, Debug, PartialEq, Eq, Structural)]
pub struct AgeCandidate {
    pub retirement_age: u32,
    pub contribution_stop_age: u32,
    pub reported_age: u32,
}

/// Number of ages in `first..=last`.
pub open spec fn sweep_len(first: u32, last: u32) -> int {
    if last >= first { last - first + 1 } else { 0 }
}

/// Retirement-age sweep: every age from `current_age` to `max_retirement_age`
/// inclusive, each accumulating until and decumulating from that same age.
pub fn full_sweep(current_age: u32, max_retirement_age: u32) -> (r: Vec<AgeCandidate>)
    ensures
        r@.len() == sweep_len(current_age, max_retirement_age),
        forall|i: int|
            0 <= i < r@.len() ==> #[trigger] r@[i] == (AgeCandidate {
                retirement_age: (current_age + i) as u32,
                contribution_stop_age: (current_age + i) as u32,
                reported_age: (current_age + i) as u32,
            }),
{
    let mut r: Vec<AgeCandidate> = Vec::new();
    if max_retirement_age < current_age {
        return r;
    }
    let mut age: u32 = current_age;
    loop
        invariant
            current_age <= age <= max_retirement_age,
            r@.len() == age - current_age,
            forall|i: int|
                0 <= i < r@.len() ==> #[trigger] r@[i] == (AgeCandidate {
                    retirement_age: (current_age + i) as u32,
                    contribution_stop_age: (current_age + i) as u32,
                    reported_age: (current_age + i) as u32,
                }),
        decreases max_retirement_age - age,
    {
        r.push(AgeCandidate { retirement_age: age, contribution_stop_age: age, reported_age: age });
        if age == max_retirement_age {
            return r;
        }
        age = age + 1;
    }
}

/// Coast sweep: every coast age from `current_age` to `retirement_age`
/// inclusive; contributions stop at the coast age and every scenario retires
/// at the fixed `retirement_age`.
pub fn coast_sweep(current_age: u32, retirement_age: u32) -> (r: Vec<AgeCandidate>)
    ensures
        r@.len() == sweep_len(current_age, retirement_age),
        forall|i: int|
            0 <= i < r@.len() ==> #[trigger] r@[i] == (AgeCandidate {
                retirement_age,
                contribution_stop_age: (current_age + i) as u32,
                reported_age: (current_age + i) as u32,
            }),
{
    let mut r: Vec<AgeCandidate> = Vec::new();
    if retirement_age < current_age {
        return r;
    }
    let mut age: u32 = current_age;
    loop
        invariant
            current_age <= age <= retirement_age,
            r@.len() == age - current_age,
            forall|i: int|
                0 <= i < r@.len() ==> #[trigger] r@[i] == (AgeCandidate {
                    retirement_age,
                    contribution_stop_age: (current_age + i) as u32,
                    reported_age: (current_age + i) as u32,
                }),
        decreases retirement_age - age,
    {
        r.push(AgeCandidate { retirement_age, contribution_stop_age: age, reported_age: age });
        if age == retirement_age {
            return r;
        }
        age = age + 1;
    }
}

/// How much of the bond ladder a scheduled draw may take in retirement year
/// `year_index` (counting from zero): `Some(k)` allows the balance divided by `k`
/// (even amortisation over the years left), `None` allows the whole balance
/// (an unscheduled draw, no schedule, or a window that has elapsed).
pub fn ladder_draw_divisor(ladder_years: u32, year_index: u32, scheduled: bool) -> (r: Option<u32>)
    ensures
        r == (if scheduled && ladder_years > 0 && year_index < ladder_years {
            Some((ladder_years - year_index) as u32)
        } else {
            None::<u32>
        }),
        r matches Some(k) ==> k >= 1,
{
    if scheduled && ladder_years > 0 && year_index < ladder_years {
        Some(ladder_years - year_index)
    } else {
        None
    }
}

/// Years a variable-percentage withdrawal amortises over at `age`: the years
/// left before the horizon, and at least one.
pub fn vpw_years_remaining(horizon_age: u32, age: u32) -> (r: u32)
    ensures
        r == (if age + 1 < horizon_age { horizon_age - age } else { 1 }),
{
    if age < horizon_age && horizon_age - age > 1 {
        horizon_age - age
    } else {
        1
    }
}

/// Whether the mortgage is still being paid at `age`: it is while the age is
/// below the end age, and never when no end age is set.
pub fn mortgage_active(mortgage_end_age: Option<u32>, age: u32) -> (r: bool)
    ensures
        r == (match mortgage_end_age {
            Some(end) => age < end,
            None => false,
        }),
{
    match mortgage_end_age {
        Some(end) => age < end,
        None => false,
    }
}

/// Zero-based index of the retirement year that `age` falls in, zero before retirement.
pub fn retirement_year_index(age: u32, retirement_age: u32) -> (r: u32)
    ensures
        r == (if age >= retirement_age { age - retirement_age } else { 0 }),
{
    age.saturating_sub(retirement_age)
}

} // verus!
