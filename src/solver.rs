//! Decisions of the goal solver: checking its configuration, classifying the
//! search bounds, steering the bisection and wording the outcome.

use vstd::prelude::*;

verus! {

/// The scalar the solver searches over.
#[derive(Copy, Clone, Debug, PartialEq, Eq, Structural)]
pub enum GoalType {
    /// Smallest total contribution meeting the target; success is taken to rise
    /// with contributions.
    RequiredContribution,
    /// Largest target income still meeting the target; success is taken to fall
    /// as income rises.
    MaxIncome,
}

/// A rejected solver configuration, in the order the checks run.
#[derive(Copy, Clone, Debug, PartialEq, Eq, Structural)]
pub enum ConfigError {
    TargetAgeBeforeCurrentAge,
    TargetAgeNotBeforeHorizon,
    ThresholdOutOfRange,
    BoundsNotFinite,
    BoundsNotOrdered,
    ToleranceNotPositive,
    NoIterations,
    NoIterationSimulations,
    NoFinalSimulations,
}

pub open spec fn config_error_text(e: ConfigError) -> Seq<char> {
    match e {
        ConfigError::TargetAgeBeforeCurrentAge => "target_retirement_age must be >= current_age"@,
        ConfigError::TargetAgeNotBeforeHorizon => "target_retirement_age must be < horizon_age"@,
        ConfigError::ThresholdOutOfRange => "target_success_threshold must be between 0 and 1"@,
        ConfigError::BoundsNotFinite => "search bounds must be finite"@,
        ConfigError::BoundsNotOrdered => "search_max must be greater than search_min"@,
        ConfigError::ToleranceNotPositive => "tolerance must be > 0"@,
        ConfigError::NoIterations => "max_iterations must be > 0"@,
        ConfigError::NoIterationSimulations => "simulations_per_iteration must be > 0"@,
        ConfigError::NoFinalSimulations => "final_simulations must be > 0"@,
    }
}

impl ConfigError {
    /// The descriptive text reported for this error.
    pub fn message(&self) -> (r: String)
        ensures
            r@ == config_error_text(*self),
    {
        match self {
            ConfigError::TargetAgeBeforeCurrentAge => {
                "target_retirement_age must be >= current_age".to_owned()
            },
            ConfigError::TargetAgeNotBeforeHorizon => {
                "target_retirement_age must be < horizon_age".to_owned()
            },
            ConfigError::ThresholdOutOfRange => {
                "target_success_threshold must be between 0 and 1".to_owned()
            },
            ConfigError::BoundsNotFinite => "search bounds must be finite".to_owned(),
            ConfigError::BoundsNotOrdered => "search_max must be greater than search_min".to_owned(),
            ConfigError::ToleranceNotPositive => "tolerance must be > 0".to_owned(),
            ConfigError::NoIterations => "max_iterations must be > 0".to_owned(),
            ConfigError::NoIterationSimulations => {
                "simulations_per_iteration must be > 0".to_owned()
            },
            ConfigError::NoFinalSimulations => "final_simulations must be > 0".to_owned(),
        }
    }
}

/// The target age must lie in `current_age..horizon_age`.
pub fn check_target_age(target_retirement_age: u32, current_age: u32, horizon_age: u32) -> (r:
    Result<(), ConfigError>)
    ensures
        r == (if target_retirement_age < current_age {
            Err(ConfigError::TargetAgeBeforeCurrentAge)
        } else if target_retirement_age >= horizon_age {
            Err(ConfigError::TargetAgeNotBeforeHorizon)
        } else {
            Ok::<(), ConfigError>(())
        }),
{
    if target_retirement_age < current_age {
        return Err(ConfigError::TargetAgeBeforeCurrentAge);
    }
    if target_retirement_age >= horizon_age {
        return Err(ConfigError::TargetAgeNotBeforeHorizon);
    }
    Ok(())
}

/// The iteration budget and both simulation counts must be positive.
pub fn check_solver_counts(max_iterations: u32, simulations_per_iteration: u32, final_simulations: u32) -> (r: Result<(), ConfigError>)
    ensures
        r == (if max_iterations == 0 {
            Err(ConfigError::NoIterations)
        } else if simulations_per_iteration == 0 {
            Err(ConfigError::NoIterationSimulations)
        } else if final_simulations == 0 {
            Err(ConfigError::NoFinalSimulations)
        } else {
            Ok::<(), ConfigError>(())
        }),
        r is Ok <==> max_iterations > 0 && simulations_per_iteration > 0 && final_simulations > 0,
{
    if max_iterations == 0 {
        return Err(ConfigError::NoIterations);
    }
    if simulations_per_iteration == 0 {
        return Err(ConfigError::NoIterationSimulations);
    }
    if final_simulations == 0 {
        return Err(ConfigError::NoFinalSimulations);
    }
    Ok(())
}

/// What the evaluations at the two search bounds say before any bisection.
#[derive(Copy, Clone, Debug, PartialEq, Eq, Structural)]
pub enum GoalBracket {
    /// The target is already met at the favourable bound (the lower contribution,
    /// or the upper income): that bound is the answer.
    AlreadyMet,
    /// Not even the favourable end of the range meets the target.
    Infeasible,
    /// The target is crossed inside the range: bisect.
    Search,
}

/// An end of the search interval.
#[derive(Copy, Clone, Debug, PartialEq, Eq, Structural)]
pub enum SearchEnd {
    Lower,
    Upper,
}

pub open spec fn bracket_spec(goal: GoalType, meets_at_min: bool, meets_at_max: bool) -> GoalBracket {
    match goal {
        GoalType::RequiredContribution => if meets_at_min {
            GoalBracket::AlreadyMet
        } else if !meets_at_max {
            GoalBracket::Infeasible
        } else {
            GoalBracket::Search
        },
        GoalType::MaxIncome => if !meets_at_min {
            GoalBracket::Infeasible
        } else if meets_at_max {
            GoalBracket::AlreadyMet
        } else {
            GoalBracket::Search
        },
    }
}

/// Classifies the search range from whether the target is met at its minimum
/// and at its maximum.
pub fn bracket(goal: GoalType, meets_at_min: bool, meets_at_max: bool) -> (r: GoalBracket)
    ensures
        r == bracket_spec(goal, meets_at_min, meets_at_max),
{
    match goal {
        GoalType::RequiredContribution => if meets_at_min {
            GoalBracket::AlreadyMet
        } else if !meets_at_max {
            GoalBracket::Infeasible
        } else {
            GoalBracket::Search
        },
        GoalType::MaxIncome => if !meets_at_min {
            GoalBracket::Infeasible
        } else if meets_at_max {
            GoalBracket::AlreadyMet
        } else {
            GoalBracket::Search
        },
    }
}

/// The bound that is the answer when the target is already met there.
pub fn met_bound(goal: GoalType) -> (r: SearchEnd)
    ensures
        r == (if goal == GoalType::RequiredContribution { SearchEnd::Lower } else { SearchEnd::Upper }),
{
    match goal {
        GoalType::RequiredContribution => SearchEnd::Lower,
        GoalType::MaxIncome => SearchEnd::Upper,
    }
}

pub open spec fn bisection_move_spec(goal: GoalType, meets_at_mid: bool) -> SearchEnd {
    if (goal == GoalType::RequiredContribution) == meets_at_mid {
        SearchEnd::Upper
    } else {
        SearchEnd::Lower
    }
}

/// The end of the interval that moves to the midpoint after evaluating it.
pub fn bisection_move(goal: GoalType, meets_at_mid: bool) -> (r: SearchEnd)
    ensures
        r == bisection_move_spec(goal, meets_at_mid),
{
    match goal {
        GoalType::RequiredContribution => if meets_at_mid {
            SearchEnd::Upper
        } else {
            SearchEnd::Lower
        },
        GoalType::MaxIncome => if meets_at_mid {
            SearchEnd::Lower
        } else {
            SearchEnd::Upper
        },
    }
}

/// The end of the interval reported after bisecting: the end that meets the target.
pub fn answer_end(goal: GoalType) -> (r: SearchEnd)
    ensures
        r == (if goal == GoalType::RequiredContribution { SearchEnd::Upper } else { SearchEnd::Lower }),
{
    match goal {
        GoalType::RequiredContribution => SearchEnd::Upper,
        GoalType::MaxIncome => SearchEnd::Lower,
    }
}

/// The interval brackets the target: the end on the cheap side (the lower
/// contribution, the upper income) fails it and the other end meets it.
pub open spec fn brackets_target(goal: GoalType, lower_meets: bool, upper_meets: bool) -> bool {
    match goal {
        GoalType::RequiredContribution => !lower_meets && upper_meets,
        GoalType::MaxIncome => lower_meets && !upper_meets,
    }
}

/// A search starts from a bracketing interval, each bisection step keeps the
/// interval bracketing whatever the midpoint's verdict, and the end reported
/// at the close is the one that meets the target.
pub proof fn lemma_bisection_keeps_bracket(
    goal: GoalType,
    meets_at_min: bool,
    meets_at_max: bool,
    lower_meets: bool,
    upper_meets: bool,
    meets_at_mid: bool,
)
    ensures
        bracket_spec(goal, meets_at_min, meets_at_max) == GoalBracket::Search ==> brackets_target(
            goal,
            meets_at_min,
            meets_at_max,
        ),
        brackets_target(goal, lower_meets, upper_meets) ==> match bisection_move_spec(
            goal,
            meets_at_mid,
        ) {
            SearchEnd::Lower => brackets_target(goal, meets_at_mid, upper_meets),
            SearchEnd::Upper => brackets_target(goal, lower_meets, meets_at_mid),
        },
        brackets_target(goal, lower_meets, upper_meets) ==> (if goal
            == GoalType::RequiredContribution {
            upper_meets
        } else {
            lower_meets
        }),
{
}

pub open spec fn outcome_text(goal: GoalType, bracket: GoalBracket, converged: bool) -> Seq<char> {
    match bracket {
        GoalBracket::AlreadyMet => if goal == GoalType::RequiredContribution {
            "Already meets target at lower contribution bound."@
        } else {
            "Upper income bound is still feasible; increase search max for higher target."@
        },
        GoalBracket::Infeasible => if goal == GoalType::RequiredContribution {
            "No feasible contribution found within the search bounds."@
        } else {
            "No feasible income found within the search bounds."@
        },
        GoalBracket::Search => if !converged {
            "Reached max iterations before tolerance was met; returning best estimate."@
        } else if goal == GoalType::RequiredContribution {
            "Solved required contribution."@
        } else {
            "Solved maximum sustainable income."@
        },
    }
}

/// The human-readable message of a solve; `converged` matters only after a search.
pub fn outcome_message(goal: GoalType, bracket: GoalBracket, converged: bool) -> (r: String)
    ensures
        r@ == outcome_text(goal, bracket, converged),
{
    let rc = matches!(goal, GoalType::RequiredContribution);
    match bracket {
        GoalBracket::AlreadyMet => if rc {
            "Already meets target at lower contribution bound.".to_owned()
        } else {
            "Upper income bound is still feasible; increase search max for higher target.".to_owned()
        },
        GoalBracket::Infeasible => if rc {
            "No feasible contribution found within the search bounds.".to_owned()
        } else {
            "No feasible income found within the search bounds.".to_owned()
        },
        GoalBracket::Search => if !converged {
            "Reached max iterations before tolerance was met; returning best estimate.".to_owned()
        } else if rc {
            "Solved required contribution.".to_owned()
        } else {
            "Solved maximum sustainable income.".to_owned()
        },
    }
}

} // verus!
