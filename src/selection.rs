//! Choosing ages out of a sweep from the number of successful scenarios at each age.

use vstd::prelude::*;

verus! {

/// The outcome of a sweep: the first age that clears the success threshold, if
/// any, and the age with the most successes.
#[derive(Copy, Clone, Debug, PartialEq, Eq, Structural)]
pub struct AgeSelection {
    pub selected_index: Option<usize>,
    pub best_index: usize,
}

/// `i` is the first index whose count reaches `required`.
pub open spec fn is_first_meeting(counts: Seq<u32>, required: u64, i: int) -> bool {
    &&& 0 <= i < counts.len()
    &&& counts[i] as u64 >= required
    &&& forall|j: int| 0 <= j < i ==> (counts[j] as u64) < required
}

/// `i` holds the largest count, and no later index holds as many: ties go to the
/// last of the maximal entries.
pub open spec fn is_last_maximum(counts: Seq<u32>, i: int) -> bool {
    &&& 0 <= i < counts.len()
    &&& forall|j: int| 0 <= j < counts.len() ==> counts[j] <= counts[i]
    &&& forall|j: int| i < j < counts.len() ==> counts[j] < counts[i]
}

/// Given the number of successful scenarios per swept age (all ages run the same
/// number of scenarios) and the number of successes the threshold asks for,
/// selects the first age meeting it and the age with the highest success count.
pub fn select_ages(success_counts: &Vec<u32>, required_successes: u64) -> (r: AgeSelection)
    ensures
        match r.selected_index {
            Some(i) => is_first_meeting(success_counts@, required_successes, i as int),
            None => forall|j: int|
                0 <= j < success_counts@.len() ==> (success_counts@[j] as u64) < required_successes,
        },
        success_counts@.len() > 0 ==> is_last_maximum(success_counts@, r.best_index as int),
        success_counts@.len() == 0 ==> r.best_index == 0,
{
    let n = success_counts.len();
    let mut selected: Option<usize> = None;
    let mut best: usize = 0;
    let mut i: usize = 0;
    while i < n
        invariant
            n == success_counts@.len(),
            i <= n,
            match selected {
                Some(k) => is_first_meeting(success_counts@, required_successes, k as int),
                None => forall|j: int|
                    0 <= j < i ==> (success_counts@[j] as u64) < required_successes,
            },
            i > 0 ==> best < i,
            i > 0 ==> forall|j: int| 0 <= j < i ==> success_counts@[j] <= success_counts@[best as int],
            i > 0 ==> forall|j: int| best < j < i ==> success_counts@[j] < success_counts@[best as int],
            i == 0 ==> best == 0,
        decreases n - i,
    {
        let c = success_counts[i];
        if selected.is_none() && c as u64 >= required_successes {
            selected = Some(i);
        }
        if i == 0 || c >= success_counts[best] {
            best = i;
        }
        i = i + 1;
    }
    AgeSelection { selected_index: selected, best_index: best }
}

} // verus!
