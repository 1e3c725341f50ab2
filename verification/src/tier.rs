//! Pricing tiers, the records the tier menu chooses between.  Two
//! tiers count as the same when their names match, whatever their
//! pricing text.

use vstd::prelude::*;
use vstd::string::StringExecFns;
use crate::text;

verus! {

/// A pricing tier as the service lists it.
pub struct Tier {
    pub name: String,
    pub pricing: String,
}

impl Tier {
    /// The menu row a tier renders to: its name, with the pricing in
    /// parentheses.
    pub fn display_text(&self) -> (r: String)
        ensures
            r@ == self.name@ + " ("@ + self.pricing@ + ")"@,
    {
        self.name.clone().concat(" (").concat(self.pricing.as_str()).concat(")")
    }

    /// Whether two tiers are the same offering: equality goes by name
    /// alone.
    pub fn same(&self, other: &Tier) -> (r: bool)
        ensures
            r == (self.name@ == other.name@),
    {
        text::str_eq(self.name.as_str(), other.name.as_str())
    }
}

/// Index of the first tier that matches `current` by name, the way the
/// tier menu locates the caller's present tier.
pub fn find_current_tier(tiers: &Vec<Tier>, current: &Tier) -> (r: Option<usize>)
    ensures
        r matches Some(i) ==> i < tiers@.len() && tiers@[i as int].name@ == current.name@ && forall|
            j: int,
        | 0 <= j < i ==> tiers@[j].name@ != current.name@,
        r is None ==> forall|j: int| 0 <= j < tiers@.len() ==> tiers@[j].name@ != current.name@,
{
    let mut i: usize = 0;
    while i < tiers.len()
        invariant
            i <= tiers@.len(),
            forall|j: int| 0 <= j < i ==> tiers@[j].name@ != current.name@,
        decreases tiers@.len() - i,
    {
        if tiers[i].same(current) {
            return Some(i);
        }
        i = i + 1;
    }
    None
}

} // verus!
