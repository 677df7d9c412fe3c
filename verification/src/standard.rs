//! The standard catalog: the twelve categories of floats that are not NaN.
use vstd::prelude::*;
use crate::catalog::{
    entry_ok, is_minimal_cover, lemma_first_covering, narrowest, ordered_up_to, well_formed, Catalog,
};
use crate::category::{FloatDefinition, FloatSpecifications};
use crate::possibilities::{FloatPossibilities, Width};

verus! {

/// The number of standard categories.
pub const STANDARD_LEN: usize = 12;

/// A category that rejects NaN.
pub open spec fn spec_category(
    name: &'static str,
    accept_inf: bool,
    accept_zero: bool,
    accept_positive: bool,
    accept_negative: bool,
) -> FloatDefinition {
    FloatDefinition {
        name,
        s: FloatSpecifications {
            accept_nan: false,
            accept_inf,
            accept_zero,
            accept_positive,
            accept_negative,
        },
    }
}

/// The standard category at index `k`. The order goes from the most
/// restrictive to the least: first the categories of one sign, finite and
/// without zero, last the category of every float but NaN.
pub open spec fn standard_entry(k: int) -> FloatDefinition {
    if k == 0 {
        spec_category("StrictlyPositiveFinite", false, false, true, false)
    } else if k == 1 {
        spec_category("StrictlyNegativeFinite", false, false, false, true)
    } else if k == 2 {
        spec_category("PositiveFinite", false, true, true, false)
    } else if k == 3 {
        spec_category("NegativeFinite", false, true, false, true)
    } else if k == 4 {
        spec_category("StrictlyPositive", true, false, true, false)
    } else if k == 5 {
        spec_category("StrictlyNegative", true, false, false, true)
    } else if k == 6 {
        spec_category("NonZeroNonNaNFinite", false, false, true, true)
    } else if k == 7 {
        spec_category("Positive", true, true, true, false)
    } else if k == 8 {
        spec_category("Negative", true, true, false, true)
    } else if k == 9 {
        spec_category("NonNaNFinite", false, true, true, true)
    } else if k == 10 {
        spec_category("NonZeroNonNaN", true, false, true, true)
    } else {
        spec_category("NonNaN", true, true, true, true)
    }
}

/// The standard categories in their order.
pub open spec fn standard_entries() -> Seq<FloatDefinition> {
    Seq::new(STANDARD_LEN as nat, |k: int| standard_entry(k))
}

/// The standard categories form a catalog.
pub proof fn lemma_standard_well_formed()
    ensures
        well_formed(standard_entries()),
{
    let entries = standard_entries();
    assert forall|k: int| 0 <= k < entries.len() implies entry_ok(#[trigger] entries[k]) by {}
    assert forall|j: int| 0 <= j < entries.len() implies #[trigger] ordered_up_to(
        entries,
        j,
        j,
    ) by {
        assert forall|i: int| 0 <= i < j implies !entries[j].s.strictly_within(
            (#[trigger] entries[i]).s,
        ) by {
            if entries[j].s.strictly_within(entries[i].s) {
                entries[j].s.lemma_strictly_within_weighs_less(entries[i].s);
            }
        }
    }
}

/// In the standard catalog every description without NaN has a category of
/// its own: the narrowest category that covers it accepts exactly what the
/// description allows, and every other category that covers the description
/// is less restrictive. So the narrowest category is the only one that covers
/// the description while no stricter category does.
pub proof fn lemma_standard_narrowest_is_least(c: FloatPossibilities)
    requires
        !c.nan,
    ensures
        narrowest(standard_entries(), c) matches Some(i) && {
            &&& 0 <= i < standard_entries().len()
            &&& standard_entries()[i].s.worst_case() == c
            &&& forall|k: int|
                0 <= k < standard_entries().len() && (#[trigger] standard_entries()[k]).s.covers(c)
                    ==> standard_entries()[i].s.within(standard_entries()[k].s)
            &&& forall|k: int|
                0 <= k < standard_entries().len() && (#[trigger] standard_entries()[k]).s.covers(c)
                    && k != i ==> standard_entries()[i].s.strictly_within(standard_entries()[k].s)
            &&& forall|k: int| #[trigger] is_minimal_cover(standard_entries(), c, k) <==> k == i
        },
{
    let entries = standard_entries();
    lemma_first_covering(entries, c, 0);
    assert(exists|k: int| 0 <= k < entries.len() && entries[k].s.worst_case() == c) by {
        assert(entries[0].s.worst_case() == c || entries[1].s.worst_case() == c
            || entries[2].s.worst_case() == c || entries[3].s.worst_case() == c
            || entries[4].s.worst_case() == c || entries[5].s.worst_case() == c
            || entries[6].s.worst_case() == c || entries[7].s.worst_case() == c
            || entries[8].s.worst_case() == c || entries[9].s.worst_case() == c
            || entries[10].s.worst_case() == c || entries[11].s.worst_case() == c);
    }
    let own: int = choose|k: int| 0 <= k < entries.len() && entries[k].s.worst_case() == c;
    assert(entries[own].s.covers(c));
    let i: int = narrowest(entries, c).unwrap();
    assert(entries[i].s.covers(c));
    assert(i == own);
    assert forall|k: int| 0 <= k < entries.len() && (#[trigger] entries[k]).s.covers(
        c,
    ) implies entries[i].s.within(entries[k].s) && (k != i ==> entries[i].s.strictly_within(
        entries[k].s,
    )) by {
        entries[i].s.lemma_within_by_flags(entries[k].s);
        entries[k].s.lemma_within_by_flags(entries[i].s);
    }
}

impl Catalog {
    /// The standard catalog for floats of the given width.
    pub fn standard(width: Width) -> (res: Catalog)
        ensures
            res@ == standard_entries(),
            res.width() == width,
            res.wf(),
    {
        let mut entries: Vec<FloatDefinition> = Vec::new();
        entries.push(category("StrictlyPositiveFinite", false, false, true, false));
        entries.push(category("StrictlyNegativeFinite", false, false, false, true));
        entries.push(category("PositiveFinite", false, true, true, false));
        entries.push(category("NegativeFinite", false, true, false, true));
        entries.push(category("StrictlyPositive", true, false, true, false));
        entries.push(category("StrictlyNegative", true, false, false, true));
        entries.push(category("NonZeroNonNaNFinite", false, false, true, true));
        entries.push(category("Positive", true, true, true, false));
        entries.push(category("Negative", true, true, false, true));
        entries.push(category("NonNaNFinite", false, true, true, true));
        entries.push(category("NonZeroNonNaN", true, false, true, true));
        entries.push(category("NonNaN", true, true, true, true));
        proof {
            assert(entries@ =~= standard_entries());
            lemma_standard_well_formed();
        }
        Catalog::from_checked(width, entries)
    }
}

/// A category that rejects NaN.
#[verifier::when_used_as_spec(spec_category)]
pub fn category(
    name: &'static str,
    accept_inf: bool,
    accept_zero: bool,
    accept_positive: bool,
    accept_negative: bool,
) -> (res: FloatDefinition)
    ensures
        res == spec_category(name, accept_inf, accept_zero, accept_positive, accept_negative),
{
    FloatDefinition {
        name,
        s: FloatSpecifications {
            accept_nan: false,
            accept_inf,
            accept_zero,
            accept_positive,
            accept_negative,
        },
    }
}

} // verus!
