//! The catalog of categories, ordered from the most restrictive to the least,
//! and the search for the narrowest category that covers a description.
use vstd::prelude::*;
use crate::category::{FloatDefinition, FloatSpecifications};
use crate::possibilities::{FloatPossibilities, Width};

verus! {

/// Why a list of categories is no catalog.
#[derive(Debug, Clone, Copy, PartialEq, Eq, Structural)]
pub enum CatalogError {
    /// The entry at `index` accepts NaN.
    AcceptsNan { index: usize },
    /// The entry at `index` accepts neither sign, and so nothing at all.
    AcceptsNoSign { index: usize },
    /// The entry at `later` is more restrictive than the one at `earlier`,
    /// which comes before it.
    OutOfOrder { earlier: usize, later: usize },
}

/// An entry that may stand in a catalog: it rejects NaN and accepts a sign.
pub open spec fn entry_ok(d: FloatDefinition) -> bool {
    !d.s.accept_nan && d.s.is_inhabited()
}

/// The first `n` entries may stand in a catalog.
pub open spec fn entries_ok(entries: Seq<FloatDefinition>, n: int) -> bool {
    forall|k: int| 0 <= k < n && k < entries.len() ==> entry_ok(#[trigger] entries[k])
}

/// The entry at `later` is more restrictive than none of the entries before
/// `earlier`.
pub open spec fn ordered_up_to(entries: Seq<FloatDefinition>, earlier: int, later: int) -> bool {
    forall|i: int|
        0 <= i < earlier && i < later < entries.len() ==> !entries[later].s.strictly_within(
            (#[trigger] entries[i]).s,
        )
}

/// Among the first `n` entries, none is more restrictive than one that comes
/// before it: their order is a linear extension of the acceptance order.
pub open spec fn ordered(entries: Seq<FloatDefinition>, n: int) -> bool {
    forall|j: int| 0 <= j < n && j < entries.len() ==> #[trigger] ordered_up_to(entries, j, j)
}

/// What makes a list of categories a catalog.
pub open spec fn well_formed(entries: Seq<FloatDefinition>) -> bool {
    &&& entries_ok(entries, entries.len() as int)
    &&& ordered(entries, entries.len() as int)
}

/// The index of the first entry, from `from` on, that covers `c`.
pub open spec fn first_covering(
    entries: Seq<FloatDefinition>,
    c: FloatPossibilities,
    from: int,
) -> Option<int>
    decreases entries.len() - from,
{
    if from < 0 || from >= entries.len() {
        None
    } else if entries[from].s.covers(c) {
        Some(from)
    } else {
        first_covering(entries, c, from + 1)
    }
}

/// The index of the narrowest entry that covers `c`, in a catalog.
pub open spec fn narrowest(entries: Seq<FloatDefinition>, c: FloatPossibilities) -> Option<int> {
    first_covering(entries, c, 0)
}

/// An index as the contracts speak of it.
pub open spec fn index_of(found: Option<usize>) -> Option<int> {
    match found {
        Some(i) => Some(i as int),
        None => None,
    }
}

/// `first_covering` finds an entry that covers `c` and that no entry between
/// `from` and it covers; it finds none only if there is none from `from` on.
pub proof fn lemma_first_covering(entries: Seq<FloatDefinition>, c: FloatPossibilities, from: int)
    requires
        0 <= from <= entries.len(),
    ensures
        match first_covering(entries, c, from) {
            Some(i) => {
                &&& from <= i < entries.len()
                &&& entries[i].s.covers(c)
                &&& forall|k: int| from <= k < i ==> !(#[trigger] entries[k]).s.covers(c)
            },
            None => forall|k: int|
                from <= k < entries.len() ==> !(#[trigger] entries[k]).s.covers(c),
        },
    decreases entries.len() - from,
{
    if from < entries.len() && !entries[from].s.covers(c) {
        lemma_first_covering(entries, c, from + 1);
    }
}

/// A fixed list of categories in which the first entry that covers a
/// description is the narrowest that does.
#[derive(Debug)]
pub struct Catalog {
    width: Width,
    entries: Vec<FloatDefinition>,
}

impl View for Catalog {
    type V = Seq<FloatDefinition>;

    closed spec fn view(&self) -> Seq<FloatDefinition> {
        self.entries@
    }
}

impl Catalog {
    /// The width of the floats that the categories refine.
    pub closed spec fn spec_width(&self) -> Width {
        self.width
    }

    /// The invariant of a catalog.
    pub open spec fn wf(&self) -> bool {
        well_formed(self@)
    }

    /// Makes a catalog of `entries`, or says why they are none: no entry may
    /// accept NaN, each must accept a sign, and none may be more restrictive
    /// than one that comes before it. The entries are checked one by one
    /// first, then the order, pair by pair, by the later entry and then by the
    /// earlier; the first defect found is reported.
    pub fn new(width: Width, entries: Vec<FloatDefinition>) -> (res: Result<Catalog, CatalogError>)
        ensures
            res is Ok <==> well_formed(entries@),
            match res {
                Ok(catalog) => catalog@ == entries@ && catalog.width() == width && catalog.wf(),
                Err(CatalogError::AcceptsNan { index }) => {
                    &&& index < entries@.len()
                    &&& entries_ok(entries@, index as int)
                    &&& entries@[index as int].s.accept_nan
                },
                Err(CatalogError::AcceptsNoSign { index }) => {
                    &&& index < entries@.len()
                    &&& entries_ok(entries@, index as int)
                    &&& !entries@[index as int].s.accept_nan
                    &&& !entries@[index as int].s.is_inhabited()
                },
                Err(CatalogError::OutOfOrder { earlier, later }) => {
                    &&& entries_ok(entries@, entries@.len() as int)
                    &&& earlier < later < entries@.len()
                    &&& ordered(entries@, later as int)
                    &&& ordered_up_to(entries@, earlier as int, later as int)
                    &&& entries@[later as int].s.strictly_within(entries@[earlier as int].s)
                },
            },
    {
        let n: usize = entries.len();
        let mut index: usize = 0;
        while index < n
            invariant
                n == entries@.len(),
                index <= n,
                entries_ok(entries@, index as int),
            decreases n - index,
        {
            let s = entries[index].s;
            if s.accept_nan {
                return Err(CatalogError::AcceptsNan { index });
            }
            if !s.is_inhabited() {
                return Err(CatalogError::AcceptsNoSign { index });
            }
            index += 1;
        }
        let mut later: usize = 0;
        while later < n
            invariant
                n == entries@.len(),
                later <= n,
                entries_ok(entries@, n as int),
                ordered(entries@, later as int),
            decreases n - later,
        {
            let mut earlier: usize = 0;
            while earlier < later
                invariant
                    n == entries@.len(),
                    later < n,
                    earlier <= later,
                    entries_ok(entries@, n as int),
                    ordered(entries@, later as int),
                    ordered_up_to(entries@, earlier as int, later as int),
                decreases later - earlier,
            {
                if entries[later].s.strictly_within(entries[earlier].s) {
                    proof {
                        assert(!ordered_up_to(entries@, later as int, later as int));
                    }
                    return Err(CatalogError::OutOfOrder { earlier, later });
                }
                earlier += 1;
            }
            later += 1;
        }
        Ok(Catalog { width, entries })
    }

    /// A catalog of entries that are known to be well formed.
    pub(crate) fn from_checked(width: Width, entries: Vec<FloatDefinition>) -> (res: Catalog)
        requires
            well_formed(entries@),
        ensures
            res@ == entries@,
            res.width() == width,
            res.wf(),
    {
        Catalog { width, entries }
    }

    /// The width of the floats that the categories refine.
    #[verifier::when_used_as_spec(spec_width)]
    pub fn width(&self) -> (res: Width)
        ensures
            res == self.spec_width(),
    {
        self.width
    }

    /// The number of categories.
    pub fn len(&self) -> (res: usize)
        ensures
            res == self@.len(),
    {
        self.entries.len()
    }

    /// The category at `index`.
    pub fn get(&self, index: usize) -> (res: FloatDefinition)
        requires
            index < self@.len(),
        ensures
            res == self@[index as int],
    {
        self.entries[index]
    }

    /// The narrowest category that covers `c`, by its index, or `None` where
    /// no category covers it; none covers a description that allows NaN.
    /// The category found covers `c`, no entry before it does, and no entry
    /// that covers `c` is more restrictive than it.
    pub fn find(&self, c: &FloatPossibilities) -> (res: Option<usize>)
        requires
            self.wf(),
        ensures
            index_of(res) == narrowest(self@, *c),
            c.nan ==> res is None,
            res is None <==> forall|k: int|
                0 <= k < self@.len() ==> !(#[trigger] self@[k]).s.covers(*c),
            res matches Some(i) ==> {
                &&& i < self@.len()
                &&& self@[i as int].s.covers(*c)
                &&& forall|k: int| 0 <= k < i ==> !(#[trigger] self@[k]).s.covers(*c)
                &&& forall|k: int|
                    0 <= k < self@.len() && (#[trigger] self@[k]).s.covers(*c)
                        ==> !self@[k].s.strictly_within(self@[i as int].s)
            },
    {
        proof {
            lemma_narrowest_is_minimal(self@, *c);
        }
        if c.nan {
            assert forall|k: int| 0 <= k < self@.len() implies !(#[trigger] self@[k]).s.covers(
                *c,
            ) by {
                assert(entry_ok(self@[k]));
            }
            return None;
        }
        let n: usize = self.entries.len();
        let mut i: usize = 0;
        while i < n
            invariant
                n == self@.len(),
                i <= n,
                !c.nan,
                narrowest(self@, *c) == first_covering(self@, *c, i as int),
                forall|k: int| 0 <= k < i ==> !(#[trigger] self@[k]).s.covers(*c),
                match narrowest(self@, *c) {
                    Some(m) => forall|k: int|
                        0 <= k < self@.len() && (#[trigger] self@[k]).s.covers(*c)
                            ==> !self@[k].s.strictly_within(self@[m].s),
                    None => true,
                },
            decreases n - i,
        {
            if self.entries[i].s.covers(*c) {
                return Some(i);
            }
            i += 1;
        }
        None
    }

    /// The narrowest category that covers `c`, or `None` where the result
    /// has to stay an unrefined float.
    pub fn get_float(&self, c: &FloatPossibilities) -> (res: Option<FloatDefinition>)
        requires
            self.wf(),
        ensures
            res == match narrowest(self@, *c) {
                Some(i) => Some(self@[i]),
                None => None,
            },
    {
        proof {
            lemma_first_covering(self@, *c, 0);
        }
        match self.find(c) {
            Some(i) => Some(self.entries[i]),
            None => None,
        }
    }
}

/// The entry at `i` covers `c`, and no entry that covers `c` is more
/// restrictive than it.
pub open spec fn is_minimal_cover(
    entries: Seq<FloatDefinition>,
    c: FloatPossibilities,
    i: int,
) -> bool {
    &&& 0 <= i < entries.len()
    &&& entries[i].s.covers(c)
    &&& forall|k: int|
        0 <= k < entries.len() && (#[trigger] entries[k]).s.covers(c)
            ==> !entries[k].s.strictly_within(entries[i].s)
}

/// The order of a catalog is a linear extension of the acceptance order: an
/// entry is never more restrictive than one that comes before it.
pub proof fn lemma_order_is_linear_extension(entries: Seq<FloatDefinition>, i: int, j: int)
    requires
        well_formed(entries),
        0 <= i < j < entries.len(),
    ensures
        !entries[j].s.strictly_within(entries[i].s),
{
    assert(ordered_up_to(entries, j, j));
}

/// In a catalog, the first entry that covers a description is a narrowest
/// one: no entry that covers the description is more restrictive than it.
pub proof fn lemma_narrowest_is_minimal(entries: Seq<FloatDefinition>, c: FloatPossibilities)
    requires
        well_formed(entries),
    ensures
        match narrowest(entries, c) {
            Some(i) => is_minimal_cover(entries, c, i),
            None => forall|k: int| 0 <= k < entries.len() ==> !(#[trigger] entries[k]).s.covers(c),
        },
{
    lemma_first_covering(entries, c, 0);
    if let Some(i) = narrowest(entries, c) {
        assert forall|k: int| 0 <= k < entries.len() && (#[trigger] entries[k]).s.covers(
            c,
        ) implies !entries[k].s.strictly_within(entries[i].s) by {
            if k > i {
                assert(ordered_up_to(entries, k, k));
            } else if k < i {
                assert(!entries[k].s.covers(c));
            }
        }
    }
}

} // verus!
