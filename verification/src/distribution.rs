//! Weighted reference pools and the text corpus.
//!
//! A [`Distribution`] is an immutable ordered list of `(value, weight)`
//! pairs with a precomputed running-total table; a weighted pick scans the
//! running totals for the first entry that exceeds the drawn weight.  The
//! per-item weight doubles as a foreign key for the nation pool, where it
//! holds the index of the nation's region.  A [`TextPool`] is an immutable
//! ASCII corpus that pooled-text generators take substrings of.  Both are
//! built once at process start and injected into the generators.

use vstd::prelude::*;

verus! {

/// The sum of a sequence of weights.
pub open spec fn weights_total(ws: Seq<u64>) -> int
    decreases ws.len(),
{
    if ws.len() == 0 {
        0
    } else {
        weights_total(ws.drop_last()) + ws.last()
    }
}

/// An immutable ordered pool of weighted string values.
pub struct Distribution {
    /// The values, in pool order.
    pub values: Vec<String>,
    /// The per-value weights (for the nation pool: the region index).
    pub weights: Vec<u64>,
    /// Running totals of the weights.
    pub cumulative: Vec<u64>,
}

impl Distribution {
    /// The pool is non-empty, the three columns have equal length, and the
    /// running totals really are the partial sums of the weights.
    pub open spec fn wf(self) -> bool {
        &&& self.values@.len() == self.weights@.len()
        &&& self.values@.len() == self.cumulative@.len()
        &&& self.values@.len() >= 1
        &&& self.cumulative@[0] == self.weights@[0]
        &&& forall|i: int|
            1 <= i < self.cumulative@.len() ==> #[trigger] self.cumulative@[i]
                == self.cumulative@[i - 1] + self.weights@[i]
    }

    /// Number of values in the pool.
    pub open spec fn spec_size(self) -> nat {
        self.values@.len()
    }

    /// The total weight of the pool.
    pub open spec fn spec_total_weight(self) -> u64 {
        self.cumulative@.last()
    }

    /// Builds a pool from values and weights.  Returns `None` exactly when
    /// the columns differ in length, the pool is empty, or the total weight
    /// does not fit in 64 bits.
    pub fn new(values: Vec<String>, weights: Vec<u64>) -> (r: Option<Distribution>)
        ensures
            r is Some ==> r.unwrap().wf(),
            r is Some ==> r.unwrap().values@ == values@,
            r is Some ==> r.unwrap().weights@ == weights@,
            r is Some <==> values@.len() == weights@.len() && values@.len() >= 1
                && weights_total(weights@) <= u64::MAX,
    {
        if values.len() != weights.len() || values.len() == 0 {
            proof {
                if values@.len() == weights@.len() && values@.len() >= 1 {
                    assert(false);
                }
            }
            return None;
        }
        let mut cumulative: Vec<u64> = Vec::new();
        let mut total: u64 = 0;
        let mut i: usize = 0;
        while i < weights.len()
            invariant
                i <= weights.len(),
                cumulative@.len() == i,
                i > 0 ==> total == cumulative@[i - 1],
                i > 0 ==> cumulative@[0] == weights@[0],
                forall|j: int|
                    1 <= j < i ==> #[trigger] cumulative@[j] == cumulative@[j - 1] + weights@[j],
                total == weights_total(weights@.take(i as int)),
            decreases weights.len() - i,
        {
            proof {
                assert(weights@.take(i + 1).drop_last() =~= weights@.take(i as int));
                assert(weights@.take(i + 1).last() == weights@[i as int]);
            }
            if weights[i] > u64::MAX - total {
                proof {
                    lemma_weights_total_monotone(weights@, i + 1);
                }
                return None;
            }
            total = total + weights[i];
            cumulative.push(total);
            i = i + 1;
        }
        proof {
            assert(weights@.take(weights@.len() as int) =~= weights@);
        }
        Some(Distribution { values, weights, cumulative })
    }

    /// Number of values in the pool.
    pub fn size(&self) -> (r: usize)
        ensures
            r == self.spec_size(),
    {
        self.values.len()
    }

    /// The value at `index`.
    pub fn get_value(&self, index: usize) -> (r: String)
        requires
            self.wf(),
            index < self.spec_size(),
        ensures
            r@ == self.values@[index as int]@,
    {
        self.values[index].clone()
    }

    /// The weight at `index` (for the nation pool: the region index).
    pub fn get_weight(&self, index: usize) -> (r: u64)
        requires
            self.wf(),
            index < self.spec_size(),
        ensures
            r == self.weights@[index as int],
    {
        self.weights[index]
    }

    /// The total weight of the pool.
    pub fn total_weight(&self) -> (r: u64)
        requires
            self.wf(),
        ensures
            r == self.spec_total_weight(),
    {
        self.cumulative[self.cumulative.len() - 1]
    }

    /// Picks the value for a drawn weight `w`: the first index whose running
    /// total exceeds `w`.
    pub fn pick_index(&self, w: u64) -> (r: usize)
        requires
            self.wf(),
            w < self.spec_total_weight(),
        ensures
            pick_prop(*self, w, r as int),
    {
        let mut i: usize = 0;
        while i < self.cumulative.len() - 1
            invariant
                self.wf(),
                i < self.cumulative@.len(),
                i > 0 ==> self.cumulative@[i - 1] <= w,
                w < self.spec_total_weight(),
            decreases self.cumulative.len() - i,
        {
            if w < self.cumulative[i] {
                return i;
            }
            i = i + 1;
        }
        i
    }
}

/// A prefix of the weight column weighs no more than the whole column.
proof fn lemma_weights_total_monotone(ws: Seq<u64>, n: int)
    requires
        0 <= n <= ws.len(),
        forall|i: int| 0 <= i < ws.len() ==> #[trigger] ws[i] >= 0,
    ensures
        weights_total(ws.take(n)) <= weights_total(ws),
    decreases ws.len(),
{
    if n < ws.len() {
        lemma_weights_total_monotone(ws.drop_last(), n);
        assert(ws.drop_last().take(n) =~= ws.take(n));
    } else {
        assert(ws.take(n) =~= ws);
    }
}

/// `i` is the index a drawn weight `w` picks: the first whose running total
/// exceeds `w`.
pub open spec fn pick_prop(d: Distribution, w: u64, i: int) -> bool {
    &&& 0 <= i < d.spec_size()
    &&& w < d.cumulative@[i]
    &&& i > 0 ==> d.cumulative@[i - 1] <= w
}

/// A drawn weight picks exactly one index: with the running totals
/// non-decreasing, two indices that both satisfy [`pick_prop`] are equal.
pub proof fn lemma_pick_unique(d: Distribution, w: u64, i: int, j: int)
    requires
        d.wf(),
        pick_prop(d, w, i),
        pick_prop(d, w, j),
    ensures
        i == j,
{
    if i < j {
        lemma_cumulative_monotone(d, i, j - 1);
    }
    if j < i {
        lemma_cumulative_monotone(d, j, i - 1);
    }
}

/// The running-total table of a well-formed pool is non-decreasing: the law
/// behind every weighted pick.
pub proof fn lemma_cumulative_monotone(d: Distribution, i: int, j: int)
    requires
        d.wf(),
        0 <= i <= j < d.cumulative@.len(),
    ensures
        d.cumulative@[i] <= d.cumulative@[j],
    decreases j - i,
{
    if i < j {
        lemma_cumulative_monotone(d, i, j - 1);
    }
}

/// The set of reference pools that the row generators draw from.
pub struct Distributions {
    /// Nation names; each weight is the index of the nation's region.
    pub nations: Distribution,
    /// Region names.
    pub regions: Distribution,
    /// Color words for vehicle and building names.
    pub part_colors: Distribution,
    /// Vehicle type descriptions.
    pub part_types: Distribution,
    /// Vehicle container descriptions.
    pub part_containers: Distribution,
    /// Market segment names.
    pub market_segments: Distribution,
}

impl Distributions {
    /// All pools are well formed and every nation's weight is a valid region
    /// index.
    pub open spec fn wf(self) -> bool {
        &&& self.nations.wf()
        &&& self.regions.wf()
        &&& self.part_colors.wf()
        &&& self.part_types.wf()
        &&& self.part_containers.wf()
        &&& self.market_segments.wf()
        &&& forall|i: int|
            0 <= i < self.nations.weights@.len() ==> #[trigger] self.nations.weights@[i]
                < self.regions.spec_size()
    }

    /// Assembles the pool set, checking that every nation weight is a valid
    /// region index.  Returns `None` exactly when one is not.
    pub fn new(
        nations: Distribution,
        regions: Distribution,
        part_colors: Distribution,
        part_types: Distribution,
        part_containers: Distribution,
        market_segments: Distribution,
    ) -> (r: Option<Distributions>)
        requires
            nations.wf(),
            regions.wf(),
            part_colors.wf(),
            part_types.wf(),
            part_containers.wf(),
            market_segments.wf(),
        ensures
            r is Some ==> r.unwrap().wf(),
            r is Some ==> r.unwrap().nations == nations && r.unwrap().regions == regions
                && r.unwrap().part_colors == part_colors && r.unwrap().part_types == part_types
                && r.unwrap().part_containers == part_containers && r.unwrap().market_segments
                == market_segments,
            (r is Some) <==> (forall|i: int|
                0 <= i < nations.weights@.len() ==> #[trigger] nations.weights@[i]
                    < regions.spec_size()),
    {
        let mut i: usize = 0;
        while i < nations.weights.len()
            invariant
                i <= nations.weights@.len(),
                regions.wf(),
                forall|j: int|
                    0 <= j < i ==> #[trigger] nations.weights@[j] < regions.spec_size(),
            decreases nations.weights@.len() - i,
        {
            if nations.weights[i] >= regions.values.len() as u64 {
                return None;
            }
            i = i + 1;
        }
        Some(
            Distributions {
                nations,
                regions,
                part_colors,
                part_types,
                part_containers,
                market_segments,
            },
        )
    }
}

/// An immutable ASCII text corpus; pooled-text values are substrings of it.
pub struct TextPool {
    /// The corpus.
    pub text: String,
}

impl TextPool {
    /// The corpus is ASCII, so any byte range is a character range.
    pub open spec fn wf(self) -> bool {
        self.text@.len() >= 1 && vstd::string::string_is_ascii(&self.text)
    }

    /// Wraps a corpus.  Returns `None` exactly when the text is empty or not
    /// ASCII.
    pub fn new(text: String) -> (r: Option<TextPool>)
        ensures
            r is Some ==> r.unwrap().wf() && r.unwrap().text@ == text@,
            (r is Some) <==> (text@.len() >= 1 && vstd::string::string_is_ascii(&text)),
    {
        let n = text.as_str().unicode_len();
        if n >= 1 && text.is_ascii() {
            Some(TextPool { text })
        } else {
            None
        }
    }

    /// Length of the corpus in characters.
    pub fn size(&self) -> (r: usize)
        requires
            self.wf(),
        ensures
            r == self.text@.len(),
    {
        self.text.as_str().unicode_len()
    }

    /// The substring of `len` characters starting at `offset`.
    pub fn substring(&self, offset: usize, len: usize) -> (r: String)
        requires
            self.wf(),
            offset + len <= self.text@.len(),
        ensures
            r@ == self.text@.subrange(offset as int, offset as int + len as int),
    {
        let n = self.text.as_str().unicode_len();
        let s = self.text.as_str().substring_ascii(offset, offset + len);
        String::from_str(s)
    }
}

} // verus!
