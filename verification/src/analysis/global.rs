//! The sparse global stiffness: for each pair of world degrees of freedom
//! that some member couples, the coefficients that members contribute to it.
//!
//! The coefficient of a pair is the sum of its contributions. The library
//! keeps the contributions apart, in the order in which they arrived, and
//! leaves the sum to the caller, who knows the number type.

use std::collections::HashMap;
use vstd::prelude::*;

verus! {

broadcast use vstd::std_specs::hash::group_hash_axioms;

/// One coefficient that a member contributes to the global stiffness.
#[derive(Debug)]
pub struct Contribution<S> {
    pub row: usize,
    pub column: usize,
    pub value: S,
}

/// The contributions to one pair of degrees of freedom.
#[derive(Debug)]
pub struct StiffnessEntry<S> {
    pub row: usize,
    pub column: usize,
    pub contributions: Vec<S>,
}

/// The global stiffness: the pairs of degrees of freedom that have
/// contributions, each with its contributions in the order of arrival.
///
/// The pairs stand in the order in which they first received a contribution;
/// `index` finds the place of a pair from the number that stands for it.
#[derive(Debug)]
pub struct GlobalStiffness<S> {
    entries: Vec<StiffnessEntry<S>>,
    index: HashMap<u128, usize>,
}

/// The number that stands for a pair of degrees of freedom in the index: the
/// row in the upper 64 bits, the column in the lower.
spec fn pair_code(key: (usize, usize)) -> u128 {
    (key.0 * 0x1_0000_0000_0000_0000 + key.1) as u128
}

/// Different pairs have different numbers.
proof fn lemma_pair_code_injective(a: (usize, usize), b: (usize, usize))
    requires
        pair_code(a) == pair_code(b),
    ensures
        a == b,
{
}

/// The number that stands for the pair `(row, column)`.
fn code_of(row: usize, column: usize) -> (code: u128)
    ensures
        code == pair_code((row, column)),
{
    (row as u128) * 0x1_0000_0000_0000_0000 + (column as u128)
}

/// The pairs that have contributions once each of `contributions` has been
/// contributed, in the order of their first contribution and after the pairs
/// `earlier` that had some before.
pub open spec fn pairs_after<S>(
    earlier: Seq<(usize, usize)>,
    contributions: Seq<Contribution<S>>,
) -> Seq<(usize, usize)>
    decreases contributions.len(),
{
    if contributions.len() == 0 {
        earlier
    } else {
        let last = contributions.last();
        let before = pairs_after(earlier, contributions.drop_last());
        if before.contains((last.row, last.column)) {
            before
        } else {
            before.push((last.row, last.column))
        }
    }
}

/// The pairs after two runs of contributions are the pairs after the second
/// run, with the pairs after the first run before them.
pub proof fn lemma_pairs_after_concat<S>(
    earlier: Seq<(usize, usize)>,
    first: Seq<Contribution<S>>,
    second: Seq<Contribution<S>>,
)
    ensures
        pairs_after(earlier, first + second) == pairs_after(pairs_after(earlier, first), second),
    decreases second.len(),
{
    if second.len() > 0 {
        assert((first + second).drop_last() =~= first + second.drop_last());
        lemma_pairs_after_concat(earlier, first, second.drop_last());
    }
}

/// `map` after `value` has been contributed to the pair `(row, column)`: it
/// joins the contributions that the pair has, or becomes its first.
pub open spec fn accumulated<S>(
    map: Map<(usize, usize), Seq<S>>,
    row: usize,
    column: usize,
    value: S,
) -> Map<(usize, usize), Seq<S>> {
    if map.contains_key((row, column)) {
        map.insert((row, column), map[(row, column)].push(value))
    } else {
        map.insert((row, column), seq![value])
    }
}

/// `map` after each of `contributions` has been contributed in turn.
pub open spec fn scattered<S>(
    map: Map<(usize, usize), Seq<S>>,
    contributions: Seq<Contribution<S>>,
) -> Map<(usize, usize), Seq<S>>
    decreases contributions.len(),
{
    if contributions.len() == 0 {
        map
    } else {
        let last = contributions.last();
        accumulated(scattered(map, contributions.drop_last()), last.row, last.column, last.value)
    }
}

/// The values among `contributions` that go to the pair `(row, column)`, in
/// their order.
pub open spec fn values_at<S>(
    contributions: Seq<Contribution<S>>,
    row: usize,
    column: usize,
) -> Seq<S>
    decreases contributions.len(),
{
    if contributions.len() == 0 {
        Seq::empty()
    } else {
        let last = contributions.last();
        let before = values_at(contributions.drop_last(), row, column);
        if last.row == row && last.column == column {
            before.push(last.value)
        } else {
            before
        }
    }
}

/// The global stiffness that `contributions` make up: every pair that
/// receives a contribution, with the values it receives.
pub open spec fn gathered<S>(contributions: Seq<Contribution<S>>) -> Map<(usize, usize), Seq<S>> {
    Map::new(
        |key: (usize, usize)| values_at(contributions, key.0, key.1).len() > 0,
        |key: (usize, usize)| values_at(contributions, key.0, key.1),
    )
}

/// The values that go to a pair from two runs of contributions, one after the
/// other, are those from the first followed by those from the second.
pub proof fn lemma_values_at_concat<S>(
    first: Seq<Contribution<S>>,
    second: Seq<Contribution<S>>,
    row: usize,
    column: usize,
)
    ensures
        values_at(first + second, row, column)
            == values_at(first, row, column) + values_at(second, row, column),
    decreases second.len(),
{
    if second.len() > 0 {
        assert((first + second).drop_last() =~= first + second.drop_last());
        lemma_values_at_concat(first, second.drop_last(), row, column);
    }
}

/// Contributing one after the other to what earlier contributions made up
/// gives what all of them make up.
pub proof fn lemma_scattered_gathers<S>(
    earlier: Seq<Contribution<S>>,
    later: Seq<Contribution<S>>,
)
    ensures
        scattered(gathered(earlier), later) == gathered(earlier + later),
    decreases later.len(),
{
    if later.len() > 0 {
        let last = later.last();
        let all = earlier + later;
        assert(all.drop_last() =~= earlier + later.drop_last());
        lemma_scattered_gathers(earlier, later.drop_last());
        let before = gathered(all.drop_last());
        let after = accumulated(before, last.row, last.column, last.value);
        let wanted = gathered(all);
        assert forall|key: (usize, usize)|
            after.contains_key(key) == wanted.contains_key(key) && (#[trigger] after.contains_key(
                key,
            ) ==> after[key] == wanted[key]) by {
            // What `key` receives from all but the last, and from all.
            let old_values = values_at(all.drop_last(), key.0, key.1);
            let new_values = values_at(all, key.0, key.1);
        }
    }
}

impl<S> GlobalStiffness<S> {
    /// The pairs of degrees of freedom that have contributions, in the order
    /// of their first contribution.
    pub closed spec fn keys(&self) -> Seq<(usize, usize)> {
        self.entries@.map_values(|e: StiffnessEntry<S>| (e.row, e.column))
    }

    /// The contributions of each pair, at the place of the pair in `keys`.
    pub closed spec fn values(&self) -> Seq<Seq<S>> {
        self.entries@.map_values(|e: StiffnessEntry<S>| e.contributions@)
    }

    /// The index knows the place of every pair, and of nothing else.
    pub closed spec fn indexed(&self) -> bool {
        &&& forall|i: int|
            0 <= i < self.entries.len() ==> self.index@.contains_key(
                #[trigger] pair_code(self.keys()[i]),
            ) && self.index@[pair_code(self.keys()[i])] == i
        &&& forall|code: u128| #[trigger]
            self.index@.contains_key(code) ==> self.index@[code] < self.entries.len() && pair_code(
                self.keys()[self.index@[code] as int],
            ) == code
    }

    /// No pair occurs twice, every pair has a contribution, and the index is
    /// in step with the pairs.
    pub open spec fn wf(&self) -> bool {
        &&& self.keys().len() == self.values().len()
        &&& self.keys().no_duplicates()
        &&& forall|i: int| 0 <= i < self.values().len() ==> (#[trigger] self.values()[i]).len() > 0
        &&& self.indexed()
    }

    /// The place of a pair among the keys.
    pub open spec fn place(&self, key: (usize, usize)) -> int
        recommends
            self.keys().contains(key),
    {
        choose|i: int| 0 <= i < self.keys().len() && self.keys()[i] == key
    }

    /// The global stiffness as a map from a pair of degrees of freedom to the
    /// contributions that the pair has received.
    pub open spec fn view(&self) -> Map<(usize, usize), Seq<S>> {
        Map::new(
            |key: (usize, usize)| self.keys().contains(key),
            |key: (usize, usize)| self.values()[self.place(key)],
        )
    }

    /// A global stiffness without contributions.
    pub fn new() -> (g: Self)
        ensures
            g.wf(),
            g@ == Map::<(usize, usize), Seq<S>>::empty(),
            g.keys() == Seq::<(usize, usize)>::empty(),
    {
        let g = GlobalStiffness { entries: Vec::new(), index: HashMap::new() };
        g
    }

    /// The number of pairs that have contributions.
    pub fn len(&self) -> (n: usize)
        requires
            self.wf(),
        ensures
            n == self.keys().len(),
            n == self@.dom().len(),
            self@.dom().finite(),
    {
        proof {
            self.lemma_domain();
        }
        self.entries.len()
    }

    /// The pairs with contributions are the keys, each once.
    pub proof fn lemma_domain(&self)
        requires
            self.wf(),
        ensures
            self@.dom() == self.keys().to_set(),
            self@.dom().finite(),
            self@.dom().len() == self.keys().len(),
    {
        self.keys().unique_seq_to_set();
    }

    /// The place of the pair `(row, column)`, if it has contributions.
    pub fn position(&self, row: usize, column: usize) -> (r: Option<usize>)
        requires
            self.wf(),
        ensures
            match r {
                Some(i) => i < self.keys().len() && self.keys()[i as int] == (row, column)
                    && self.place((row, column)) == i,
                None => !self@.contains_key((row, column)),
            },
    {
        let code = code_of(row, column);
        match self.index.get(&code) {
            Some(i) => {
                proof {
                    lemma_pair_code_injective(self.keys()[*i as int], (row, column));
                }
                Some(*i)
            },
            None => None,
        }
    }

    /// The contributions to the pair `(row, column)`, if it has any.
    pub fn get(&self, row: usize, column: usize) -> (r: Option<&Vec<S>>)
        requires
            self.wf(),
        ensures
            match r {
                Some(values) => self@.contains_key((row, column)) && values@ == self@[(
                    row,
                    column,
                )],
                None => !self@.contains_key((row, column)),
            },
    {
        match self.position(row, column) {
            Some(i) => Some(&self.entries[i].contributions),
            None => None,
        }
    }

    /// The pair at place `i` with its contributions.
    pub fn entry_at(&self, i: usize) -> (entry: &StiffnessEntry<S>)
        requires
            self.wf(),
            i < self.keys().len(),
        ensures
            (entry.row, entry.column) == self.keys()[i as int],
            entry.contributions@ == self.values()[i as int],
            self@.contains_key((entry.row, entry.column)),
            entry.contributions@ == self@[(entry.row, entry.column)],
    {
        &self.entries[i]
    }
}

/// Contributes `value` to the pair `(row, column)` of `assembled`: it joins
/// the contributions that the pair has, or becomes the first contribution of
/// a pair that goes to the end.
pub fn merge_stiffness_matrix_at_dof<S>(
    assembled: GlobalStiffness<S>,
    row: usize,
    column: usize,
    value: S,
) -> (r: GlobalStiffness<S>)
    requires
        assembled.wf(),
    ensures
        r.wf(),
        r@ == accumulated(assembled@, row, column, value),
        r.keys() == if assembled@.contains_key((row, column)) {
            assembled.keys()
        } else {
            assembled.keys().push((row, column))
        },
{
    let mut assembled = assembled;
    let ghost before = assembled;
    let ghost wanted = accumulated(before@, row, column, value);
    match assembled.position(row, column) {
        Some(i) => {
            assembled.entries[i].contributions.push(value);
            proof {
                let longer = before.values()[i as int].push(value);
                assert(assembled.keys() =~= before.keys());
                assert(assembled.values() =~= before.values().update(i as int, longer));
                assert forall|key: (usize, usize)|
                    assembled@.contains_key(key) implies #[trigger] assembled@[key]
                    == wanted[key] by {
                    // The place of `key` has not moved.
                    let p = assembled.place(key);
                }
            }
        },
        None => {
            let place = assembled.entries.len();
            let code = code_of(row, column);
            let mut contributions = Vec::new();
            contributions.push(value);
            assembled.entries.push(StiffnessEntry { row, column, contributions });
            assembled.index.insert(code, place);
            proof {
                assert(assembled.keys() =~= before.keys().push((row, column)));
                assert(assembled.values() =~= before.values().push(seq![value]));
                // The index still knows every earlier pair, and now the new one.
                let index = assembled.index@;
                assert forall|i: int| 0 <= i < assembled.entries.len() implies index.contains_key(
                    #[trigger] pair_code(assembled.keys()[i]),
                ) && index[pair_code(assembled.keys()[i])] == i by {
                    if i < place && pair_code(before.keys()[i]) == code {
                        lemma_pair_code_injective(before.keys()[i], (row, column));
                    }
                }
                assert forall|key: (usize, usize)|
                    assembled@.contains_key(key) implies #[trigger] assembled@[key]
                    == wanted[key] by {
                    // An earlier pair is where it was; the new one is last.
                    let p = assembled.place(key);
                }
                assert forall|key: (usize, usize)|
                    wanted.contains_key(key) implies assembled@.contains_key(key) by {
                    let p = if key == (row, column) {
                        place as int
                    } else {
                        before.place(key)
                    };
                    assert(assembled.keys()[p] == key);
                }
            }
        },
    }
    assembled
}

} // verus!
