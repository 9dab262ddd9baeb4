//! Facet filter expressions: clauses within a group are ORed together, and
//! groups are ANDed together.

use vstd::prelude::*;
use crate::clause_spec;

verus! {

/// Builds one `"key:value"` clause string.
fn clause(key: &str, value: &str) -> (r: String)
    ensures
        r@ == clause_spec(key@, value@),
{
    let mut s = key.to_owned();
    s.append(":");
    s.append(value);
    proof {
        reveal_strlit(":");
        assert(s@ =~= clause_spec(key@, value@));
    }
    s
}

/// Accumulates facet clauses into OR-groups; the groups are ANDed together.
pub struct FacetBuilder {
    /// The group still open for further `or` clauses.
    current: Vec<String>,
    /// The groups already closed by `and`.
    accumulator: Vec<Vec<String>>,
}

/// A finished facet filter: an ordered sequence of OR-groups.
pub struct Facets {
    accumulator: Vec<Vec<String>>,
}

impl View for FacetBuilder {
    type V = (Seq<Seq<char>>, Seq<Seq<Seq<char>>>);

    closed spec fn view(&self) -> Self::V {
        (
            self.current.deep_view(),
            self.accumulator.deep_view(),
        )
    }
}

impl View for Facets {
    type V = Seq<Seq<Seq<char>>>;

    closed spec fn view(&self) -> Self::V {
        self.accumulator.deep_view()
    }
}

impl FacetBuilder {
    /// Begins a builder with one open group holding the clause `key:value`.
    pub fn new(key: &str, value: &str) -> (r: FacetBuilder)
        ensures
            r@.0 == seq![clause_spec(key@, value@)],
            r@.1 == Seq::<Seq<Seq<char>>>::empty(),
            r@ == start_state(key@, value@),
    {
        let r = FacetBuilder { current: vec![clause(key, value)], accumulator: vec![] };
        proof {
            assert(r@.0 =~= seq![clause_spec(key@, value@)]);
            assert(r@.1 =~= Seq::<Seq<Seq<char>>>::empty());
        }
        r
    }

    /// Appends the clause `key:value` to the currently open group.
    pub fn or(self, key: &str, value: &str) -> (r: FacetBuilder)
        ensures
            r@.0 == self@.0.push(clause_spec(key@, value@)),
            r@.1 == self@.1,
            r@ == apply_call(self@, FacetCall::Or { key: key@, value: value@ }),
    {
        let ghost pre = self@;
        let mut b = self;
        b.current.push(clause(key, value));
        proof {
            assert(b@.0 =~= pre.0.push(clause_spec(key@, value@)));
        }
        b
    }

    /// Closes the open group and opens a new one seeded with `key:value`.
    pub fn and(self, key: &str, value: &str) -> (r: FacetBuilder)
        ensures
            r@.0 == seq![clause_spec(key@, value@)],
            r@.1 == self@.1.push(self@.0),
            r@ == apply_call(self@, FacetCall::And { key: key@, value: value@ }),
    {
        let ghost pre = self@;
        let FacetBuilder { current, mut accumulator } = self;
        accumulator.push(current);
        let b = FacetBuilder { current: vec![clause(key, value)], accumulator };
        proof {
            assert(b@.0 =~= seq![clause_spec(key@, value@)]);
            assert(b@.1 =~= pre.1.push(pre.0));
        }
        b
    }

    /// Closes the open group and returns the finished filter; the result
    /// always holds at least one group, and no group is empty.
    pub fn build(self) -> (r: Facets)
        ensures
            r@ == self@.1.push(self@.0),
            r@ == finish(self@),
    {
        let ghost pre = self@;
        let FacetBuilder { current, mut accumulator } = self;
        accumulator.push(current);
        let r = Facets { accumulator };
        proof {
            assert(r@ =~= pre.1.push(pre.0));
        }
        r
    }
}

impl Facets {
    /// Hands out the finished groups.
    pub fn get(self) -> (r: Vec<Vec<String>>)
        ensures
            r.deep_view() == self@,
    {
        self.accumulator
    }
}

/// One builder call after `new`: widen the open group, or close it and open
/// a new one.
pub enum FacetCall {
    Or { key: Seq<char>, value: Seq<char> },
    And { key: Seq<char>, value: Seq<char> },
}

/// The state `new(key, value)` leaves the builder in.
pub open spec fn start_state(key: Seq<char>, value: Seq<char>) -> (
    Seq<Seq<char>>,
    Seq<Seq<Seq<char>>>,
) {
    (seq![clause_spec(key, value)], Seq::empty())
}

/// What one call does to the builder state, exactly as the contracts of
/// `or` and `and` say.
pub open spec fn apply_call(
    st: (Seq<Seq<char>>, Seq<Seq<Seq<char>>>),
    c: FacetCall,
) -> (Seq<Seq<char>>, Seq<Seq<Seq<char>>>) {
    match c {
        FacetCall::Or { key, value } => (st.0.push(clause_spec(key, value)), st.1),
        FacetCall::And { key, value } => (seq![clause_spec(key, value)], st.1.push(st.0)),
    }
}

/// The state after a sequence of calls.
pub open spec fn apply_calls(
    st: (Seq<Seq<char>>, Seq<Seq<Seq<char>>>),
    calls: Seq<FacetCall>,
) -> (Seq<Seq<char>>, Seq<Seq<Seq<char>>>)
    decreases calls.len(),
{
    if calls.len() == 0 {
        st
    } else {
        apply_call(apply_calls(st, calls.drop_last()), calls.last())
    }
}

/// What `build` yields from a builder state, exactly as its contract says.
pub open spec fn finish(st: (Seq<Seq<char>>, Seq<Seq<Seq<char>>>)) -> Seq<Seq<Seq<char>>> {
    st.1.push(st.0)
}

/// The groups `build` yields after `new(key, value)` and the given calls.
pub open spec fn built_groups(key: Seq<char>, value: Seq<char>, calls: Seq<FacetCall>) -> Seq<
    Seq<Seq<char>>,
> {
    finish(apply_calls(start_state(key, value), calls))
}

/// How many calls close a group.
pub open spec fn count_and(calls: Seq<FacetCall>) -> nat
    decreases calls.len(),
{
    if calls.len() == 0 {
        0
    } else {
        count_and(calls.drop_last()) + (if calls.last() is And {
            1nat
        } else {
            0nat
        })
    }
}

/// The clause count of every group, open group last: one clause at `new`,
/// one more for each `or` while the group is open, a fresh group of one
/// clause at each `and`.
pub open spec fn group_sizes(calls: Seq<FacetCall>) -> Seq<nat>
    decreases calls.len(),
{
    if calls.len() == 0 {
        seq![1nat]
    } else {
        let prev = group_sizes(calls.drop_last());
        match calls.last() {
            FacetCall::Or { .. } => prev.update(prev.len() - 1, (prev.last() + 1) as nat),
            FacetCall::And { .. } => prev.push(1nat),
        }
    }
}

proof fn lemma_state_counts(key: Seq<char>, value: Seq<char>, calls: Seq<FacetCall>)
    ensures
        ({
            let st = apply_calls(start_state(key, value), calls);
            &&& st.1.len() == count_and(calls)
            &&& st.1.map_values(|g: Seq<Seq<char>>| g.len()).push(st.0.len()) == group_sizes(
                calls,
            )
        }),
    decreases calls.len(),
{
    let st = apply_calls(start_state(key, value), calls);
    if calls.len() == 0 {
        assert(st.1.map_values(|g: Seq<Seq<char>>| g.len()).push(st.0.len()) =~= seq![1nat]);
    } else {
        lemma_state_counts(key, value, calls.drop_last());
        let prev = apply_calls(start_state(key, value), calls.drop_last());
        let prev_sizes = group_sizes(calls.drop_last());
        match calls.last() {
            FacetCall::Or { .. } => {
                assert(st.1.map_values(|g: Seq<Seq<char>>| g.len()).push(st.0.len())
                    =~= prev_sizes.update(prev_sizes.len() - 1, (prev_sizes.last() + 1) as nat));
            },
            FacetCall::And { .. } => {
                assert(st.1.map_values(|g: Seq<Seq<char>>| g.len()) =~= prev.1.map_values(
                    |g: Seq<Seq<char>>| g.len(),
                ).push(prev.0.len()));
                assert(st.1.map_values(|g: Seq<Seq<char>>| g.len()).push(st.0.len())
                    =~= prev_sizes.push(1nat));
            },
        }
    }
}

proof fn lemma_sizes_positive(calls: Seq<FacetCall>)
    ensures
        group_sizes(calls).len() >= 1,
        forall|i: int| 0 <= i < group_sizes(calls).len() ==> #[trigger] group_sizes(calls)[i] >= 1,
    decreases calls.len(),
{
    if calls.len() > 0 {
        lemma_sizes_positive(calls.drop_last());
        let prev = group_sizes(calls.drop_last());
        assert forall|i: int| 0 <= i < group_sizes(calls).len() implies #[trigger] group_sizes(
            calls,
        )[i] >= 1 by {
            match calls.last() {
                FacetCall::Or { .. } => {
                    assert(group_sizes(calls) == prev.update(prev.len() - 1, (prev.last() + 1) as nat));
                    if i < prev.len() - 1 {
                        assert(group_sizes(calls)[i] == prev[i]);
                    }
                },
                FacetCall::And { .. } => {
                    assert(group_sizes(calls) == prev.push(1nat));
                    if i < prev.len() {
                        assert(group_sizes(calls)[i] == prev[i]);
                    }
                },
            }
        }
    }
}

/// Law: after `new` and any sequence of `or`/`and` calls, `build` yields one
/// group for each `and` plus one; each group holds one clause for each `or`
/// made while it was open, plus the clause that opened it; and no group is
/// ever empty.
pub proof fn lemma_build_counts(key: Seq<char>, value: Seq<char>, calls: Seq<FacetCall>)
    ensures
        built_groups(key, value, calls).len() == count_and(calls) + 1,
        built_groups(key, value, calls).map_values(|g: Seq<Seq<char>>| g.len()) == group_sizes(
            calls,
        ),
        forall|g: int|
            0 <= g < built_groups(key, value, calls).len() ==> #[trigger] built_groups(
                key,
                value,
                calls,
            )[g].len() >= 1,
{
    lemma_state_counts(key, value, calls);
    lemma_sizes_positive(calls);
    let st = apply_calls(start_state(key, value), calls);
    assert(built_groups(key, value, calls).map_values(|g: Seq<Seq<char>>| g.len())
        =~= st.1.map_values(|g: Seq<Seq<char>>| g.len()).push(st.0.len()));
    assert forall|g: int| 0 <= g < built_groups(key, value, calls).len() implies #[trigger]
        built_groups(key, value, calls)[g].len() >= 1 by {
        assert(built_groups(key, value, calls).map_values(|g: Seq<Seq<char>>| g.len())[g]
            == built_groups(key, value, calls)[g].len());
        assert(group_sizes(calls)[g] >= 1);
    }
}

} // verus!
