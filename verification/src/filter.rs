//! The filter over a list of choices: which of them match what was typed.
//!
//! A filter never looks at a choice itself, only at its label, and answers
//! with positions in the full list, so that what it keeps can be traced
//! back to where it came from.

use vstd::prelude::*;

verus! {

/// How a query is held against a label.
#[derive(Debug, Clone, Copy, PartialEq, Eq)]
pub enum FilterPolicy {
    /// The label starts with the query.
    Prefix,
    /// The query occurs somewhere in the label.
    Contains,
}

/// The query stands in the label at position `at`.
pub open spec fn occurs_at(query: Seq<char>, label: Seq<char>, at: int) -> bool {
    &&& 0 <= at
    &&& at + query.len() <= label.len()
    &&& label.subrange(at, at + query.len()) == query
}

/// The label starts with the query.
pub open spec fn has_prefix(query: Seq<char>, label: Seq<char>) -> bool {
    occurs_at(query, label, 0)
}

/// The query occurs somewhere in the label.
pub open spec fn has_infix(query: Seq<char>, label: Seq<char>) -> bool {
    exists|at: int| occurs_at(query, label, at)
}

/// The label matches the query under the policy.
pub open spec fn matches(policy: FilterPolicy, query: Seq<char>, label: Seq<char>) -> bool {
    match policy {
        FilterPolicy::Prefix => has_prefix(query, label),
        FilterPolicy::Contains => has_infix(query, label),
    }
}

/// The labels of a list of choices, each as a sequence of characters.
pub open spec fn label_views(labels: Seq<Vec<char>>) -> Seq<Seq<char>> {
    labels.map_values(|l: Vec<char>| l@)
}

/// The positions, among the first `upto` labels, of those that match the
/// query, in rising order.
pub open spec fn filtered_upto(
    policy: FilterPolicy,
    query: Seq<char>,
    labels: Seq<Seq<char>>,
    upto: int,
) -> Seq<int>
    decreases upto,
{
    if upto <= 0 {
        Seq::empty()
    } else {
        let before = filtered_upto(policy, query, labels, upto - 1);
        if matches(policy, query, labels[upto - 1]) {
            before.push(upto - 1)
        } else {
            before
        }
    }
}

/// The positions of the labels that match the query, in rising order.
pub open spec fn filtered(policy: FilterPolicy, query: Seq<char>, labels: Seq<Seq<char>>) -> Seq<
    int,
> {
    filtered_upto(policy, query, labels, labels.len() as int)
}

/// The positions as integers.
pub open spec fn positions(view: Seq<usize>) -> Seq<int> {
    view.map_values(|i: usize| i as int)
}

/// Whether the query stands in the label at position `at`.
fn matches_at(query: &Vec<char>, label: &Vec<char>, at: usize) -> (b: bool)
    requires
        at + query.len() <= label.len(),
    ensures
        b == occurs_at(query@, label@, at as int),
{
    let mut k: usize = 0;
    while k < query.len()
        invariant
            k <= query.len(),
            at + query.len() <= label.len(),
            forall|j: int| 0 <= j < k ==> label@[at + j] == query@[j],
        decreases query.len() - k,
    {
        if label[at + k] != query[k] {
            proof {
                let part = label@.subrange(at as int, at + query.len());
                assert(part[k as int] == label@[at + k]);
            }
            return false;
        }
        k = k + 1;
    }
    assert(label@.subrange(at as int, at + query.len()) =~= query@);
    true
}

/// Whether the label starts with the input.
pub fn starts_with(input: &Vec<char>, label: &Vec<char>) -> (b: bool)
    ensures
        b == has_prefix(input@, label@),
{
    if input.len() > label.len() {
        false
    } else {
        matches_at(input, label, 0)
    }
}

/// Whether the input occurs somewhere in the label.
pub fn contains_filter(input: &Vec<char>, label: &Vec<char>) -> (b: bool)
    ensures
        b == has_infix(input@, label@),
{
    if input.len() > label.len() {
        return false;
    }
    let last: usize = label.len() - input.len();
    let mut at: usize = 0;
    loop
        invariant
            at <= last,
            last == label.len() - input.len(),
            forall|j: int| 0 <= j < at ==> !occurs_at(input@, label@, j),
        decreases last - at,
    {
        if matches_at(input, label, at) {
            return true;
        }
        if at == last {
            return false;
        }
        at = at + 1;
    }
}

/// Whether the label matches the query under the policy.
pub fn is_match(policy: FilterPolicy, query: &Vec<char>, label: &Vec<char>) -> (b: bool)
    ensures
        b == matches(policy, query@, label@),
{
    match policy {
        FilterPolicy::Prefix => starts_with(query, label),
        FilterPolicy::Contains => contains_filter(query, label),
    }
}

/// The positions of the labels that match the query under the policy, in
/// the order of the list.
pub fn filter_positions(policy: FilterPolicy, query: &Vec<char>, labels: &Vec<Vec<char>>) -> (view:
    Vec<usize>)
    ensures
        positions(view@) == filtered(policy, query@, label_views(labels@)),
        view.len() <= labels.len(),
        forall|k: int| 0 <= k < view.len() ==> view[k] < labels.len(),
{
    let mut view: Vec<usize> = Vec::new();
    let mut i: usize = 0;
    while i < labels.len()
        invariant
            i <= labels.len(),
            positions(view@) == filtered_upto(policy, query@, label_views(labels@), i as int),
            view.len() <= i,
            forall|k: int| 0 <= k < view.len() ==> view[k] < i,
        decreases labels.len() - i,
    {
        let ghost before = view@;
        if is_match(policy, query, &labels[i]) {
            view.push(i);
            assert(positions(view@) =~= positions(before).push(i as int));
        }
        i = i + 1;
    }
    view
}

/// Default filter that simply keeps all entries that start with the input
pub fn simple_filter(input: &Vec<char>, labels: &Vec<Vec<char>>) -> (view: Vec<usize>)
    ensures
        positions(view@) == filtered(FilterPolicy::Prefix, input@, label_views(labels@)),
        view.len() <= labels.len(),
        forall|k: int| 0 <= k < view.len() ==> view[k] < labels.len(),
{
    filter_positions(FilterPolicy::Prefix, input, labels)
}

/// What a filter keeps is part of the list, in the order of the list and
/// without repetition: the positions rise strictly, each lies in the list,
/// and each is that of a label that matches.
pub proof fn lemma_filtered_is_ordered_part(
    policy: FilterPolicy,
    query: Seq<char>,
    labels: Seq<Seq<char>>,
    upto: int,
)
    requires
        0 <= upto <= labels.len(),
    ensures
        filtered_upto(policy, query, labels, upto).len() <= upto,
        forall|k: int|
            0 <= k < filtered_upto(policy, query, labels, upto).len() ==> {
                let at = #[trigger] filtered_upto(policy, query, labels, upto)[k];
                0 <= at < upto && matches(policy, query, labels[at])
            },
        forall|j: int, k: int|
            0 <= j < k < filtered_upto(policy, query, labels, upto).len() ==> filtered_upto(
                policy,
                query,
                labels,
                upto,
            )[j] < filtered_upto(policy, query, labels, upto)[k],
    decreases upto,
{
    if upto > 0 {
        lemma_filtered_is_ordered_part(policy, query, labels, upto - 1);
    }
}

/// A filter leaves out no label that matches.
pub proof fn lemma_filtered_is_complete(
    policy: FilterPolicy,
    query: Seq<char>,
    labels: Seq<Seq<char>>,
    upto: int,
    at: int,
)
    requires
        0 <= at < upto <= labels.len(),
        matches(policy, query, labels[at]),
    ensures
        filtered_upto(policy, query, labels, upto).contains(at),
    decreases upto,
{
    let all = filtered_upto(policy, query, labels, upto);
    if at == upto - 1 {
        assert(all[all.len() - 1] == at);
    } else {
        lemma_filtered_is_complete(policy, query, labels, upto - 1, at);
        let before = filtered_upto(policy, query, labels, upto - 1);
        let k = choose|k: int| 0 <= k < before.len() && before[k] == at;
        assert(all[k] == at);
    }
}

/// The empty query matches every label, whatever the policy.
pub proof fn lemma_empty_query_matches(policy: FilterPolicy, label: Seq<char>)
    ensures
        matches(policy, Seq::empty(), label),
{
    assert(label.subrange(0, 0) =~= Seq::<char>::empty());
    assert(occurs_at(Seq::empty(), label, 0));
}

/// With the empty query a filter keeps the whole list: every position from
/// the first to the last, in order.
pub proof fn lemma_empty_query_keeps_all(policy: FilterPolicy, labels: Seq<Seq<char>>, upto: int)
    requires
        0 <= upto <= labels.len(),
    ensures
        filtered_upto(policy, Seq::empty(), labels, upto) == Seq::new(upto as nat, |i: int| i),
    decreases upto,
{
    if upto > 0 {
        lemma_empty_query_keeps_all(policy, labels, upto - 1);
        lemma_empty_query_matches(policy, labels[upto - 1]);
        assert(filtered_upto(policy, Seq::empty(), labels, upto) =~= Seq::new(
            upto as nat,
            |i: int| i,
        ));
    } else {
        assert(filtered_upto(policy, Seq::empty(), labels, upto) =~= Seq::new(
            upto as nat,
            |i: int| i,
        ));
    }
}

} // verus!
