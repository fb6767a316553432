//! Gathering the outcomes of many credentials, and putting them back into
//! the order in which the credentials were given.

use vstd::prelude::*;
use vstd::seq_lib::{to_multiset_build, to_multiset_insert};
use crate::utils::enums::ApiError;
use crate::utils::structs::TokenResult;

verus! {

/// The outcome of the check of one credential, with the place that the
/// credential had in the input.
#[derive(Debug, PartialEq, Eq)]
pub struct CheckTaskOutput {
    /// The place of the credential in the input, counted from zero.
    pub index: usize,
    /// The credential.
    pub token: String,
    /// How its check ended.
    pub result: Result<TokenResult, ApiError>,
}

/// What became of the tasks of a run: the outcomes of those that finished,
/// and, of those that broke off, the place in the input and the reason.
#[derive(Debug, PartialEq, Eq)]
pub struct Collected {
    pub results: Vec<CheckTaskOutput>,
    pub join_errors: Vec<(usize, String)>,
}

/// Whether the places of `outputs` never go down from one to the next.
pub open spec fn is_ordered(outputs: Seq<CheckTaskOutput>) -> bool {
    forall|i: int, j: int| 0 <= i < j < outputs.len() ==> outputs[i].index <= outputs[j].index
}

/// `ordered` with `item` put in behind the last outcome whose place is not
/// greater than its own.
pub open spec fn placed(ordered: Seq<CheckTaskOutput>, item: CheckTaskOutput) -> Seq<
    CheckTaskOutput,
>
    decreases ordered.len(),
{
    if ordered.len() > 0 && ordered.last().index > item.index {
        placed(ordered.drop_last(), item).push(ordered.last())
    } else {
        ordered.push(item)
    }
}

/// The outcomes in the order of their places. Outcomes of one place stay in
/// the order in which they came.
pub open spec fn in_input_order(outputs: Seq<CheckTaskOutput>) -> Seq<CheckTaskOutput>
    decreases outputs.len(),
{
    if outputs.len() == 0 {
        Seq::empty()
    } else {
        placed(in_input_order(outputs.drop_last()), outputs.last())
    }
}

/// The outcomes of the tasks that finished, in the order of the tasks.
pub open spec fn finished(tasks: Seq<Result<CheckTaskOutput, String>>) -> Seq<CheckTaskOutput>
    decreases tasks.len(),
{
    if tasks.len() == 0 {
        Seq::empty()
    } else {
        match tasks.last() {
            Ok(output) => finished(tasks.drop_last()).push(output),
            Err(_) => finished(tasks.drop_last()),
        }
    }
}

/// The tasks that broke off, in the order of the tasks: for each its number
/// among the tasks, counted from zero, and the reason.
pub open spec fn broken(tasks: Seq<Result<CheckTaskOutput, String>>) -> Seq<(usize, String)>
    decreases tasks.len(),
{
    if tasks.len() == 0 {
        Seq::empty()
    } else {
        match tasks.last() {
            Ok(_) => broken(tasks.drop_last()),
            Err(why) => broken(tasks.drop_last()).push(((tasks.len() - 1) as usize, why)),
        }
    }
}

/// Putting an item in at the place that a scan from the end finds is
/// `placed`.
proof fn lemma_placed_is_insert(ordered: Seq<CheckTaskOutput>, item: CheckTaskOutput, at: int)
    requires
        0 <= at <= ordered.len(),
        forall|j: int| at <= j < ordered.len() ==> ordered[j].index > item.index,
        at == 0 || ordered[at - 1].index <= item.index,
    ensures
        placed(ordered, item) == ordered.insert(at, item),
    decreases ordered.len() - at,
{
    if at == ordered.len() {
    } else {
        lemma_placed_is_insert(ordered.drop_last(), item, at);
        assert(ordered.drop_last().insert(at, item).push(ordered.last()) =~= ordered.insert(
            at,
            item,
        ));
    }
}

/// Putting an item into ordered outcomes keeps them ordered, adds the item
/// and nothing else, and takes nothing away.
pub proof fn lemma_placed(ordered: Seq<CheckTaskOutput>, item: CheckTaskOutput)
    requires
        is_ordered(ordered),
    ensures
        is_ordered(placed(ordered, item)),
        placed(ordered, item).len() == ordered.len() + 1,
        placed(ordered, item).to_multiset() == ordered.to_multiset().insert(item),
    decreases ordered.len(),
{
    if ordered.len() > 0 && ordered.last().index > item.index {
        let front = ordered.drop_last();
        let inner = placed(front, item);
        lemma_placed(front, item);
        to_multiset_build(inner, ordered.last());
        to_multiset_build(front, ordered.last());
        assert(front.push(ordered.last()) =~= ordered);
        // every outcome of `inner` is the item or one of `front`, so none has a
        // greater place than the last of `ordered`
        assert forall|i: int| 0 <= i < inner.len() implies inner[i].index
            <= ordered.last().index by {
            inner.to_multiset_ensures();
            front.to_multiset_ensures();
            if inner[i] != item {
                assert(front.to_multiset().insert(item).count(inner[i])
                    == front.to_multiset().count(inner[i]));
                let k = choose|k: int| 0 <= k < front.len() && front[k] == inner[i];
            }
        }
    } else {
        to_multiset_build(ordered, item);
    }
}

/// The outcomes in the order of their places are ordered, and are the
/// outcomes that were given: each as often as it was given.
pub proof fn lemma_in_input_order(outputs: Seq<CheckTaskOutput>)
    ensures
        is_ordered(in_input_order(outputs)),
        in_input_order(outputs).len() == outputs.len(),
        in_input_order(outputs).to_multiset() == outputs.to_multiset(),
    decreases outputs.len(),
{
    if outputs.len() == 0 {
        assert(outputs =~= Seq::empty());
    } else {
        lemma_in_input_order(outputs.drop_last());
        lemma_placed(in_input_order(outputs.drop_last()), outputs.last());
        to_multiset_build(outputs.drop_last(), outputs.last());
        assert(outputs.drop_last().push(outputs.last()) =~= outputs);
    }
}

/// Whether `outputs` holds one outcome for each place of an input of as
/// many credentials, in whatever order: no place is beyond the input, and
/// no two outcomes have one place.
pub open spec fn covers_input(outputs: Seq<CheckTaskOutput>) -> bool {
    &&& forall|i: int| 0 <= i < outputs.len() ==> (#[trigger] outputs[i]).index < outputs.len()
    &&& forall|i: int, j: int|
        0 <= i < j < outputs.len() ==> (#[trigger] outputs[i]).index != (
        #[trigger] outputs[j]).index
}

/// In whatever order the checks of the credentials of an input end, the
/// outcomes come out in the order of the input: the outcome at each place
/// is the one of the credential that was given at that place.
pub proof fn lemma_input_order_restored(outputs: Seq<CheckTaskOutput>)
    requires
        covers_input(outputs),
    ensures
        in_input_order(outputs).len() == outputs.len(),
        in_input_order(outputs).to_multiset() == outputs.to_multiset(),
        forall|i: int|
            0 <= i < outputs.len() ==> (#[trigger] in_input_order(outputs)[i]).index == i,
{
    let ordered = in_input_order(outputs);
    let n = outputs.len() as int;
    lemma_in_input_order(outputs);
    ordered.to_multiset_ensures();
    outputs.to_multiset_ensures();
    outputs.lemma_multiset_has_no_duplicates();
    ordered.lemma_multiset_has_no_duplicates_conv();
    // each outcome of `ordered` is one of `outputs`
    assert forall|i: int| 0 <= i < n implies (#[trigger] ordered[i]).index < n by {
        assert(outputs.to_multiset().count(ordered[i]) > 0);
    }
    // no two outcomes of `ordered` have one place
    assert forall|i: int, j: int| 0 <= i < j < n implies ordered[i].index < ordered[j].index by {
        assert(outputs.to_multiset().count(ordered[i]) > 0);
        assert(outputs.to_multiset().count(ordered[j]) > 0);
        let a = choose|a: int| 0 <= a < n && outputs[a] == ordered[i];
        let b = choose|b: int| 0 <= b < n && outputs[b] == ordered[j];
    }
    lemma_rising_places(ordered, n);
}

/// Places that rise strictly and stay below their number are the numbers
/// from zero on.
proof fn lemma_rising_places(ordered: Seq<CheckTaskOutput>, n: int)
    requires
        n == ordered.len(),
        forall|i: int| 0 <= i < n ==> (#[trigger] ordered[i]).index < n,
        forall|i: int, j: int| 0 <= i < j < n ==> ordered[i].index < ordered[j].index,
    ensures
        forall|i: int| 0 <= i < n ==> (#[trigger] ordered[i]).index == i,
{
    assert forall|i: int| 0 <= i < n implies (#[trigger] ordered[i]).index == i by {
        lemma_place_at_least(ordered, i);
        lemma_place_at_most(ordered, n, i);
    }
}

/// A place is at least the number of places that come before it.
proof fn lemma_place_at_least(ordered: Seq<CheckTaskOutput>, i: int)
    requires
        0 <= i < ordered.len(),
        forall|a: int, b: int| 0 <= a < b < ordered.len() ==> ordered[a].index < ordered[b].index,
    ensures
        ordered[i].index >= i,
    decreases i,
{
    if i > 0 {
        lemma_place_at_least(ordered, i - 1);
    }
}

/// A place leaves room for the places that come behind it.
proof fn lemma_place_at_most(ordered: Seq<CheckTaskOutput>, n: int, i: int)
    requires
        n == ordered.len(),
        0 <= i < n,
        forall|a: int| 0 <= a < n ==> (#[trigger] ordered[a]).index < n,
        forall|a: int, b: int| 0 <= a < b < n ==> ordered[a].index < ordered[b].index,
    ensures
        ordered[i].index <= i,
    decreases n - i,
{
    if i < n - 1 {
        lemma_place_at_most(ordered, n, i + 1);
    }
}

/// Puts outcomes into the order of their places in the input. Outcomes of
/// one place stay in the order in which they came.
pub fn sort_by_index(outputs: Vec<CheckTaskOutput>) -> (ordered: Vec<CheckTaskOutput>)
    ensures
        ordered@ == in_input_order(outputs@),
        is_ordered(ordered@),
        ordered@.to_multiset() == outputs@.to_multiset(),
{
    let mut rest = outputs;
    let mut ordered: Vec<CheckTaskOutput> = Vec::new();
    let ghost mut done: int = 0;
    while rest.len() > 0
        invariant
            0 <= done <= outputs@.len(),
            rest@ == outputs@.skip(done),
            ordered@ == in_input_order(outputs@.take(done)),
        decreases rest@.len(),
    {
        let item = rest.remove(0);
        let mut at: usize = ordered.len();
        while at > 0 && ordered[at - 1].index > item.index
            invariant
                at <= ordered@.len(),
                forall|j: int| at <= j < ordered@.len() ==> ordered@[j].index > item.index,
            decreases at,
        {
            at = at - 1;
        }
        proof {
            lemma_placed_is_insert(ordered@, item, at as int);
            assert(outputs@.take(done + 1).drop_last() =~= outputs@.take(done));
            done = done + 1;
        }
        ordered.insert(at, item);
    }
    proof {
        lemma_in_input_order(outputs@);
    }
    ordered
}

/// Sorts what became of the tasks of a run: the outcomes of the tasks that
/// finished, in the order of the input, and the tasks that broke off, in
/// the order of the tasks.
pub fn collect(tasks: Vec<Result<CheckTaskOutput, String>>) -> (collected: Collected)
    ensures
        collected.results@ == in_input_order(finished(tasks@)),
        collected.join_errors@ == broken(tasks@),
{
    let mut rest = tasks;
    let mut results: Vec<CheckTaskOutput> = Vec::new();
    let mut join_errors: Vec<(usize, String)> = Vec::new();
    let mut number: usize = 0;
    let total: usize = rest.len();
    while rest.len() > 0
        invariant
            total == tasks@.len(),
            number + rest@.len() == total,
            rest@ == tasks@.skip(number as int),
            results@ == finished(tasks@.take(number as int)),
            join_errors@ == broken(tasks@.take(number as int)),
        decreases rest@.len(),
    {
        let task = rest.remove(0);
        proof {
            assert(tasks@.take(number + 1).drop_last() =~= tasks@.take(number as int));
        }
        match task {
            Ok(output) => results.push(output),
            Err(why) => join_errors.push((number, why)),
        }
        number = number + 1;
    }
    assert(tasks@.take(number as int) =~= tasks@);
    Collected { results: sort_by_index(results), join_errors }
}

} // verus!
