use vstd::prelude::*;
use vstd::multiset::Multiset;

use crate::prng::{is_valid_range, law_number_in_range_is_in_range, number_in_range, state_after_number_in_range, Prng};

verus! {

broadcast use {vstd::seq_lib::group_to_multiset_ensures, vstd::multiset::group_multiset_axioms};

/// The order in which simultaneous things happen: higher priority first, then higher speed, then
/// higher order.
#[derive(Debug, Clone, Copy, PartialEq, Eq, PartialOrd, Ord, Hash, Structural)]
pub struct ActivationOrder {
    pub priority: i8,
    pub speed: u16,
    pub order: u16,
}

/// Whether `a` comes before `b` in ascending order (lower priority, then lower speed, then lower
/// order).
pub open spec fn activation_order_lt(a: ActivationOrder, b: ActivationOrder) -> bool {
    ||| a.priority < b.priority
    ||| a.priority == b.priority && a.speed < b.speed
    ||| a.priority == b.priority && a.speed == b.speed && a.order < b.order
}

/// Whether `a` comes before `b` in ascending order, or equals it.
pub open spec fn activation_order_le(a: ActivationOrder, b: ActivationOrder) -> bool {
    activation_order_lt(a, b) || a == b
}

impl ActivationOrder {
    /// Whether `self` comes before `other` in ascending order.
    pub fn is_lower_than(&self, other: &ActivationOrder) -> (b: bool)
        ensures
            b == activation_order_lt(*self, *other),
    {
        self.priority < other.priority || (self.priority == other.priority && (self.speed < other.speed || (
        self.speed == other.speed && self.order < other.order)))
    }
}

/// Things that happen in an order given by an `ActivationOrder`.
pub trait Activatable: Copy {
    spec fn spec_activation_order(&self) -> ActivationOrder;

    fn activation_order(&self) -> (order: ActivationOrder)
        ensures
            order == self.spec_activation_order(),
    ;
}

/// Whether the items of `s` are in descending activation order (ties in any order).
pub open spec fn is_sorted_descending<T: Activatable>(s: Seq<T>) -> bool {
    forall|i: int, j: int|
        0 <= i < j < s.len() ==> activation_order_le(#[trigger] s[j].spec_activation_order(), #[trigger] s[i].spec_activation_order())
}

/// Whether the items of `s` are in ascending activation order.
pub open spec fn is_sorted_ascending<T: Activatable>(s: Seq<T>) -> bool {
    forall|i: int, j: int|
        0 <= i < j < s.len() ==> activation_order_le(#[trigger] s[i].spec_activation_order(), #[trigger] s[j].spec_activation_order())
}

/// Whether every item of `s` in `start..end` has the activation order `key`.
pub open spec fn all_keys_equal_in<T: Activatable>(s: Seq<T>, start: int, end: int, key: ActivationOrder) -> bool {
    forall|m: int| start <= m < end ==> #[trigger] s[m].spec_activation_order() == key
}

/// Whether `indices` lists `offset, offset + 1, ..., offset + indices.len() - 1`.
pub open spec fn is_consecutive_from(indices: Seq<usize>, offset: int) -> bool {
    forall|m: int| 0 <= m < indices.len() ==> #[trigger] indices[m] == offset + m
}

/// Where an insertion sort puts `x` into `sorted`: after the last item that `x` does not come
/// before, so that `x` follows the items of its own activation order.
pub open spec fn insertion_index<T: Activatable>(sorted: Seq<T>, x: T) -> int
    decreases sorted.len(),
{
    if sorted.len() == 0 {
        0
    } else if activation_order_lt(x.spec_activation_order(), sorted.last().spec_activation_order()) {
        insertion_index(sorted.drop_last(), x)
    } else {
        sorted.len() as int
    }
}

/// `sorted` with `x` inserted at its `insertion_index`.
pub open spec fn inserted<T: Activatable>(sorted: Seq<T>, x: T) -> Seq<T> {
    let p = insertion_index(sorted, x);
    sorted.take(p) + seq![x] + sorted.skip(p)
}

/// The items of `s` in ascending activation order, items of equal activation order in the order
/// in which they come in `s` (a stable sort).
pub open spec fn stably_sorted<T: Activatable>(s: Seq<T>) -> Seq<T>
    decreases s.len(),
{
    if s.len() == 0 {
        s
    } else {
        inserted(stably_sorted(s.drop_last()), s.last())
    }
}

/// The items of a run of tied items in the order in which a generator in state `seed` draws them:
/// an n-sided die picks the first item, an (n - 1)-sided die the next among the others, and so
/// on, until one item is left, which comes last. Also the generator's state afterwards.
pub open spec fn shuffled<T>(items: Seq<T>, seed: u64) -> (Seq<T>, u64)
    decreases items.len(),
{
    if items.len() < 2 || items.len() > u16::MAX {
        (items, seed)
    } else {
        let last = (items.len() - 1) as u16;
        let roll = number_in_range(seed, 0, last);
        proof {
            law_number_in_range_is_in_range(seed, 0, last);
        }
        let rest = shuffled(items.remove(roll), state_after_number_in_range(seed, 0, last));
        (seq![items[roll]] + rest.0, rest.1)
    }
}

/// The end of the run of consecutive items of `s`, from `start` on, that share one activation
/// order.
pub open spec fn tie_run_end<T: Activatable>(s: Seq<T>, start: int) -> int
    decreases s.len() - start,
{
    if start + 1 >= s.len() {
        s.len() as int
    } else if s[start + 1].spec_activation_order() == s[start].spec_activation_order() {
        tie_run_end(s, start + 1)
    } else {
        start + 1
    }
}

/// `s` with each run of tied items from `start` on shuffled in turn (see `shuffled`) by a
/// generator in state `seed`; also the generator's state afterwards.
pub open spec fn ties_resolved_from<T: Activatable>(s: Seq<T>, start: int, seed: u64) -> (Seq<T>, u64)
    decreases s.len() - start,
{
    if start < 0 || start >= s.len() {
        (s, seed)
    } else {
        let end = tie_run_end(s, start);
        let run = shuffled(s.subrange(start, end), seed);
        proof {
            lemma_tie_run_end_bounds(s, start);
            lemma_shuffled_len(s.subrange(start, end), seed);
        }
        ties_resolved_from(s.take(start) + run.0 + s.skip(end), end, run.1)
    }
}

/// What `sort_by_activation_order` makes of `s` with a generator in state `seed`: the items in
/// descending activation order, tied items first in the reverse of their order in `s`, then
/// shuffled run by run (see `ties_resolved_from`); also the generator's state afterwards.
pub open spec fn activation_sorted<T: Activatable>(s: Seq<T>, seed: u64) -> (Seq<T>, u64) {
    ties_resolved_from(stably_sorted(s).reverse(), 0, seed)
}

pub proof fn lemma_shuffled_len<T>(items: Seq<T>, seed: u64)
    ensures
        shuffled(items, seed).0.len() == items.len(),
    decreases items.len(),
{
    if !(items.len() < 2 || items.len() > u16::MAX) {
        let last = (items.len() - 1) as u16;
        law_number_in_range_is_in_range(seed, 0, last);
        let roll = number_in_range(seed, 0, last);
        lemma_shuffled_len(items.remove(roll), state_after_number_in_range(seed, 0, last));
    }
}

pub proof fn lemma_tie_run_end_bounds<T: Activatable>(s: Seq<T>, start: int)
    requires
        0 <= start < s.len(),
    ensures
        start < tie_run_end(s, start) <= s.len(),
    decreases s.len() - start,
{
    if start + 1 < s.len() && s[start + 1].spec_activation_order() == s[start].spec_activation_order() {
        lemma_tie_run_end_bounds(s, start + 1);
    }
}

/// A run of items of one activation order that ends where the order changes, or at the end of
/// `s`, is the run that `tie_run_end` finds.
proof fn lemma_tie_run_end_at<T: Activatable>(s: Seq<T>, start: int, end: int)
    requires
        0 <= start < end <= s.len(),
        all_keys_equal_in(s, start, end, s[start].spec_activation_order()),
        end < s.len() ==> s[end].spec_activation_order() != s[end - 1].spec_activation_order(),
    ensures
        tie_run_end(s, start) == end,
    decreases end - start,
{
    if start + 1 < end {
        assert(s[start + 1].spec_activation_order() == s[start].spec_activation_order());
        lemma_tie_run_end_at(s, start + 1, end);
    }
}

/// A run of one item is left as it is, and the generator is not used for it.
proof fn lemma_single_item_run_is_kept<T: Activatable>(s: Seq<T>, start: int, seed: u64)
    requires
        0 <= start < s.len(),
        tie_run_end(s, start) == start + 1,
    ensures
        ties_resolved_from(s, start, seed) == ties_resolved_from(s, start + 1, seed),
{
    let run = s.subrange(start, start + 1);
    assert(shuffled(run, seed) == (run, seed));
    assert(s.take(start) + run + s.skip(start + 1) =~= s);
}

/// Past the last item, nothing is left to shuffle.
proof fn lemma_nothing_left_to_resolve<T: Activatable>(s: Seq<T>, seed: u64)
    ensures
        ties_resolved_from(s, s.len() as int, seed) == (s, seed),
{
}

proof fn lemma_swap_keeps_multiset<T>(s: Seq<T>, i: int, j: int)
    requires
        0 <= i < s.len(),
        0 <= j < s.len(),
    ensures
        s.update(i, s[j]).update(j, s[i]).to_multiset() =~= s.to_multiset(),
{
    let s1 = s.update(i, s[j]);
    assert(s1.to_multiset() == s.to_multiset().insert(s[j]).remove(s[i]));
    assert(s1.update(j, s[i]).to_multiset() == s1.to_multiset().insert(s[i]).remove(s1[j]));
    if i == j {
        assert(s1[j] == s[i]);
    } else {
        assert(s1[j] == s[j]);
    }
}

proof fn lemma_concat_multiset<T>(a: Seq<T>, b: Seq<T>)
    ensures
        (a + b).to_multiset() =~= a.to_multiset().add(b.to_multiset()),
{
    vstd::seq_lib::lemma_multiset_commutative(a, b);
}

proof fn lemma_multiset_move<T>(a: Multiset<T>, b: Multiset<T>, x: T)
    requires
        b.count(x) > 0,
    ensures
        a.insert(x).add(b.remove(x)) =~= a.add(b),
{
}

/// One item of a tie run is placed: `chosen`, taken from `remaining_before` at `roll`, is
/// written at `offset + i`.
proof fn lemma_place_step<T>(
    original: Seq<T>,
    before: Seq<T>,
    after: Seq<T>,
    remaining_before: Seq<T>,
    remaining_after: Seq<T>,
    offset: int,
    end: int,
    i: int,
    roll: int,
)
    requires
        0 <= offset,
        0 <= i,
        offset + i < end <= original.len(),
        before.len() == original.len(),
        0 <= roll < remaining_before.len(),
        remaining_after == remaining_before.remove(roll),
        after == before.update(offset + i, remaining_before[roll]),
        forall|m: int| 0 <= m < original.len() && !(offset <= m < offset + i) ==> #[trigger] before[m] == original[m],
        before.subrange(offset, offset + i).to_multiset().add(remaining_before.to_multiset()) == original.subrange(
            offset,
            end,
        ).to_multiset(),
    ensures
        after.len() == original.len(),
        forall|m: int| 0 <= m < original.len() && !(offset <= m < offset + i + 1) ==> #[trigger] after[m] == original[m],
        after.subrange(offset, offset + i + 1).to_multiset().add(remaining_after.to_multiset()) == original.subrange(
            offset,
            end,
        ).to_multiset(),
{
    let chosen = remaining_before[roll];
    assert(after.subrange(offset, offset + i + 1) =~= before.subrange(offset, offset + i).push(chosen));
    assert(remaining_before.to_multiset().count(chosen) > 0);
    lemma_multiset_move(before.subrange(offset, offset + i).to_multiset(), remaining_before.to_multiset(), chosen);
}

/// The last item of a tie run is placed at `offset + i + 1`, the end of the run.
proof fn lemma_place_last<T>(original: Seq<T>, before: Seq<T>, after: Seq<T>, remaining: Seq<T>, offset: int, end: int, i: int)
    requires
        0 <= offset,
        0 <= i,
        offset + i + 2 == end,
        end <= original.len(),
        before.len() == original.len(),
        remaining.len() == 1,
        after == before.update(offset + i + 1, remaining[0]),
        forall|m: int| 0 <= m < original.len() && !(offset <= m < offset + i + 1) ==> #[trigger] before[m] == original[m],
        before.subrange(offset, offset + i + 1).to_multiset().add(remaining.to_multiset()) == original.subrange(
            offset,
            end,
        ).to_multiset(),
    ensures
        after.len() == original.len(),
        forall|m: int| 0 <= m < original.len() && !(offset <= m < end) ==> #[trigger] after[m] == original[m],
        after.subrange(offset, end).to_multiset() == original.subrange(offset, end).to_multiset(),
{
    let last = remaining[0];
    assert(remaining =~= Seq::<T>::empty().push(last));
    assert(after.subrange(offset, end) =~= before.subrange(offset, offset + i + 1).push(last));
}

/// Sorts `vector` in ascending activation order, keeping items of equal activation order in
/// their relative order.
fn stable_sort_ascending<T: Activatable>(vector: &mut Vec<T>)
    ensures
        final(vector)@.len() == old(vector)@.len(),
        final(vector)@.to_multiset() == old(vector)@.to_multiset(),
        is_sorted_ascending(final(vector)@),
        final(vector)@ == stably_sorted(old(vector)@),
{
    let n = vector.len();
    if n == 0 {
        assert(vector@ =~= stably_sorted(old(vector)@));
        return;
    }
    proof {
        let first = old(vector)@.take(1);
        assert(first.drop_last() =~= Seq::<T>::empty());
        assert(stably_sorted(first.drop_last()) =~= Seq::<T>::empty());
        assert(stably_sorted(first) =~= first);
        assert(vector@.take(1) =~= first);
        assert(vector@.skip(1) =~= old(vector)@.skip(1));
    }
    let mut i: usize = 1;
    while i < n
        invariant
            1 <= i <= n,
            n == vector@.len(),
            n == old(vector)@.len(),
            vector@.to_multiset() == old(vector)@.to_multiset(),
            vector@.take(i as int) == stably_sorted(old(vector)@.take(i as int)),
            vector@.skip(i as int) == old(vector)@.skip(i as int),
            forall|a: int, b: int|
                0 <= a < b < i ==> activation_order_le(
                    #[trigger] vector@[a].spec_activation_order(),
                    #[trigger] vector@[b].spec_activation_order(),
                ),
        decreases n - i,
    {
        let ghost prefix = vector@.take(i as int);
        let ghost x = vector@[i as int];
        let ghost rest = vector@.skip(i as int + 1);
        proof {
            assert(vector@ =~= prefix + seq![x] + rest);
            assert(prefix.take(i as int) =~= prefix);
            assert(prefix.subrange(i as int, i as int) =~= Seq::<T>::empty());
        }
        let mut j: usize = i;
        while j > 0 && vector[j].activation_order().is_lower_than(&vector[j - 1].activation_order())
            invariant
                0 <= j <= i < n,
                n == vector@.len(),
                prefix.len() == i,
                vector@ == prefix.take(j as int) + seq![x] + prefix.subrange(j as int, i as int) + rest,
                insertion_index(prefix, x) == insertion_index(prefix.take(j as int), x),
                vector@.to_multiset() == old(vector)@.to_multiset(),
                forall|a: int, b: int|
                    0 <= a < b <= i && a != j && b != j ==> activation_order_le(
                        #[trigger] vector@[a].spec_activation_order(),
                        #[trigger] vector@[b].spec_activation_order(),
                    ),
                forall|b: int|
                    j < b <= i ==> activation_order_lt(
                        vector@[j as int].spec_activation_order(),
                        #[trigger] vector@[b].spec_activation_order(),
                    ),
                j < i && j > 0 ==> activation_order_le(
                    vector@[j - 1].spec_activation_order(),
                    vector@[j + 1].spec_activation_order(),
                ),
            decreases j,
        {
            let a = vector[j - 1];
            let b = vector[j];
            proof {
                lemma_swap_keeps_multiset(vector@, (j - 1) as int, j as int);
                assert(a == prefix[j - 1]);
                assert(b == x);
                assert(prefix.take(j as int).drop_last() =~= prefix.take(j - 1));
            }
            vector.set(j - 1, b);
            vector.set(j, a);
            j = j - 1;
            proof {
                assert(vector@ =~= prefix.take(j as int) + seq![x] + prefix.subrange(j as int, i as int) + rest);
            }
        }
        proof {
            if j > 0 {
                assert(prefix.take(j as int).last() == prefix[j - 1]);
            }
            assert(insertion_index(prefix, x) == j);
            let sorted = old(vector)@.take(i + 1);
            assert(sorted.drop_last() =~= old(vector)@.take(i as int));
            assert(sorted.last() == old(vector)@[i as int]);
            assert(old(vector)@[i as int] == x) by {
                assert(old(vector)@.skip(i as int)[0] == x);
            }
            assert(prefix.skip(j as int) =~= prefix.subrange(j as int, i as int));
            assert(vector@.take(i + 1) =~= inserted(prefix, x));
            assert(vector@.skip(i + 1) =~= old(vector)@.skip(i + 1)) by {
                assert(rest =~= old(vector)@.skip(i as int).skip(1));
            }
        }
        i = i + 1;
    }
    assert(vector@ =~= vector@.take(n as int));
    assert(old(vector)@ =~= old(vector)@.take(n as int));
}

/// Reverses `vector`.
fn reverse_in_place<T: Copy>(vector: &mut Vec<T>)
    ensures
        final(vector)@ == old(vector)@.reverse(),
{
    let n = vector.len();
    let mut reversed: Vec<T> = Vec::new();
    let mut k: usize = 0;
    while k < n
        invariant
            0 <= k <= n,
            n == vector@.len(),
            vector@ == old(vector)@,
            reversed@.len() == k,
            forall|m: int| 0 <= m < k ==> #[trigger] reversed@[m] == vector@[n - 1 - m],
        decreases n - k,
    {
        reversed.push(vector[n - 1 - k]);
        k = k + 1;
    }
    assert(reversed@ =~= old(vector)@.reverse());
    *vector = reversed;
}

/// Sorts the given items by their activation orders, highest first, resolving ties (items of
/// equal activation order) pseudorandomly with `prng` after a stable sort.
pub fn sort_by_activation_order<T: Activatable>(prng: &mut Prng, vector: &mut Vec<T>)
    requires
        old(vector)@.len() <= u16::MAX,
    ensures
        final(vector)@.len() == old(vector)@.len(),
        final(vector)@.to_multiset() == old(vector)@.to_multiset(),
        is_sorted_descending(final(vector)@),
        (final(vector)@, final(prng).current_seed) == activation_sorted(old(vector)@, old(prng).current_seed),
        final(prng).start_seed == old(prng).start_seed,
{
    let ghost target = activation_sorted(vector@, prng.current_seed);
    // Sort without resolving ties; the sort is stable, so it keeps the relative order of items of
    // equal activation order.
    stable_sort_ascending(vector);
    // The sort is ascending, but the order wanted is descending.
    let ghost ascending = vector@;
    reverse_in_place(vector);
    proof {
        ascending.lemma_reverse_to_multiset();
        assert forall|i: int, j: int| 0 <= i < j < vector@.len() implies activation_order_le(
            #[trigger] vector@[j].spec_activation_order(),
            #[trigger] vector@[i].spec_activation_order(),
        ) by {
            let n = ascending.len() as int;
            assert(vector@[j] == ascending[n - 1 - j]);
            assert(vector@[i] == ascending[n - 1 - i]);
            assert(activation_order_le(ascending[n - 1 - j].spec_activation_order(), ascending[n - 1 - i].spec_activation_order()));
        }
    }
    assert(target == ties_resolved_from(vector@, 0, prng.current_seed));
    let vector_length = vector.len();
    if vector_length < 2 {
        proof {
            if vector_length == 1 {
                lemma_single_item_run_is_kept(vector@, 0, prng.current_seed);
                lemma_nothing_left_to_resolve(vector@, prng.current_seed);
            }
        }
    } else if vector_length == 2 {
        let previous_item = vector[0].activation_order();
        let this_item = vector[1].activation_order();
        if this_item == previous_item {
            let mut tied: Vec<usize> = Vec::new();
            tied.push(0);
            tied.push(1);
            proof {
                assert(all_keys_equal_in(vector@, 0, 2, previous_item));
                lemma_tie_run_end_at(vector@, 0, 2);
            }
            resolve_speed_tie(prng, vector, &mut tied);
            proof {
                lemma_nothing_left_to_resolve(vector@, prng.current_seed);
            }
        } else {
            proof {
                lemma_tie_run_end_at(vector@, 0, 1);
                lemma_single_item_run_is_kept(vector@, 0, prng.current_seed);
                lemma_single_item_run_is_kept(vector@, 1, prng.current_seed);
                lemma_nothing_left_to_resolve(vector@, prng.current_seed);
            }
        }
    } else {
        let mut tied_monster_indices: Vec<usize> = Vec::new();
        tied_monster_indices.push(0);
        let ghost sorted = vector@;
        let ghost mut done: int = 0;
        let mut i: usize = 1;
        // Iterate through the 2nd to last items, comparing each item to the previous one.
        while i < vector_length
            invariant
                1 <= i <= vector_length,
                vector_length == vector@.len(),
                vector_length <= u16::MAX,
                vector@.to_multiset() == old(vector)@.to_multiset(),
                is_sorted_descending(vector@),
                i < vector_length ==> tied_monster_indices@.len() >= 1,
                i < vector_length ==> tied_monster_indices@[0] + tied_monster_indices@.len() == i,
                i < vector_length ==> is_consecutive_from(tied_monster_indices@, tied_monster_indices@[0] as int),
                i < vector_length ==> all_keys_equal_in(
                    vector@,
                    tied_monster_indices@[0] as int,
                    i as int,
                    vector@[tied_monster_indices@[0] as int].spec_activation_order(),
                ),
                0 <= done <= vector_length,
                i < vector_length ==> done == tied_monster_indices@[0],
                i == vector_length ==> done >= vector_length - 1,
                target == ties_resolved_from(vector@, done, prng.current_seed),
                prng.start_seed == old(prng).start_seed,
            decreases vector_length - i,
        {
            let previous_item = vector[i - 1].activation_order();
            let this_item = vector[i].activation_order();
            let ghost offset = tied_monster_indices@[0] as int;
            if previous_item == this_item {
                // The item has the same activation order as the previous one: it joins the tie.
                tied_monster_indices.push(i);
                proof {
                    assert(is_consecutive_from(tied_monster_indices@, offset));
                    assert(all_keys_equal_in(vector@, offset, i + 1, vector@[offset].spec_activation_order()));
                }
                if i == vector_length - 1 {
                    proof {
                        lemma_tie_run_end_at(vector@, offset, vector_length as int);
                    }
                    resolve_speed_tie(prng, vector, &mut tied_monster_indices);
                    proof {
                        done = vector_length as int;
                    }
                }
            } else {
                proof {
                    lemma_tie_run_end_at(vector@, offset, i as int);
                }
                resolve_speed_tie(prng, vector, &mut tied_monster_indices);
                proof {
                    done = i as int;
                }
                tied_monster_indices = Vec::new();
                tied_monster_indices.push(i);
                proof {
                    assert(is_consecutive_from(tied_monster_indices@, i as int));
                    assert(all_keys_equal_in(vector@, i as int, i + 1, vector@[i as int].spec_activation_order()));
                }
            }
            i = i + 1;
        }
        proof {
            if done < vector_length {
                lemma_single_item_run_is_kept(vector@, done, prng.current_seed);
            }
            lemma_nothing_left_to_resolve(vector@, prng.current_seed);
        }
    }
}

/// Shuffles the consecutive run of tied items at `tied_monster_indices` in place: an n-sided die is
/// rolled for the front of the run, then an (n - 1)-sided die for the next place, and so on, each
/// roll picking one of the items not yet placed.
fn resolve_speed_tie<T: Activatable>(prng: &mut Prng, vector: &mut Vec<T>, tied_monster_indices: &mut Vec<usize>)
    requires
        old(vector)@.len() <= u16::MAX,
        old(tied_monster_indices)@.len() >= 1,
        is_consecutive_from(old(tied_monster_indices)@, old(tied_monster_indices)@[0] as int),
        old(tied_monster_indices)@[0] + old(tied_monster_indices)@.len() <= old(vector)@.len(),
        all_keys_equal_in(
            old(vector)@,
            old(tied_monster_indices)@[0] as int,
            old(tied_monster_indices)@[0] + old(tied_monster_indices)@.len(),
            old(vector)@[old(tied_monster_indices)@[0] as int].spec_activation_order(),
        ),
    ensures
        ({
            let offset = old(tied_monster_indices)@[0] as int;
            let end = offset + old(tied_monster_indices)@.len();
            let key = old(vector)@[offset].spec_activation_order();
            &&& final(vector)@.len() == old(vector)@.len()
            &&& final(vector)@.to_multiset() == old(vector)@.to_multiset()
            &&& final(vector)@.subrange(offset, end).to_multiset() == old(vector)@.subrange(offset, end).to_multiset()
            &&& forall|m: int| 0 <= m < final(vector)@.len() && !(offset <= m < end) ==> #[trigger] final(vector)@[m] == old(vector)@[m]
            &&& all_keys_equal_in(final(vector)@, offset, end, key)
            &&& final(tied_monster_indices)@.len() >= 1
            &&& final(vector)@ == old(vector)@.take(offset) + shuffled(old(vector)@.subrange(offset, end), old(prng).current_seed).0
                + old(vector)@.skip(end)
            &&& final(prng).current_seed == shuffled(old(vector)@.subrange(offset, end), old(prng).current_seed).1
            &&& final(prng).start_seed == old(prng).start_seed
        }),
{
    let ghost offset = tied_monster_indices@[0] as int;
    let ghost k = tied_monster_indices@.len() as int;
    let ghost end = offset + k;
    let ghost key = vector@[offset].spec_activation_order();
    let ghost original = vector@;
    let ghost seed0 = prng.current_seed;
    let ghost run0 = original.subrange(offset, end);
    if tied_monster_indices.len() < 2 {
        assert(vector@.subrange(offset, end) =~= original.subrange(offset, end));
        assert(vector@ =~= original.take(offset) + run0 + original.skip(end));
        return;
    }
    let offset_exec = tied_monster_indices[0];
    // The items of the run that are not yet placed, in their original order.
    let mut remaining: Vec<T> = Vec::new();
    let mut c: usize = 0;
    let run_length = tied_monster_indices.len();
    while c < run_length
        invariant
            0 <= c <= k,
            k == run_length,
            offset == offset_exec,
            offset + k <= vector@.len(),
            vector@ == original,
            original.len() <= u16::MAX,
            remaining@ =~= original.subrange(offset, offset + c),
            tied_monster_indices@ == old(tied_monster_indices)@,
        decreases k - c,
    {
        remaining.push(vector[offset_exec + c]);
        c = c + 1;
    }
    let mut i: usize = 0;
    loop
        invariant_except_break
            remaining@.len() == tied_monster_indices@.len(),
            remaining@.len() >= 2,
            i + remaining@.len() == k,
            forall|m: int| 0 <= m < original.len() && !(offset <= m < offset + i) ==> #[trigger] vector@[m] == original[m],
            vector@.subrange(offset, offset + i).to_multiset().add(remaining@.to_multiset()) == original.subrange(
                offset,
                end,
            ).to_multiset(),
            shuffled(run0, seed0) == (vector@.subrange(offset, offset + i) + shuffled(remaining@, prng.current_seed).0,
            shuffled(remaining@, prng.current_seed).1),
        invariant
            run0 == original.subrange(offset, end),
            prng.start_seed == old(prng).start_seed,
            offset == offset_exec,
            0 <= offset,
            end == offset + k,
            end <= original.len(),
            original.len() <= u16::MAX,
            vector@.len() == original.len(),
            all_keys_equal_in(original, offset, end, key),
        ensures
            vector@.len() == original.len(),
            forall|m: int| 0 <= m < original.len() && !(offset <= m < end) ==> #[trigger] vector@[m] == original[m],
            vector@.subrange(offset, end).to_multiset() == original.subrange(offset, end).to_multiset(),
            tied_monster_indices@.len() >= 1,
            vector@.subrange(offset, end) == shuffled(run0, seed0).0,
            prng.current_seed == shuffled(run0, seed0).1,
        decreases remaining@.len(),
    {
        let number_tied = tied_monster_indices.len() as u16;
        let ghost seed_before = prng.current_seed;
        let ghost before = vector@;
        let ghost remaining_before = remaining@;
        // Roll an n-sided die and put the item corresponding to the roll at the front of the tied order.
        let prng_roll = prng.generate_random_number_in_range(0, number_tied - 1) as usize;
        tied_monster_indices.remove(prng_roll);
        let chosen = remaining.remove(prng_roll);
        vector.set(i + offset_exec, chosen);
        proof {
            lemma_place_step(original, before, vector@, remaining_before, remaining@, offset, end, i as int, prng_roll as int);
            let rest = shuffled(remaining@, prng.current_seed);
            assert(shuffled(remaining_before, seed_before) == (seq![chosen] + rest.0, rest.1));
            assert(vector@.subrange(offset, offset + i + 1) =~= before.subrange(offset, offset + i).push(chosen));
            assert(before.subrange(offset, offset + i) + (seq![chosen] + rest.0) =~= vector@.subrange(offset, offset + i + 1)
                + rest.0);
        }
        // Once there is only one remaining tied item, put it at the end of the run.
        if tied_monster_indices.len() == 1 {
            let last = remaining[0];
            let ghost before_last = vector@;
            vector.set(i + offset_exec + 1, last);
            proof {
                lemma_place_last(original, before_last, vector@, remaining@, offset, end, i as int);
                assert(remaining@ =~= seq![last]);
                assert(vector@.subrange(offset, end) =~= before_last.subrange(offset, offset + i + 1) + seq![last]);
            }
            break;
        }
        i = i + 1;
    }
    proof {
        let new_seg = vector@.subrange(offset, end);
        assert forall|m: int| offset <= m < end implies #[trigger] vector@[m].spec_activation_order() == key by {
            let x = vector@[m];
            assert(0 <= m - offset < new_seg.len());
            assert(new_seg[m - offset] == x);
            assert(new_seg.to_multiset().count(x) > 0);
            assert(original.subrange(offset, end).to_multiset().count(x) > 0);
            assert(original.subrange(offset, end).contains(x));
            let w = choose|w: int| 0 <= w < end - offset && original.subrange(offset, end)[w] == x;
            assert(original[offset + w] == x);
        }
        assert(original =~= original.subrange(0, offset) + original.subrange(offset, end) + original.subrange(end, original.len() as int));
        assert(vector@ =~= vector@.subrange(0, offset) + new_seg + vector@.subrange(end, original.len() as int));
        assert(vector@.subrange(0, offset) =~= original.subrange(0, offset));
        assert(vector@.subrange(end, original.len() as int) =~= original.subrange(end, original.len() as int));
        lemma_concat_multiset(original.subrange(0, offset), original.subrange(offset, end));
        lemma_concat_multiset(original.subrange(0, offset) + original.subrange(offset, end), original.subrange(end, original.len() as int));
        lemma_concat_multiset(vector@.subrange(0, offset), new_seg);
        lemma_concat_multiset(vector@.subrange(0, offset) + new_seg, vector@.subrange(end, original.len() as int));
    }
}

// Laws ------------------------------------------------------------------------------------- //

/// Whether no two items of `m` tie: items of equal activation order are the same item.
pub open spec fn has_no_ties<T: Activatable>(m: Multiset<T>) -> bool {
    forall|x: T, y: T|
        m.count(x) > 0 && m.count(y) > 0 && x.spec_activation_order() == y.spec_activation_order() ==> x == y
}

/// Where `x` goes into `sorted` lies within `sorted`.
proof fn lemma_insertion_index_bounds<T: Activatable>(sorted: Seq<T>, x: T)
    ensures
        0 <= insertion_index(sorted, x) <= sorted.len(),
    decreases sorted.len(),
{
    if sorted.len() > 0 {
        lemma_insertion_index_bounds(sorted.drop_last(), x);
    }
}

/// A stable sort keeps the items.
proof fn lemma_stably_sorted_keeps_items<T: Activatable>(s: Seq<T>)
    ensures
        stably_sorted(s).to_multiset() == s.to_multiset(),
    decreases s.len(),
{
    if s.len() > 0 {
        let rest = stably_sorted(s.drop_last());
        lemma_stably_sorted_keeps_items(s.drop_last());
        lemma_insertion_index_bounds(rest, s.last());
        let p = insertion_index(rest, s.last());
        lemma_concat_multiset(rest.take(p), seq![s.last()]);
        lemma_concat_multiset(rest.take(p) + seq![s.last()], rest.skip(p));
        lemma_concat_multiset(rest.take(p), rest.skip(p));
        assert(rest.take(p) + rest.skip(p) =~= rest);
        assert(s =~= s.drop_last().push(s.last()));
        assert(seq![s.last()].to_multiset() =~= Multiset::singleton(s.last())) by {
            assert(seq![s.last()] =~= Seq::<T>::empty().push(s.last()));
        }
    }
}

/// The items of a run found by `tie_run_end` share one activation order.
proof fn lemma_tie_run_is_tied<T: Activatable>(s: Seq<T>, start: int)
    requires
        0 <= start < s.len(),
    ensures
        all_keys_equal_in(s, start, tie_run_end(s, start), s[start].spec_activation_order()),
    decreases s.len() - start,
{
    if start + 1 < s.len() && s[start + 1].spec_activation_order() == s[start].spec_activation_order() {
        lemma_tie_run_is_tied(s, start + 1);
    }
}

/// Shuffling items that are all the same item leaves them as they are.
proof fn lemma_shuffling_copies_keeps_them<T>(items: Seq<T>, seed: u64, item: T)
    requires
        forall|m: int| 0 <= m < items.len() ==> #[trigger] items[m] == item,
    ensures
        shuffled(items, seed).0 == items,
    decreases items.len(),
{
    if !(items.len() < 2 || items.len() > u16::MAX) {
        let last = (items.len() - 1) as u16;
        law_number_in_range_is_in_range(seed, 0, last);
        let roll = number_in_range(seed, 0, last);
        let others = items.remove(roll);
        assert forall|m: int| 0 <= m < others.len() implies #[trigger] others[m] == item by {
            if m < roll {
                assert(others[m] == items[m]);
            } else {
                assert(others[m] == items[m + 1]);
            }
        }
        lemma_shuffling_copies_keeps_them(others, state_after_number_in_range(seed, 0, last), item);
        lemma_shuffled_len(others, state_after_number_in_range(seed, 0, last));
        assert(shuffled(items, seed).0 =~= items);
    }
}

/// When items of equal activation order are the same item, resolving ties from `start` on leaves
/// the items as they are.
proof fn lemma_resolving_without_ties_keeps_order<T: Activatable>(s: Seq<T>, start: int, seed: u64)
    requires
        0 <= start <= s.len(),
        has_no_ties(s.to_multiset()),
    ensures
        ties_resolved_from(s, start, seed).0 == s,
    decreases s.len() - start,
{
    if start < s.len() {
        let end = tie_run_end(s, start);
        lemma_tie_run_end_bounds(s, start);
        lemma_tie_run_is_tied(s, start);
        let run = s.subrange(start, end);
        assert forall|m: int| 0 <= m < run.len() implies #[trigger] run[m] == s[start] by {
            assert(run.len() == end - start);
            assert(start <= start + m < end);
            assert(run[m] == s[start + m]);
            assert(s[start + m].spec_activation_order() == s[start].spec_activation_order());
            assert(s.contains(s[start + m]));
            assert(s.contains(s[start]));
            assert(s.to_multiset().count(s[start + m]) > 0);
            assert(s.to_multiset().count(s[start]) > 0);
        }
        lemma_shuffling_copies_keeps_them(run, seed, s[start]);
        assert(s.take(start) + run + s.skip(end) =~= s);
        lemma_resolving_without_ties_keeps_order(s, end, shuffled(run, seed).1);
    }
}

/// Sorting items none of which tie does not depend on the generator: with the generator in any
/// two states, `sort_by_activation_order` puts the same items in the same order.
pub proof fn law_sorting_without_ties_is_deterministic<T: Activatable>(input: Seq<T>, first_seed: u64, second_seed: u64)
    requires
        has_no_ties(input.to_multiset()),
    ensures
        activation_sorted(input, first_seed).0 == activation_sorted(input, second_seed).0,
        activation_sorted(input, first_seed).0 == stably_sorted(input).reverse(),
{
    let sorted = stably_sorted(input).reverse();
    lemma_stably_sorted_keeps_items(input);
    stably_sorted(input).lemma_reverse_to_multiset();
    lemma_resolving_without_ties_keeps_order(sorted, 0, first_seed);
    lemma_resolving_without_ties_keeps_order(sorted, 0, second_seed);
}


/// Activation orders are compared by priority first, then by speed, then by order: a higher
/// priority acts first whatever the speeds, and at equal priority a faster monster acts first.
/// The comparison is a strict total order.
pub proof fn law_activation_order_ranks_priority_then_speed(a: ActivationOrder, b: ActivationOrder, c: ActivationOrder)
    ensures
        a.priority < b.priority ==> activation_order_lt(a, b),
        a.priority == b.priority && a.speed < b.speed ==> activation_order_lt(a, b),
        a.priority == b.priority && a.speed == b.speed && a.order < b.order ==> activation_order_lt(a, b),
        !activation_order_lt(a, a),
        activation_order_lt(a, b) ==> !activation_order_lt(b, a),
        activation_order_lt(a, b) && activation_order_lt(b, c) ==> activation_order_lt(a, c),
        a != b ==> activation_order_lt(a, b) || activation_order_lt(b, a),
{
}

} // verus!
