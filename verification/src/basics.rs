//! Small exercises on vectors, strings, enums and structs.

use vstd::prelude::*;
use vstd::string::StrSliceExecFns;

verus! {

/// The test for an even number.
pub open spec fn is_even() -> spec_fn(i32) -> bool {
    |n: i32| n % 2 == 0
}

/// The even numbers of a sequence, in their order.
pub open spec fn evens_of(numbers: Seq<i32>) -> Seq<i32> {
    numbers.filter(is_even())
}

/// The even numbers of `vec`, in their order.
pub fn even_numbers(vec: &Vec<i32>) -> (evens: Vec<i32>)
    ensures
        evens@ == evens_of(vec@),
{
    let mut evens: Vec<i32> = Vec::new();
    let mut i: usize = 0;
    while i < vec.len()
        invariant
            i <= vec.len(),
            evens@ == evens_of(vec@.take(i as int)),
        decreases vec.len() - i,
    {
        let n = vec[i];
        proof {
            assert(vec@.take(i + 1) =~= vec@.take(i as int).push(n));
            vec@.take(i as int).lemma_filter_push(n, is_even());
        }
        if n % 2 == 0 {
            evens.push(n);
        }
        i += 1;
    }
    assert(vec@.take(vec.len() as int) =~= vec@);
    evens
}

/// The even numbers of `vec`, in their order; the vector is used up.
pub fn even_filter(vec: Vec<i32>) -> (evens: Vec<i32>)
    ensures
        evens@ == evens_of(vec@),
{
    even_numbers(&vec)
}

/// Keys paired with values, the keys as plain text.
pub open spec fn pair_views(pairs: Seq<(String, i32)>) -> Seq<(Seq<char>, i32)> {
    Seq::new(pairs.len(), |i: int| (pairs[i].0@, pairs[i].1))
}

/// Whether `key` is the key of one of `pairs`.
pub open spec fn has_key(pairs: Seq<(Seq<char>, i32)>, key: Seq<char>) -> bool {
    exists|a: int| 0 <= a < pairs.len() && #[trigger] pairs[a].0 == key
}

/// Whether no pair before place `i` has the key of the pair at `i`.
pub open spec fn is_first_of_key(pairs: Seq<(Seq<char>, i32)>, i: int) -> bool {
    &&& 0 <= i < pairs.len()
    &&& forall|j: int| 0 <= j < i ==> pairs[j].0 != pairs[i].0
}

/// Whether no pair after place `i` has the key of the pair at `i`.
pub open spec fn is_last_of_key(pairs: Seq<(Seq<char>, i32)>, i: int) -> bool {
    &&& 0 <= i < pairs.len()
    &&& forall|j: int| i < j < pairs.len() ==> pairs[j].0 != pairs[i].0
}

/// Whether entry `a` of `grouped` is the group of one key of `pairs`: the
/// key came first at `first` and last at `last`, and the entry bears the
/// value that came last.
pub open spec fn is_group_of(
    pairs: Seq<(Seq<char>, i32)>,
    grouped: Seq<(Seq<char>, i32)>,
    a: int,
    first: int,
    last: int,
) -> bool {
    &&& is_first_of_key(pairs, first)
    &&& is_last_of_key(pairs, last)
    &&& pairs[first].0 == grouped[a].0
    &&& pairs[last] == grouped[a]
}

/// Whether `grouped` groups `pairs` by key, the key of each entry coming
/// first and last in `pairs` at the places that `firsts` and `lasts` give
/// for it: every key of `pairs` has an entry, each entry bears the value
/// that came last for its key, and the entries stand in the order in which
/// their keys first came.
pub open spec fn groups_at(
    pairs: Seq<(Seq<char>, i32)>,
    grouped: Seq<(Seq<char>, i32)>,
    firsts: Seq<int>,
    lasts: Seq<int>,
) -> bool {
    &&& firsts.len() == grouped.len()
    &&& lasts.len() == grouped.len()
    &&& forall|a: int|
        0 <= a < grouped.len() ==> #[trigger] is_group_of(pairs, grouped, a, firsts[a], lasts[a])
    &&& forall|a: int, b: int| 0 <= a < b < grouped.len() ==> firsts[a] < firsts[b]
    &&& forall|i: int| 0 <= i < pairs.len() ==> has_key(grouped, #[trigger] pairs[i].0)
}

/// Whether `grouped` groups `pairs` by key.
pub open spec fn groups(pairs: Seq<(Seq<char>, i32)>, grouped: Seq<(Seq<char>, i32)>) -> bool {
    exists|firsts: Seq<int>, lasts: Seq<int>| groups_at(pairs, grouped, firsts, lasts)
}

/// Groups values by key: one entry for each key, in the order in which the
/// keys first come, each with the value that came last for its key.
pub fn group_values_by_key(pairs: Vec<(String, i32)>) -> (grouped: Vec<(String, i32)>)
    ensures
        groups(pair_views(pairs@), pair_views(grouped@)),
{
    let mut grouped: Vec<(String, i32)> = Vec::new();
    let ghost all = pair_views(pairs@);
    let ghost mut firsts: Seq<int> = Seq::empty();
    let ghost mut lasts: Seq<int> = Seq::empty();
    let mut i: usize = 0;
    while i < pairs.len()
        invariant
            i <= pairs.len(),
            all == pair_views(pairs@),
            groups_at(all.take(i as int), pair_views(grouped@), firsts, lasts),
        decreases pairs.len() - i,
    {
        let ghost seen = all.take(i as int);
        let ghost next = all.take(i + 1);
        let ghost before = pair_views(grouped@);
        let key = pairs[i].0.clone();
        let value = pairs[i].1;
        let mut at: usize = 0;
        while at < grouped.len() && grouped[at].0 != key
            invariant
                at <= grouped.len(),
                forall|a: int| 0 <= a < at ==> grouped[a].0@ != key@,
            decreases grouped.len() - at,
        {
            at += 1;
        }
        if at < grouped.len() {
            grouped.set(at, (key, value));
            proof {
                let after = pair_views(grouped@);
                let ghost old_lasts = lasts;
                lasts = lasts.update(at as int, i as int);
                assert forall|a: int| 0 <= a < after.len() implies #[trigger] is_group_of(
                    next,
                    after,
                    a,
                    firsts[a],
                    lasts[a],
                ) by {
                    assert(is_group_of(seen, before, a, firsts[a], old_lasts[a]));
                    if a != at {
                        assert(is_group_of(seen, before, at as int, firsts[at as int], old_lasts[at as int]));
                    }
                }
                assert forall|j: int| 0 <= j < next.len() implies has_key(
                    after,
                    #[trigger] next[j].0,
                ) by {
                    if j < i {
                        let a = choose|a: int|
                            0 <= a < before.len() && #[trigger] before[a].0 == seen[j].0;
                        assert(after[a].0 == next[j].0);
                    } else {
                        assert(after[at as int].0 == next[j].0);
                    }
                }
            }
        } else {
            grouped.push((key, value));
            proof {
                let after = pair_views(grouped@);
                firsts = firsts.push(i as int);
                lasts = lasts.push(i as int);
                assert forall|a: int| 0 <= a < after.len() implies #[trigger] is_group_of(
                    next,
                    after,
                    a,
                    firsts[a],
                    lasts[a],
                ) by {
                    if a < before.len() {
                        assert(is_group_of(seen, before, a, firsts[a], lasts[a]));
                    } else {
                        assert forall|j: int| 0 <= j < i implies next[j].0 != next[i as int].0 by {
                            assert(has_key(before, seen[j].0));
                        }
                    }
                }
                assert forall|a: int, b: int| 0 <= a < b < after.len() implies firsts[a]
                    < firsts[b] by {
                    if b == before.len() {
                        assert(is_group_of(seen, before, a, firsts[a], lasts[a]));
                    }
                }
                assert forall|j: int| 0 <= j < next.len() implies has_key(
                    after,
                    #[trigger] next[j].0,
                ) by {
                    if j < i {
                        let a = choose|a: int|
                            0 <= a < before.len() && #[trigger] before[a].0 == seen[j].0;
                        assert(after[a].0 == next[j].0);
                    } else {
                        assert(after[before.len() as int].0 == next[j].0);
                    }
                }
            }
        }
        i += 1;
    }
    assert(all.take(pairs.len() as int) =~= all);
    grouped
}

/// Whether `i` is the place of the first `a` in `text`.
pub open spec fn is_first_a(text: Seq<char>, i: int) -> bool {
    &&& 0 <= i < text.len()
    &&& text[i] == 'a'
    &&& forall|j: int| 0 <= j < i ==> text[j] != 'a'
}

/// The place of the first `a` in `string`, counted in characters from zero,
/// or `None` where it holds no `a`.
pub fn find_first_a(string: String) -> (found: Option<i32>)
    requires
        string@.len() <= i32::MAX,
    ensures
        match found {
            Some(i) => is_first_a(string@, i as int),
            None => forall|j: int| 0 <= j < string@.len() ==> string@[j] != 'a',
        },
{
    let text = string.as_str();
    let len = text.unicode_len();
    let mut i: usize = 0;
    while i < len
        invariant
            i <= len,
            len == text@.len(),
            text@ == string@,
            len <= i32::MAX,
            forall|j: int| 0 <= j < i ==> text@[j] != 'a',
        decreases len - i,
    {
        if text.get_char(i) == 'a' {
            return Some(i as i32);
        }
        i += 1;
    }
    None
}

/// The four directions.
pub enum Direction {
    East,
    West,
    North,
    South,
}

/// Takes a direction and does nothing with it.
pub fn move_around(direction: Direction) {
}

/// How many characters the first word of `text` has, its closing space
/// included: all of them where there is no space.
pub open spec fn first_word_len(text: Seq<char>) -> nat
    decreases text.len(),
{
    if text.len() == 0 {
        0
    } else if text[0] == ' ' {
        1
    } else {
        1 + first_word_len(text.drop_first())
    }
}

/// The first word of `sentence`: its characters up to and including the
/// first space, or all of them where there is no space.
pub fn get_first_word(sentence: String) -> (word: String)
    ensures
        word@ == sentence@.take(first_word_len(sentence@) as int),
{
    let text = sentence.as_str();
    let len = text.unicode_len();
    let mut i: usize = 0;
    assert(text@.skip(0) =~= text@);
    while i < len
        invariant_except_break
            first_word_len(text@) == i + first_word_len(text@.skip(i as int)),
        invariant
            i <= len,
            len == text@.len(),
            text@ == sentence@,
        ensures
            first_word_len(text@) == i,
        decreases len - i,
    {
        assert(text@.skip(i as int).drop_first() =~= text@.skip(i + 1));
        let c = text.get_char(i);
        i += 1;
        if c == ' ' {
            break;
        }
    }
    text.substring_char(0, i).to_owned()
}

/// A rectangle with sides of whole length.
pub struct Rectangle {
    pub width: u32,
    pub height: u32,
}

impl Rectangle {
    /// The area of the rectangle.
    pub fn area(&self) -> (area: u32)
        requires
            self.width * self.height <= u32::MAX,
        ensures
            area == self.width * self.height,
    {
        self.width * self.height
    }
}

/// A value that can be summed up in a line of text.
pub trait Summary {
    fn summarize(&self) -> String;
}

/// A value that can say how it is to be mended.
pub trait Fix {
    fn fix(&self) -> String;
}

} // verus!
