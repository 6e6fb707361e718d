//! Exercises on moving the items of vectors about: interleaving two vectors
//! and rotating one.

use vstd::prelude::*;

verus! {

/// The shorter of two lengths.
pub open spec fn shorter(a: nat, b: nat) -> nat {
    if a <= b {
        a
    } else {
        b
    }
}

/// The items of `a` and `b` in turn, `a` first; where one sequence is longer,
/// its remaining items follow in their order.
pub open spec fn interleaved<T>(a: Seq<T>, b: Seq<T>) -> Seq<T> {
    let both = shorter(a.len(), b.len());
    Seq::new(
        a.len() + b.len(),
        |i: int|
            if i < 2 * both {
                if i % 2 == 0 {
                    a[i / 2]
                } else {
                    b[i / 2]
                }
            } else if a.len() > both {
                a[i - both]
            } else {
                b[i - both]
            },
    )
}

/// Interleaves clones of the items of `a` and `b`.
pub fn interleave<T: Clone>(a: Vec<T>, b: Vec<T>) -> (result: Vec<T>)
    ensures
        result.len() == a.len() + b.len(),
        forall|i: int| 0 <= i < result.len() ==> cloned(interleaved(a@, b@)[i], #[trigger] result[i]),
{
    let mut result: Vec<T> = Vec::new();
    let min_len = if a.len() <= b.len() {
        a.len()
    } else {
        b.len()
    };
    let mut i: usize = 0;
    while i < min_len
        invariant
            i <= min_len,
            min_len == shorter(a@.len(), b@.len()),
            result.len() == 2 * i,
            forall|j: int|
                0 <= j < result.len() ==> cloned(interleaved(a@, b@)[j], #[trigger] result[j]),
        decreases min_len - i,
    {
        result.push(a[i].clone());
        result.push(b[i].clone());
        i += 1;
    }
    while i < a.len()
        invariant
            min_len <= i <= a.len(),
            min_len == shorter(a@.len(), b@.len()),
            result.len() == min_len + i,
            forall|j: int|
                0 <= j < result.len() ==> cloned(interleaved(a@, b@)[j], #[trigger] result[j]),
        decreases a.len() - i,
    {
        result.push(a[i].clone());
        i += 1;
    }
    let mut i: usize = min_len;
    while i < b.len()
        invariant
            min_len <= i <= b.len(),
            min_len == shorter(a@.len(), b@.len()),
            a.len() > min_len ==> b.len() == min_len,
            result.len() == a.len() + i,
            forall|j: int|
                0 <= j < result.len() ==> cloned(interleaved(a@, b@)[j], #[trigger] result[j]),
        decreases b.len() - i,
    {
        result.push(b[i].clone());
        i += 1;
    }
    result
}

/// Interleaves the items of `a` and `b` themselves: each is moved into the
/// result, none is cloned.
pub fn interleave_no_clone<T>(a: Vec<T>, b: Vec<T>) -> (result: Vec<T>)
    ensures
        result@ == interleaved(a@, b@),
{
    let ghost whole = interleaved(a@, b@);
    let ghost total = a@.len() + b@.len();
    let mut left = a;
    let mut right = b;
    // The result is built back to front, then turned round.
    let mut stack: Vec<T> = Vec::new();
    while left.len() > right.len()
        invariant
            left@ == a@.take(left.len() as int),
            right@ == b@,
            left.len() <= a.len(),
            left.len() >= right.len() || left.len() == a.len(),
            stack.len() + left.len() + right.len() == total,
            forall|j: int| 0 <= j < stack.len() ==> stack[j] == whole[total - 1 - j],
            whole == interleaved(a@, b@),
            total == a@.len() + b@.len(),
        decreases left.len(),
    {
        let item = left.pop().unwrap();
        stack.push(item);
    }
    while right.len() > left.len()
        invariant
            right@ == b@.take(right.len() as int),
            left@ == a@.take(left.len() as int),
            left.len() <= a.len(),
            left.len() <= right.len() <= b.len(),
            left.len() >= b.len() || left.len() == a.len(),
            stack.len() + left.len() + right.len() == total,
            forall|j: int| 0 <= j < stack.len() ==> stack[j] == whole[total - 1 - j],
            whole == interleaved(a@, b@),
            total == a@.len() + b@.len(),
        decreases right.len(),
    {
        let item = right.pop().unwrap();
        stack.push(item);
    }
    while left.len() > 0
        invariant
            left.len() == right.len(),
            left.len() <= shorter(a@.len(), b@.len()),
            left@ == a@.take(left.len() as int),
            right@ == b@.take(right.len() as int),
            stack.len() + left.len() + right.len() == total,
            forall|j: int| 0 <= j < stack.len() ==> stack[j] == whole[total - 1 - j],
            whole == interleaved(a@, b@),
            total == a@.len() + b@.len(),
        decreases left.len(),
    {
        let second = right.pop().unwrap();
        let first = left.pop().unwrap();
        stack.push(second);
        stack.push(first);
    }
    let mut result: Vec<T> = Vec::new();
    while stack.len() > 0
        invariant
            stack.len() + result.len() == total,
            total == whole.len(),
            forall|j: int| 0 <= j < stack.len() ==> stack[j] == whole[total - 1 - j],
            forall|j: int| 0 <= j < result.len() ==> result[j] == whole[j],
        decreases stack.len(),
    {
        let item = stack.pop().unwrap();
        result.push(item);
    }
    result
}

/// The sequence turned `k` places to the right: its last `k` items, taken
/// modulo its length, come first.
pub open spec fn rotated<T>(items: Seq<T>, k: int) -> Seq<T> {
    if items.len() == 0 {
        items
    } else {
        let cut = items.len() - k % (items.len() as int);
        items.subrange(cut, items.len() as int) + items.subrange(0, cut)
    }
}

/// Turns `v` by `k` places to the right.
pub fn rotate_vector<T>(v: Vec<T>, k: usize) -> (turned: Vec<T>)
    ensures
        turned@ == rotated(v@, k as int),
{
    let mut head = v;
    let len = head.len();
    if len == 0 {
        return head;
    }
    let k = k % len;
    let mut turned = head.split_off(len - k);
    turned.append(&mut head);
    turned
}

} // verus!
