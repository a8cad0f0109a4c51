use vstd::prelude::*;

verus! {

/// The items of `items`, last first.
pub fn reversed<T>(items: Vec<T>) -> (r: Vec<T>)
    ensures
        r@ == items@.reverse(),
{
    let mut rest = items;
    let mut out: Vec<T> = Vec::new();
    while rest.len() > 0
        invariant
            rest@.len() <= items@.len(),
            rest@ == items@.take(rest@.len() as int),
            out@.len() == items@.len() - rest@.len(),
            forall|i: int| 0 <= i < out@.len() ==> out@[i] == items@[items@.len() - 1 - i],
        decreases rest@.len(),
    {
        let item = rest.pop().unwrap();
        out.push(item);
    }
    assert(out@ =~= items@.reverse());
    out
}

} // verus!
