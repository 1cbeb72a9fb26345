//! Keeps the values that `bar` hands back, numbering them from zero; `bar`
//! takes and returns the value itself.
use vstd::prelude::*;
use crate::v1::enumerated;

verus! {

/// Hands every value back.
fn bar<T: AsRef<str>>(value: T) -> (r: Option<T>)
    ensures
        r == Some(value),
{
    Some(value)
}

/// Keeps the values that `bar` hands back, each paired with its position
/// among the kept values. Since `bar` hands back every value, the result
/// pairs every value with its index.
pub fn foo<T>(input: Vec<T>) -> (r: Vec<(usize, T)>)
    where
        T: AsRef<str>,
    ensures
        r@ == enumerated(input@),
{
    let ghost items = input@;
    let mut output: Vec<(usize, T)> = Vec::new();
    for val in it: input.into_iter()
        invariant
            it.seq() == items,
            output@ == enumerated(items.take(it.index() as int)),
    {
        let ghost current = val;
        if let Some(kept) = bar(val) {
            let n: usize = output.len();
            output.push((n, kept));
        }
        assert(items.take(it.index() as int + 1) == items.take(it.index() as int).push(current));
        assert(output@ =~= enumerated(items.take(it.index() as int + 1)));
    }
    assert(items.take(items.len() as int) =~= items);
    output
}

} // verus!
