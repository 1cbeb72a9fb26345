//! Keeps the values that `bar` accepts, numbering them from zero; `bar`
//! looks at each value through its text.
use vstd::prelude::*;

verus! {

/// Relies on `AsRef<str>::as_ref`, which lends a value's text; nothing is
/// known of that text, and nothing here needs it.
#[verifier::external_body]
fn text_of<T: AsRef<str>>(value: &T) -> &str {
    value.as_ref()
}

/// Each value of `s`, paired with its position.
pub open spec fn enumerated<T>(s: Seq<T>) -> Seq<(usize, T)> {
    Seq::new(s.len(), |i: int| (i as usize, s[i]))
}

/// Accepts every text.
fn bar(value: &str) -> (r: Option<&str>)
    ensures
        r == Some(value),
{
    Some(value)
}

/// Keeps the values whose text `bar` accepts, each paired with its position
/// among the kept values. Since `bar` accepts every text, the result pairs
/// every value with its index.
pub fn foo<T>(input: Vec<T>) -> (r: Vec<(usize, T)>)
    where
        T: AsRef<str>,
    ensures
        r@ == enumerated(input@),
{
    let ghost items = input@;
    let mut output: Vec<(usize, T)> = Vec::new();
    for value in it: input.into_iter()
        invariant
            it.seq() == items,
            output@ == enumerated(items.take(it.index() as int)),
    {
        if bar(text_of(&value)).is_some() {
            let n: usize = output.len();
            output.push((n, value));
        }
        assert(items.take(it.index() as int + 1) == items.take(it.index() as int).push(value));
        assert(output@ =~= enumerated(items.take(it.index() as int + 1)));
    }
    assert(items.take(items.len() as int) =~= items);
    output
}

} // verus!
