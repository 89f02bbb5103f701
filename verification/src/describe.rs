//! Values that can be shown to the user as text.

use vstd::prelude::*;
use crate::text::{join, join_text, texts};

verus! {

/// A value that has a text for the user.
pub trait Describe {
    /// The text that shows the value.
    spec fn text(&self) -> Seq<char>;

    /// The text that shows the value.
    fn to_string(&self) -> (r: String)
        ensures
            r@ == self.text(),
    ;
}

/// The texts of the values of `items`, in order.
pub open spec fn described<T: Describe>(items: Seq<T>) -> Seq<Seq<char>> {
    Seq::new(items.len(), |i: int| items[i].text())
}

/// The texts of the values of `items`, in order.
pub fn describe_all<T: Describe>(items: &Vec<T>) -> (r: Vec<String>)
    ensures
        texts(r@) == described(items@),
{
    let mut r: Vec<String> = Vec::new();
    let mut i: usize = 0;
    while i < items.len()
        invariant
            i <= items.len(),
            r.len() == i,
            texts(r@) == described(items@).take(i as int),
        decreases items.len() - i,
    {
        let ghost before = texts(r@);
        let text = items[i].to_string();
        r.push(text);
        i = i + 1;
        proof {
            let after = texts(r@);
            let goal = described(items@).take(i as int);
            assert forall|j: int| 0 <= j < after.len() implies after[j] == goal[j] by {
                if j < i - 1 {
                    assert(after[j] == before[j]);
                }
            }
            assert(after =~= goal);
        }
    }
    assert(described(items@).take(i as int) =~= described(items@));
    r
}

/// The texts of the values of `items`, with `sep` between each two
/// neighbours.
pub fn describe_joined<T: Describe>(items: &Vec<T>, sep: &str) -> (r: String)
    ensures
        r@ == join_text(described(items@), sep@),
{
    let all = describe_all(items);
    join(&all, sep)
}

} // verus!
