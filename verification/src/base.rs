//! Copies of values and sequences of views.

use vstd::prelude::*;

verus! {

/// Values that can be copied without loss of what their view shows.
pub trait Duplicate: View + Sized {
    fn duplicate(&self) -> (copy: Self)
        ensures
            copy@ == self@,
    ;
}

impl Duplicate for String {
    fn duplicate(&self) -> (copy: String) {
        self.clone()
    }
}

/// The views of a sequence of values.
pub open spec fn views<T: View>(items: Seq<T>) -> Seq<T::V> {
    Seq::new(items.len(), |i: int| items[i]@)
}

pub proof fn lemma_views_push<T: View>(items: Seq<T>, item: T)
    ensures
        views(items.push(item)) == views(items).push(item@),
{
    assert(views(items.push(item)) =~= views(items).push(item@));
}

/// Taking the first item away takes the first view away.
pub proof fn lemma_views_first<T: View>(items: Seq<T>)
    requires
        items.len() > 0,
    ensures
        views(items)[0] == items[0]@,
        views(items.remove(0)) == views(items).drop_first(),
{
    assert(views(items.remove(0)) =~= views(items).drop_first());
}

/// What is left after one more item.
pub proof fn lemma_skip_one<T>(items: Seq<T>, seen: int)
    requires
        0 <= seen < items.len(),
    ensures
        items.skip(seen)[0] == items[seen],
        items.skip(seen).drop_first() == items.skip(seen + 1),
        items.take(seen + 1).drop_last() == items.take(seen),
        items.take(seen + 1).last() == items[seen],
{
    assert(items.skip(seen).drop_first() =~= items.skip(seen + 1));
    assert(items.take(seen + 1).drop_last() =~= items.take(seen));
}

/// The view of an optional value.
pub open spec fn opt_view<T: View>(value: Option<T>) -> Option<T::V> {
    match value {
        Some(v) => Some(v@),
        None => None,
    }
}

/// A copy of each item, in order.
pub fn duplicate_all<T: Duplicate>(items: &Vec<T>) -> (copies: Vec<T>)
    ensures
        views(copies@) == views(items@),
{
    let mut copies: Vec<T> = Vec::new();
    let mut i: usize = 0;
    while i < items.len()
        invariant
            i <= items@.len(),
            copies@.len() == i,
            forall|j: int| 0 <= j < i ==> (#[trigger] copies@[j])@ == items@[j]@,
        decreases items@.len() - i,
    {
        copies.push(items[i].duplicate());
        i = i + 1;
    }
    assert(views(copies@) =~= views(items@));
    copies
}

pub fn duplicate_opt<T: Duplicate>(value: &Option<T>) -> (copy: Option<T>)
    ensures
        opt_view(copy) == opt_view(*value),
{
    match value {
        Some(v) => Some(v.duplicate()),
        None => None,
    }
}

/// Whether an optional text is there and reads so.
pub fn reads(value: &Option<String>, text: &String) -> (result: bool)
    ensures
        result == (opt_view(*value) == Some(text@)),
{
    match value {
        Some(v) => *v == *text,
        None => false,
    }
}

pub fn same_text(a: &Option<String>, b: &Option<String>) -> (result: bool)
    ensures
        result == (opt_view(*a) == opt_view(*b)),
{
    match (a, b) {
        (Some(a), Some(b)) => *a == *b,
        (None, None) => true,
        _ => false,
    }
}

/// Whether a text is among those listed.
pub fn lists(texts: &Vec<String>, text: &String) -> (result: bool)
    ensures
        result == views(texts@).contains(text@),
{
    let mut i: usize = 0;
    while i < texts.len()
        invariant
            i <= texts@.len(),
            forall|j: int| 0 <= j < i ==> (#[trigger] texts@[j])@ != text@,
        decreases texts@.len() - i,
    {
        if texts[i] == *text {
            assert(views(texts@)[i as int] == text@);
            return true;
        }
        i = i + 1;
    }
    assert forall|j: int| 0 <= j < views(texts@).len() implies views(texts@)[j] != text@ by {
        assert(texts@[j]@ != text@);
    }
    false
}

} // verus!
