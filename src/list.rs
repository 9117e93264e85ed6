use vstd::prelude::*;

use crate::text::{decimal, push_char, push_decimal};

verus! {

/// A prepend-only singly linked list of `u32` values.
pub enum LinkedList {
    Cons(u32, Box<LinkedList>),
    Nil,
}

impl LinkedList {
    /// The values of the list from head to tail.
    pub open spec fn values(&self) -> Seq<u32>
        decreases self,
    {
        match self {
            LinkedList::Cons(v, tail) => seq![*v] + tail.values(),
            LinkedList::Nil => Seq::empty(),
        }
    }
}

/// The terminal marker that ends every rendering.
pub open spec fn nil_marker() -> Seq<char> {
    seq!['N', 'i', 'l']
}

/// The rendering of `vs`: each value in decimal followed by a space, head
/// first, then the terminal marker.
pub open spec fn render(vs: Seq<u32>) -> Seq<char>
    decreases vs.len(),
{
    if vs.len() == 0 {
        nil_marker()
    } else {
        decimal(vs[0] as nat) + seq![' '] + render(vs.drop_first())
    }
}

/// The values of the list that `prepend` makes from a list with values `l`,
/// given `vs[0]`, then `vs[1]`, and so on: the last one given comes first.
pub open spec fn prepend_all(l: Seq<u32>, vs: Seq<u32>) -> Seq<u32>
    decreases vs.len(),
{
    if vs.len() == 0 {
        l
    } else {
        seq![vs.last()] + prepend_all(l, vs.drop_last())
    }
}

/// Prepending `vs.len()` values, one at a time, onto a list adds `vs.len()` to
/// its length; onto the empty list, the length is `vs.len()`.
pub proof fn lemma_length_after_prepends(l: Seq<u32>, vs: Seq<u32>)
    ensures
        prepend_all(l, vs).len() == l.len() + vs.len(),
        prepend_all(Seq::empty(), vs).len() == vs.len(),
    decreases vs.len(),
{
    if vs.len() > 0 {
        lemma_length_after_prepends(l, vs.drop_last());
        lemma_length_after_prepends(Seq::empty(), vs.drop_last());
    }
}

/// The empty list renders as the terminal marker alone.
pub proof fn lemma_render_empty()
    ensures
        render(Seq::empty()) == nil_marker(),
{
}

/// Rendering a list with `v` prepended gives `v` in decimal, a space, and the
/// rendering of the list before.
pub proof fn lemma_render_prepend(l: Seq<u32>, v: u32)
    ensures
        render(seq![v] + l) == decimal(v as nat) + seq![' '] + render(l),
{
    assert((seq![v] + l).drop_first() =~= l);
}

/// Observing a list does not change it: two calls of `len`, or of `stringify`,
/// on the same list give the same result.
pub proof fn lemma_observation_stable(
    list: &LinkedList,
    n1: u32,
    n2: u32,
    s1: Seq<char>,
    s2: Seq<char>,
)
    requires
        n1 == list@.len(),
        n2 == list@.len(),
        s1 == render(list@),
        s2 == render(list@),
    ensures
        n1 == n2,
        s1 == s2,
{
}

impl View for LinkedList {
    type V = Seq<u32>;

    open spec fn view(&self) -> Seq<u32> {
        self.values()
    }
}

impl LinkedList {
    /// The empty list.
    pub fn new() -> (r: LinkedList)
        ensures
            r@ == Seq::<u32>::empty(),
    {
        LinkedList::Nil
    }

    /// Consumes the list and returns it with `v` in front.
    pub fn prepend(self, v: u32) -> (r: LinkedList)
        ensures
            r@ == seq![v] + self@,
    {
        LinkedList::Cons(v, Box::new(self))
    }

    /// The number of values in the list.
    pub fn len(&self) -> (r: u32)
        requires
            self@.len() <= u32::MAX,
        ensures
            r == self@.len(),
        decreases self@.len(),
    {
        match self {
            LinkedList::Cons(_, tail) => 1 + tail.len(),
            LinkedList::Nil => 0,
        }
    }

    /// The values from head to tail, each followed by a space, then `Nil`.
    pub fn stringify(&self) -> (r: String)
        ensures
            r@ == render(self@),
        decreases self@.len(),
    {
        match self {
            LinkedList::Cons(head, tail) => {
                let mut s = String::new();
                push_decimal(&mut s, *head as u64);
                push_char(&mut s, ' ');
                let rest = tail.stringify();
                s.append(rest.as_str());
                assert(self@.drop_first() =~= tail@);
                s
            },
            LinkedList::Nil => {
                let mut s = String::new();
                push_char(&mut s, 'N');
                push_char(&mut s, 'i');
                push_char(&mut s, 'l');
                assert(s@ =~= nil_marker());
                s
            },
        }
    }
}

} // verus!
