//! An owned singly linked list, the sequence type of the syntax tree.

use vstd::prelude::*;

verus! {

/// A finite sequence of `T`, first item first.
#[derive(Debug, PartialEq, Eq)]
pub enum List<T> {
    Nil,
    Cons(Box<T>, Box<List<T>>),
}

impl<T> List<T> {
    /// The items as a mathematical sequence.
    pub open spec fn view(self) -> Seq<T>
        decreases self,
    {
        match self {
            List::Nil => Seq::empty(),
            List::Cons(head, tail) => seq![*head] + tail.view(),
        }
    }

    /// `self` followed by `other`.
    pub open spec fn concat(self, other: List<T>) -> List<T>
        decreases self,
    {
        match self {
            List::Nil => other,
            List::Cons(head, tail) => List::Cons(head, Box::new(tail.concat(other))),
        }
    }

    /// The list of one item.
    pub open spec fn one(item: T) -> List<T> {
        List::Cons(Box::new(item), Box::new(List::Nil))
    }

    /// The list of two items.
    pub open spec fn two(first: T, second: T) -> List<T> {
        List::Cons(Box::new(first), Box::new(List::one(second)))
    }

    /// The list without items.
    pub fn empty() -> (r: List<T>)
        ensures
            r == List::<T>::Nil,
            r@ == Seq::<T>::empty(),
    {
        List::Nil
    }

    /// The list of one item.
    pub fn single(item: T) -> (r: List<T>)
        ensures
            r == List::one(item),
    {
        List::Cons(Box::new(item), Box::new(List::Nil))
    }

    /// Puts `item` in front of `self`.
    pub fn push_front(self, item: T) -> (r: List<T>)
        ensures
            r == List::Cons(Box::new(item), Box::new(self)),
            r@ == seq![item] + self@,
    {
        List::Cons(Box::new(item), Box::new(self))
    }

    /// Whether the list has no item.
    pub fn is_empty(&self) -> (r: bool)
        ensures
            r == (*self is Nil),
            r == (self@.len() == 0),
    {
        match self {
            List::Nil => true,
            List::Cons(_, _) => false,
        }
    }

    /// Appends `other` to `self`.
    pub fn append(self, other: List<T>) -> (r: List<T>)
        ensures
            r == self.concat(other),
            r@ == self@ + other@,
        decreases self,
    {
        match self {
            List::Nil => {
                proof {
                    assert(Seq::<T>::empty() + other@ =~= other@);
                }
                other
            },
            List::Cons(head, tail) => {
                let rest = (*tail).append(other);
                proof {
                    assert(seq![*head] + (tail@ + other@) =~= (seq![*head] + tail@) + other@);
                }
                List::Cons(head, Box::new(rest))
            },
        }
    }

    /// The list that holds the items of `items` in their order.
    pub fn from_vec(items: Vec<T>) -> (r: List<T>)
        ensures
            r@ == items@,
    {
        let mut items = items;
        let ghost all = items@;
        let mut acc: List<T> = List::Nil;
        while items.len() > 0
            invariant
                items@ + acc@ =~= all,
            decreases items.len(),
        {
            let ghost before = items@;
            let last = items.pop().unwrap();
            proof {
                assert(before =~= items@ + seq![last]);
                assert(items@ + (seq![last] + acc@) =~= (items@ + seq![last]) + acc@);
            }
            acc = List::Cons(Box::new(last), Box::new(acc));
        }
        proof {
            assert(items@ + acc@ =~= acc@);
        }
        acc
    }

    /// The items of `self` in their order.
    pub fn into_vec(self) -> (r: Vec<T>)
        ensures
            r@ == self@,
    {
        let mut out: Vec<T> = Vec::new();
        let ghost all = self@;
        let mut rest = self;
        loop
            invariant
                out@ + rest@ =~= all,
            ensures
                out@ =~= all,
            decreases rest,
        {
            match rest {
                List::Nil => {
                    proof {
                        assert(out@ + Seq::<T>::empty() =~= out@);
                    }
                    break ;
                },
                List::Cons(head, tail) => {
                    proof {
                        assert((out@ + seq![*head]) + tail@ =~= out@ + (seq![*head] + tail@));
                    }
                    out.push(*head);
                    rest = *tail;
                },
            }
        }
        out
    }
}

} // verus!
