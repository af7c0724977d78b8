use vstd::prelude::*;

verus! {

/// An immutable singly linked list. Unlike `Vec`, a value of this type is determined by its
/// elements, so types built from lists can be compared and rebuilt in specifications.
pub enum List<T> {
    Nil,
    Cons(T, Box<List<T>>),
}

impl<T> List<T> {
    /// The elements, first to last.
    pub open spec fn view(&self) -> Seq<T>
        decreases self,
    {
        match self {
            List::Nil => Seq::empty(),
            List::Cons(head, tail) => seq![*head] + tail.view(),
        }
    }

    /// The list with the given elements.
    pub open spec fn of(s: Seq<T>) -> List<T>
        decreases s.len(),
    {
        if s.len() == 0 {
            List::Nil
        } else {
            List::Cons(s[0], Box::new(List::of(s.drop_first())))
        }
    }

    /// A list is determined by its elements.
    pub broadcast proof fn of_view(l: List<T>)
        ensures
            List::of(#[trigger] l.view()) == l,
        decreases l,
    {
        match l {
            List::Nil => {},
            List::Cons(head, tail) => {
                Self::of_view(*tail);
                assert(l.view().drop_first() =~= tail.view());
            },
        }
    }

    /// Every sequence is the contents of a list.
    pub broadcast proof fn view_of(s: Seq<T>)
        ensures
            (#[trigger] List::of(s)).view() == s,
        decreases s.len(),
    {
        if s.len() > 0 {
            Self::view_of(s.drop_first());
            assert(seq![s[0]] + s.drop_first() =~= s);
        } else {
            assert(s =~= Seq::empty());
        }
    }

    /// Whether the list has no elements.
    pub fn is_empty(&self) -> (r: bool)
        ensures
            r == (self@.len() == 0),
    {
        match self {
            List::Nil => true,
            List::Cons(_, _) => false,
        }
    }

    /// The element at the given position.
    pub fn get(&self, index: usize) -> (r: Option<&T>)
        ensures
            index < self@.len() ==> r == Some(&self@[index as int]),
            index >= self@.len() ==> r is None,
        decreases self,
    {
        match self {
            List::Nil => None,
            List::Cons(head, tail) => {
                if index == 0 {
                    Some(head)
                } else {
                    assert(self@.len() == tail@.len() + 1);
                    tail.get(index - 1)
                }
            },
        }
    }

    /// The list with a single element.
    pub fn single(x: T) -> (r: List<T>)
        ensures
            r@ == seq![x],
            r == List::of(seq![x]),
    {
        let r: List<T> = List::Cons(x, Box::new(List::Nil));
        proof {
            let empty: List<T> = List::Nil;
            assert(empty@ =~= Seq::empty());
            assert(r@ =~= seq![x]);
            Self::of_view(r);
        }
        r
    }

    /// The list with the elements of a vector.
    pub fn from_vec(v: Vec<T>) -> (r: List<T>)
        ensures
            r@ == v@,
            r == List::of(v@),
    {
        let mut v = v;
        let mut out: List<T> = List::Nil;
        let ghost all = v@;
        assert(all.skip(all.len() as int) =~= Seq::empty());
        while v.len() > 0
            invariant
                v@.len() <= all.len(),
                v@ == all.take(v@.len() as int),
                out@ == all.skip(v@.len() as int),
            decreases v@.len(),
        {
            let ghost n = v@.len();
            if let Some(last) = v.pop() {
                out = List::Cons(last, Box::new(out));
                assert(v@ =~= all.take(n - 1));
                assert(out@ =~= all.skip(n - 1));
            }
        }
        assert(all.skip(0) =~= all);
        proof {
            Self::of_view(out);
        }
        out
    }
}

} // verus!
