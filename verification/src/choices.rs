//! The ordered list of user-entered choices, with index-bounded
//! insert-or-replace.

use crate::errors::UserError;
use vstd::prelude::*;

verus! {

/// An ordered, zero-indexed sequence of text choices. Choices need not be
/// unique. Its view is the sequence of the choices' character sequences.
pub struct ChoiceList {
    items: Vec<String>,
}

impl View for ChoiceList {
    type V = Seq<Seq<char>>;

    closed spec fn view(&self) -> Seq<Seq<char>> {
        Seq::new(self.items@.len(), |i: int| self.items@[i]@)
    }
}

impl ChoiceList {
    /// A new, empty list.
    pub fn new() -> (r: ChoiceList)
        ensures
            r@ == Seq::<Seq<char>>::empty(),
    {
        let r = ChoiceList { items: Vec::new() };
        proof {
            assert(r@ =~= Seq::<Seq<char>>::empty());
        }
        r
    }

    /// How many choices the list holds.
    pub fn len(&self) -> (r: usize)
        ensures
            r == self@.len(),
    {
        self.items.len()
    }

    /// Whether the list holds no choice; used to gate random selection.
    pub fn is_empty(&self) -> (r: bool)
        ensures
            r == (self@.len() == 0),
    {
        self.items.len() == 0
    }

    /// If `index` equals the length, appends `text`; if `index` is below the
    /// length, replaces the entry at `index`; if `index` lies past the
    /// length, rejects the command and leaves the list unchanged.
    pub fn insert_or_replace(&mut self, index: usize, text: String) -> (r: Result<(), UserError>)
        ensures
            index == old(self)@.len() ==> r == Ok::<(), UserError>(()) && final(self)@
                == old(self)@.push(text@),
            index < old(self)@.len() ==> r == Ok::<(), UserError>(()) && final(self)@
                == old(self)@.update(index as int, text@),
            index > old(self)@.len() ==> r == Err::<(), UserError>(UserError::IndexOutOfRange)
                && final(self)@ == old(self)@,
    {
        let n = self.items.len();
        if index == n {
            self.items.push(text);
            proof {
                assert(self@ =~= old(self)@.push(text@));
            }
            Ok(())
        } else if index < n {
            self.items.set(index, text);
            proof {
                assert(self@ =~= old(self)@.update(index as int, text@));
            }
            Ok(())
        } else {
            Err(UserError::IndexOutOfRange)
        }
    }

    /// A snapshot of all choices, in order.
    pub fn get_all(&self) -> (r: Vec<String>)
        ensures
            r@.len() == self@.len(),
            forall|i: int| 0 <= i < r@.len() ==> r@[i]@ == self@[i],
    {
        let mut out: Vec<String> = Vec::new();
        let n = self.items.len();
        let mut i: usize = 0;
        while i < n
            invariant
                n == self.items@.len(),
                i <= n,
                out@.len() == i,
                forall|j: int| 0 <= j < i ==> out@[j]@ == self@[j],
            decreases n - i,
        {
            out.push(self.items[i].clone());
            i = i + 1;
        }
        out
    }

    /// The choice at `index`, cloned.
    pub fn get(&self, index: usize) -> (r: String)
        requires
            index < self@.len(),
        ensures
            r@ == self@[index as int],
    {
        self.items[index].clone()
    }
}

} // verus!
