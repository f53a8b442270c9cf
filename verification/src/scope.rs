//! The call-scoped context.
//!
//! One engine invocation needs a shared environment — symbol interning
//! tables — reachable for its whole duration. A scope is established fresh
//! at call start, is exclusively owned by that call, and is consumed on
//! every exit path, so no interned state of one call is ever visible to the
//! next.

use vstd::prelude::*;

verus! {

/// A call-scoped global environment: the interning tables of one
/// invocation.
pub struct ContextScope {
    interned: Vec<String>,
}

impl View for ContextScope {
    type V = Seq<Seq<char>>;

    closed spec fn view(&self) -> Seq<Seq<char>> {
        self.interned@.map_values(|s: String| s@)
    }
}

impl ContextScope {
    /// Establishes a new scope: its interning tables start empty.
    pub fn enter() -> (r: Self)
        ensures
            r@ == Seq::<Seq<char>>::empty(),
    {
        let r = ContextScope { interned: Vec::new() };
        proof {
            assert(r@ =~= Seq::<Seq<char>>::empty());
        }
        r
    }

    /// How many symbols this scope has interned.
    pub fn len(&self) -> (n: usize)
        ensures
            n == self@.len(),
    {
        self.interned.len()
    }

    /// Interns a symbol, handing back its index.
    pub fn intern(&mut self, symbol: String) -> (idx: usize)
        ensures
            final(self)@ == old(self)@.push(symbol@),
            idx == old(self)@.len(),
    {
        let ghost sv = symbol@;
        let idx = self.interned.len();
        self.interned.push(symbol);
        proof {
            assert(self.interned@.map_values(|s: String| s@) =~= old(self).interned@.map_values(
                |s: String| s@,
            ).push(sv));
        }
        idx
    }

    /// An interned symbol, by its index.
    pub fn symbol(&self, idx: usize) -> (s: &String)
        requires
            idx < self@.len(),
        ensures
            s@ == self@[idx as int],
    {
        &self.interned[idx]
    }
}

} // verus!
