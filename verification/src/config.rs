//! The fixed-order rotation: a declared sequence of identities that is
//! consumed front to back. Only the identity at the front may be granted, and
//! a grant moves the front on by one.

use vstd::prelude::*;

verus! {

/// The identities that `names` hold, as plain character sequences.
pub open spec fn identities(names: Seq<String>) -> Seq<Seq<char>> {
    Seq::new(names.len(), |i: int| names[i]@)
}

/// A rotation. The declared order lists the earliest turn first; it is kept
/// back to front, so that the next turn is taken from the end of the list.
pub struct Config {
    order: Vec<String>,
}

impl View for Config {
    type V = Seq<Seq<char>>;

    /// The identities whose turn is still to come, the next one first.
    closed spec fn view(&self) -> Seq<Seq<char>> {
        identities(self.order@).reverse()
    }
}

impl Config {
    /// The rotation without any turn: no identity is ever authorized.
    pub fn new() -> (config: Config)
        ensures
            config@ == Seq::<Seq<char>>::empty(),
    {
        Config { order: Vec::new() }
    }

    /// The rotation that serves `declared` in the order in which it is
    /// written: its first identity has the first turn.
    pub fn from_order(declared: Vec<String>) -> (config: Config)
        ensures
            config@ == identities(declared@),
    {
        let mut declared = declared;
        let ghost turns = identities(declared@);
        let mut order: Vec<String> = Vec::new();
        while declared.len() > 0
            invariant
                identities(declared@) + identities(order@).reverse() == turns,
            decreases declared.len(),
        {
            let name = declared.pop().unwrap();
            order.push(name);
        }
        Config { order }
    }

    /// The number of turns that are still to come.
    pub fn len(&self) -> (turns: usize)
        ensures
            turns == self@.len(),
    {
        self.order.len()
    }

    /// Takes the next turn out of the rotation and returns its identity, or
    /// `None` when every turn has been taken.
    pub fn next(&mut self) -> (turn: Option<String>)
        ensures
            old(self)@.len() == 0 ==> turn is None && final(self)@ == old(self)@,
            old(self)@.len() > 0 ==> turn is Some && turn->0@ == old(self)@.first(),
            old(self)@.len() > 0 ==> final(self)@ == old(self)@.drop_first(),
    {
        self.order.pop()
    }

    /// Whether the next turn is `node_name`'s. With no turn left nobody is
    /// authorized.
    pub fn is_authorized(&self, node_name: &str) -> (authorized: bool)
        ensures
            authorized == (self@.len() > 0 && self@.first() == node_name@),
    {
        let turns = self.order.len();
        if turns == 0 {
            false
        } else {
            let last: &String = &self.order[turns - 1];
            let name: String = node_name.to_owned();
            *last == name
        }
    }
}

} // verus!
