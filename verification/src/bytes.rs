//! Byte vectors and maps from small numbers to them.

use std::collections::HashMap;
use vstd::prelude::*;

verus! {

/// A copy of some bytes.
pub fn copied(bytes: &[u8]) -> (copy: Vec<u8>)
    ensures
        copy@ == bytes@,
{
    let mut copy: Vec<u8> = Vec::new();
    let mut i: usize = 0;
    while i < bytes.len()
        invariant
            i <= bytes@.len(),
            copy@ =~= bytes@.take(i as int),
        decreases bytes@.len() - i,
    {
        copy.push(bytes[i]);
        i = i + 1;
    }
    proof {
        assert(bytes@.take(i as int) =~= bytes@);
    }
    copy
}

/// Byte vectors by the number of a command.
#[derive(Debug, Clone)]
pub struct ByteMap {
    values: HashMap<u8, Vec<u8>>,
}

impl View for ByteMap {
    type V = Map<u8, Seq<u8>>;

    closed spec fn view(&self) -> Map<u8, Seq<u8>> {
        self.values@.map_values(|v: Vec<u8>| v@)
    }
}

impl ByteMap {
    /// No values.
    pub fn new() -> (m: ByteMap)
        ensures
            m@ == Map::<u8, Seq<u8>>::empty(),
    {
        broadcast use vstd::std_specs::hash::group_hash_axioms;

        let m = ByteMap { values: HashMap::new() };
        proof {
            assert(m@ =~= Map::<u8, Seq<u8>>::empty());
        }
        m
    }

    /// Whether there is a value for a command.
    pub fn contains_key(&self, number: u8) -> (yes: bool)
        ensures
            yes == self@.contains_key(number),
    {
        broadcast use vstd::std_specs::hash::group_hash_axioms;

        self.values.contains_key(&number)
    }

    /// The value for a command.
    pub fn get(&self, number: u8) -> (value: Option<&Vec<u8>>)
        ensures
            match value {
                Some(v) => self@.contains_key(number) && v@ == self@[number],
                None => !self@.contains_key(number),
            },
    {
        broadcast use vstd::std_specs::hash::group_hash_axioms;

        self.values.get(&number)
    }

    /// Sets the value for a command.
    pub fn insert(&mut self, number: u8, value: Vec<u8>)
        ensures
            final(self)@ == old(self)@.insert(number, value@),
    {
        broadcast use vstd::std_specs::hash::group_hash_axioms;

        let _ = self.values.insert(number, value);
        proof {
            assert(self@ =~= old(self)@.insert(number, value@));
        }
    }
}

} // verus!
