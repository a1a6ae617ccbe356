//! A map keyed by the address of a device.
//!
//! The map holds its entries in a vector, each address once, the entry set
//! last at the end. A session knows a handful of devices, so a scan finds an
//! entry as fast as a hash would.

use crate::text::same_text;
use vstd::prelude::*;

verus! {

/// Values by device address.
#[derive(Debug, Clone)]
pub struct AddressMap<V> {
    entries: Vec<(String, V)>,
}

impl<V: View> View for AddressMap<V> {
    type V = Map<Seq<char>, V::V>;

    closed spec fn view(&self) -> Map<Seq<char>, V::V> {
        Map::new(
            |k: Seq<char>| exists|i: int| holds(self.entries@, i, k),
            |k: Seq<char>| self.entries@[choose|i: int| holds(self.entries@, i, k)].1@,
        )
    }
}

/// Whether entry `i` is the one of address `k`.
spec fn holds<V>(entries: Seq<(String, V)>, i: int, k: Seq<char>) -> bool {
    0 <= i < entries.len() && entries[i].0@ == k
}

impl<V: View> AddressMap<V> {
    /// No address occurs twice.
    pub closed spec fn wf(&self) -> bool {
        forall|i: int, j: int|
            0 <= i < self.entries@.len() && 0 <= j < self.entries@.len() && i != j
                ==> self.entries@[i].0@ != self.entries@[j].0@
    }

    /// The addresses in the order of the entries.
    pub closed spec fn addresses(&self) -> Seq<Seq<char>> {
        self.entries@.map_values(|e: (String, V)| e.0@)
    }

    /// What the order of the addresses says: each key once, and nothing else.
    pub proof fn lemma_addresses(&self)
        requires
            self.wf(),
        ensures
            self.addresses().no_duplicates(),
            forall|k: Seq<char>|
                #[trigger] self@.contains_key(k) <==> self.addresses().contains(k),
            self@.dom().finite(),
            self@.dom().len() == self.addresses().len(),
    {
        let a = self.addresses();
        assert forall|k: Seq<char>| #[trigger] self@.contains_key(k) implies a.contains(k) by {
            let i = choose|i: int| holds(self.entries@, i, k);
            assert(a[i] == k);
        }
        assert forall|k: Seq<char>| a.contains(k) implies #[trigger] self@.contains_key(k) by {
            let i = choose|i: int| 0 <= i < a.len() && a[i] == k;
            assert(holds(self.entries@, i, k));
        }
        assert(self@.dom() =~= a.to_set());
        a.unique_seq_to_set();
    }

    proof fn lemma_entry(&self, i: int)
        requires
            self.wf(),
            0 <= i < self.entries@.len(),
        ensures
            self@.contains_key(self.entries@[i].0@),
            self@[self.entries@[i].0@] == self.entries@[i].1@,
    {
        let k = self.entries@[i].0@;
        assert(holds(self.entries@, i, k));
        let j = choose|j: int| holds(self.entries@, j, k);
        assert(i == j);
    }

    /// A map without entries.
    pub fn new() -> (m: AddressMap<V>)
        ensures
            m.wf(),
            m@ == Map::<Seq<char>, V::V>::empty(),
    {
        let m = AddressMap { entries: Vec::new() };
        proof {
            assert(m@ =~= Map::<Seq<char>, V::V>::empty());
        }
        m
    }

    /// The number of entries.
    pub fn len(&self) -> (n: usize)
        ensures
            n == self.addresses().len(),
    {
        self.entries.len()
    }

    /// Whether there are no entries.
    pub fn is_empty(&self) -> (empty: bool)
        requires
            self.wf(),
        ensures
            empty == (self@ == Map::<Seq<char>, V::V>::empty()),
    {
        if self.entries.len() == 0 {
            proof {
                assert(self@ =~= Map::<Seq<char>, V::V>::empty());
            }
            true
        } else {
            proof {
                self.lemma_entry(0);
            }
            false
        }
    }

    fn position(&self, address: &str) -> (at: Option<usize>)
        requires
            self.wf(),
        ensures
            match at {
                Some(i) => i < self.entries@.len() && self.entries@[i as int].0@ == address@
                    && self@.contains_key(address@) && self@[address@]
                    == self.entries@[i as int].1@,
                None => !self@.contains_key(address@),
            },
    {
        let mut i: usize = 0;
        while i < self.entries.len()
            invariant
                self.wf(),
                i <= self.entries@.len(),
                forall|k: int| 0 <= k < i ==> self.entries@[k].0@ != address@,
            decreases self.entries@.len() - i,
        {
            if same_text(self.entries[i].0.as_str(), address) {
                proof {
                    self.lemma_entry(i as int);
                }
                return Some(i);
            }
            i = i + 1;
        }
        None
    }

    /// Whether there is an entry for the address.
    pub fn contains_key(&self, address: &str) -> (yes: bool)
        requires
            self.wf(),
        ensures
            yes == self@.contains_key(address@),
    {
        self.position(address).is_some()
    }

    /// The value of the address.
    pub fn get(&self, address: &str) -> (value: Option<&V>)
        requires
            self.wf(),
        ensures
            match value {
                Some(v) => self@.contains_key(address@) && v@ == self@[address@],
                None => !self@.contains_key(address@),
            },
    {
        match self.position(address) {
            Some(i) => Some(&self.entries[i].1),
            None => None,
        }
    }

    /// The address at a place in the order of the entries.
    pub fn address_at(&self, i: usize) -> (address: &String)
        requires
            i < self.addresses().len(),
        ensures
            address@ == self.addresses()[i as int],
    {
        &self.entries[i].0
    }

    /// The value at a place in the order of the entries.
    pub fn value_at(&self, i: usize) -> (value: &V)
        requires
            self.wf(),
            i < self.addresses().len(),
        ensures
            self@.contains_key(self.addresses()[i as int]),
            value@ == self@[self.addresses()[i as int]],
    {
        proof {
            self.lemma_entry(i as int);
        }
        &self.entries[i].1
    }

    /// Sets the value of the address.
    pub fn insert(&mut self, address: String, value: V)
        requires
            old(self).wf(),
        ensures
            final(self).wf(),
            final(self)@ == old(self)@.insert(address@, value@),
    {
        let ghost before = *self;
        self.remove(address.as_str());
        let ghost middle = *self;
        self.entries.push((address, value));
        proof {
            let n = middle.entries@.len() as int;
            assert(self.entries@[n].0@ == address@);
            assert forall|i: int, j: int|
                0 <= i < self.entries@.len() && 0 <= j < self.entries@.len() && i
                    != j implies self.entries@[i].0@ != self.entries@[j].0@ by {
                if i < n {
                    middle.lemma_entry(i);
                }
                if j < n {
                    middle.lemma_entry(j);
                }
            }
            assert forall|k: Seq<char>|
                self@.contains_key(k) == before@.insert(address@, value@).contains_key(k) by {
                if self@.contains_key(k) {
                    let i = choose|i: int| holds(self.entries@, i, k);
                    if i < n {
                        middle.lemma_entry(i);
                    }
                }
                if k == address@ {
                    assert(holds(self.entries@, n, k));
                } else if middle@.contains_key(k) {
                    let i = choose|i: int| holds(middle.entries@, i, k);
                    assert(holds(self.entries@, i, k));
                }
            }
            assert forall|k: Seq<char>| self@.contains_key(k) implies self@[k] == before@.insert(
                address@,
                value@,
            )[k] by {
                let i = choose|i: int| holds(self.entries@, i, k);
                self.lemma_entry(i);
                if i < n {
                    middle.lemma_entry(i);
                }
            }
            assert(self@ =~= before@.insert(address@, value@));
        }
    }

    /// Takes the entry of the address out.
    pub fn remove(&mut self, address: &str) -> (value: Option<V>)
        requires
            old(self).wf(),
        ensures
            final(self).wf(),
            final(self)@ == old(self)@.remove(address@),
            match value {
                Some(v) => old(self)@.contains_key(address@) && v@ == old(self)@[address@],
                None => !old(self)@.contains_key(address@),
            },
    {
        let ghost before = *self;
        match self.position(address) {
            None => {
                proof {
                    assert(self@ =~= before@.remove(address@));
                }
                None
            },
            Some(at) => {
                let taken = self.entries.remove(at);
                proof {
                    let es = before.entries@;
                    assert(self.entries@ =~= es.remove(at as int));
                    assert forall|i: int, j: int|
                        0 <= i < self.entries@.len() && 0 <= j < self.entries@.len() && i
                            != j implies self.entries@[i].0@ != self.entries@[j].0@ by {
                        let i0 = if i < at {
                            i
                        } else {
                            i + 1
                        };
                        let j0 = if j < at {
                            j
                        } else {
                            j + 1
                        };
                        assert(es[i0].0@ != es[j0].0@);
                    }
                    assert forall|k: Seq<char>| self@.contains_key(k) implies #[trigger] before@.remove(
                        address@,
                    ).contains_key(k) && self@[k] == before@[k] by {
                        let i = choose|i: int| holds(self.entries@, i, k);
                        self.lemma_entry(i);
                        let i0 = if i < at {
                            i
                        } else {
                            i + 1
                        };
                        before.lemma_entry(i0);
                        assert(es[i0].0@ != es[at as int].0@);
                    }
                    assert forall|k: Seq<char>|
                        #[trigger] before@.remove(address@).contains_key(k) implies self@.contains_key(k) by {
                        let i = choose|i: int| holds(es, i, k);
                        let i1 = if i < at {
                            i
                        } else {
                            i - 1
                        };
                        assert(holds(self.entries@, i1, k));
                    }
                    assert(self@ =~= before@.remove(address@));
                }
                Some(taken.1)
            },
        }
    }
}

} // verus!
