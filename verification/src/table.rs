use crate::address::{AddressView, ContentAddress};
use vstd::prelude::*;

verus! {

struct Entry<H> {
    address: ContentAddress,
    handle: H,
}

/// The sessions built so far, each under the address of its model.
///
/// The table only grows, and a session that was stored under an address
/// stays there: a later insertion under the same address is turned away.
pub struct SessionTable<H> {
    entries: Vec<Entry<H>>,
}

impl<H> SessionTable<H> {
    /// No address occurs twice among the entries.
    #[verifier::type_invariant]
    spec fn distinct(self) -> bool {
        forall|i: int, j: int|
            0 <= i < j < self.entries@.len() ==> self.entries@[i].address@
                != self.entries@[j].address@
    }

    spec fn holds(self, key: AddressView) -> bool {
        exists|i: int| 0 <= i < self.entries@.len() && #[trigger] self.entries@[i].address@ == key
    }

    spec fn slot(self, key: AddressView) -> int {
        choose|i: int| 0 <= i < self.entries@.len() && #[trigger] self.entries@[i].address@ == key
    }

    /// The table as a map from addresses to sessions.
    pub closed spec fn view(&self) -> Map<AddressView, H> {
        Map::new(
            |key: AddressView| self.holds(key),
            |key: AddressView| self.entries@[self.slot(key)].handle,
        )
    }

    proof fn lemma_entry(self, i: int)
        requires
            self.distinct(),
            0 <= i < self.entries@.len(),
        ensures
            self@.dom().contains(self.entries@[i].address@),
            self@[self.entries@[i].address@] == self.entries@[i].handle,
    {
        let key = self.entries@[i].address@;
        assert(self.holds(key));
        let s = self.slot(key);
        assert(0 <= s < self.entries@.len() && self.entries@[s].address@ == key);
        assert(s == i);
    }

    /// An empty table.
    pub fn new() -> (r: Self)
        ensures
            r@ == Map::<AddressView, H>::empty(),
    {
        let r = SessionTable { entries: Vec::new() };
        assert(r@ =~= Map::<AddressView, H>::empty());
        r
    }

    fn position(&self, address: &ContentAddress) -> (r: Option<usize>)
        ensures
            r.is_some() == self.holds(address@),
            r.is_some() ==> r.unwrap() < self.entries@.len()
                && self.entries@[r.unwrap() as int].address@ == address@,
    {
        let mut i: usize = 0;
        while i < self.entries.len()
            invariant
                i <= self.entries@.len(),
                forall|j: int| 0 <= j < i ==> self.entries@[j].address@ != address@,
            decreases self.entries@.len() - i,
        {
            if self.entries[i].address.same(address) {
                return Some(i);
            }
            i += 1;
        }
        None
    }

    /// Whether a session is stored under `address`.
    pub fn contains(&self, address: &ContentAddress) -> (r: bool)
        ensures
            r == self@.dom().contains(address@),
    {
        self.position(address).is_some()
    }

    /// The session stored under `address`, if there is one.
    pub fn get(&self, address: &ContentAddress) -> (r: Option<&H>)
        ensures
            r.is_some() == self@.dom().contains(address@),
            r.is_some() ==> *r.unwrap() == self@[address@],
    {
        match self.position(address) {
            Some(i) => {
                proof {
                    use_type_invariant(self);
                    self.lemma_entry(i as int);
                }
                Some(&self.entries[i].handle)
            },
            None => None,
        }
    }

    /// Stores `handle` under `address` unless the address already has a
    /// session; says whether it was stored.
    pub fn insert(&mut self, address: ContentAddress, handle: H) -> (stored: bool)
        ensures
            stored == !old(self)@.dom().contains(address@),
            stored ==> final(self)@ == old(self)@.insert(address@, handle),
            !stored ==> final(self)@ == old(self)@,
    {
        proof {
            use_type_invariant(&*self);
        }
        if self.position(&address).is_some() {
            return false;
        }
        let ghost before = *self;
        let mut taken = SessionTable::new();
        std::mem::swap(self, &mut taken);
        let mut entries = taken.entries;
        entries.push(Entry { address, handle });
        let ghost after = SessionTable { entries };
        proof {
            let n = before.entries@.len() as int;
            assert(after.entries@ == before.entries@.push(Entry { address, handle }));
            assert(after.distinct());
            assert forall|key: AddressView| #[trigger]
                after@.dom().contains(key) == before@.insert(address@, handle).dom().contains(
                    key,
                ) by {
                if before.holds(key) {
                    let s = before.slot(key);
                    assert(after.entries@[s].address@ == key);
                }
                if key == address@ {
                    assert(after.entries@[n].address@ == key);
                }
            }
            assert forall|key: AddressView| #[trigger]
                after@.dom().contains(key) implies after@[key] == before@.insert(
                address@,
                handle,
            )[key] by {
                if key == address@ {
                    after.lemma_entry(n);
                } else {
                    let s = before.slot(key);
                    assert(before.holds(key));
                    before.lemma_entry(s);
                    after.lemma_entry(s);
                }
            }
            assert(after@ =~= before@.insert(address@, handle));
        }
        *self = SessionTable { entries };
        true
    }
}

} // verus!
