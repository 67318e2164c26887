//! The ledger: a keyed presence map from address to account. An account is
//! created at an address at most once, and none is ever removed.

use vstd::prelude::*;
use crate::address::{same_address, Address};
use crate::error::KisanError;
use crate::state::{Account, AccountView, TokenAccount, TokenAccountView};

verus! {

/// One occupied address.
struct Slot {
    address: Address,
    account: Account,
}

/// The accounts that exist, each at its address.
///
/// Its view is the map from the bytes of each occupied address to the
/// account kept there.
pub struct Ledger {
    slots: Vec<Slot>,
}

/// Slot `i` exists and is the one of `address`.
spec fn held_at(slots: Seq<Slot>, address: Seq<u8>, i: int) -> bool {
    0 <= i < slots.len() && slots[i].address@ == address
}

/// No address occupies two slots.
spec fn distinct(slots: Seq<Slot>) -> bool {
    forall|i: int, j: int| 0 <= i < j < slots.len() ==> slots[i].address@ != slots[j].address@
}

/// The map that the slots stand for.
spec fn as_map(slots: Seq<Slot>) -> Map<Seq<u8>, AccountView> {
    Map::new(
        |address: Seq<u8>| exists|i: int| held_at(slots, address, i),
        |address: Seq<u8>| slots[choose|i: int| held_at(slots, address, i)].account@,
    )
}

proof fn lemma_held(slots: Seq<Slot>, i: int)
    requires
        distinct(slots),
        0 <= i < slots.len(),
    ensures
        as_map(slots).dom().contains(slots[i].address@),
        as_map(slots)[slots[i].address@] == slots[i].account@,
{
    assert(held_at(slots, slots[i].address@, i));
}

proof fn lemma_vacant(slots: Seq<Slot>, address: Seq<u8>)
    requires
        forall|i: int| 0 <= i < slots.len() ==> slots[i].address@ != address,
    ensures
        !as_map(slots).dom().contains(address),
{
    assert forall|i: int| !held_at(slots, address, i) by {}
}

proof fn lemma_push(slots: Seq<Slot>, slot: Slot)
    requires
        distinct(slots),
        !as_map(slots).dom().contains(slot.address@),
    ensures
        distinct(slots.push(slot)),
        as_map(slots.push(slot)) =~= as_map(slots).insert(slot.address@, slot.account@),
{
    let grown = slots.push(slot);
    assert forall|i: int| 0 <= i < slots.len() implies slots[i].address@ != slot.address@ by {
        assert(held_at(slots, slots[i].address@, i));
    }
    assert forall|address: Seq<u8>| #[trigger]
        as_map(grown).dom().contains(address) <==> as_map(slots).insert(
            slot.address@,
            slot.account@,
        ).dom().contains(address) by {
        if as_map(grown).dom().contains(address) {
            let i = choose|i: int| held_at(grown, address, i);
            if i < slots.len() {
                assert(held_at(slots, address, i));
            }
        }
        if as_map(slots).dom().contains(address) {
            let i = choose|i: int| held_at(slots, address, i);
            assert(held_at(grown, address, i));
        }
        if address == slot.address@ {
            assert(held_at(grown, address, slots.len() as int));
        }
    }
    assert forall|address: Seq<u8>| #[trigger]
        as_map(grown).dom().contains(address) implies as_map(grown)[address] == as_map(
            slots,
        ).insert(slot.address@, slot.account@)[address] by {
        let i = choose|i: int| held_at(grown, address, i);
        lemma_held(grown, i);
        if i < slots.len() {
            lemma_held(slots, i);
        }
    }
}

proof fn lemma_replace(slots: Seq<Slot>, i: int, slot: Slot)
    requires
        distinct(slots),
        0 <= i < slots.len(),
        slot.address@ == slots[i].address@,
    ensures
        distinct(slots.update(i, slot)),
        as_map(slots.update(i, slot)) =~= as_map(slots).insert(slot.address@, slot.account@),
{
    let changed = slots.update(i, slot);
    assert forall|address: Seq<u8>| #[trigger]
        as_map(changed).dom().contains(address) <==> as_map(slots).insert(
            slot.address@,
            slot.account@,
        ).dom().contains(address) by {
        if as_map(changed).dom().contains(address) {
            let k = choose|k: int| held_at(changed, address, k);
            assert(held_at(slots, address, k));
        }
        if as_map(slots).dom().contains(address) {
            let k = choose|k: int| held_at(slots, address, k);
            assert(held_at(changed, address, k));
        }
        if address == slot.address@ {
            assert(held_at(changed, address, i));
        }
    }
    assert forall|address: Seq<u8>| #[trigger]
        as_map(changed).dom().contains(address) implies as_map(changed)[address] == as_map(
            slots,
        ).insert(slot.address@, slot.account@)[address] by {
        let k = choose|k: int| held_at(changed, address, k);
        lemma_held(changed, k);
        lemma_held(slots, k);
    }
}

impl View for Ledger {
    type V = Map<Seq<u8>, AccountView>;

    closed spec fn view(&self) -> Map<Seq<u8>, AccountView> {
        as_map(self.slots@)
    }
}

impl Ledger {
    #[verifier::type_invariant]
    spec fn well_formed(self) -> bool {
        distinct(self.slots@)
    }

    /// A ledger without accounts.
    pub fn new() -> (ledger: Ledger)
        ensures
            ledger@ == Map::<Seq<u8>, AccountView>::empty(),
    {
        let ledger = Ledger { slots: Vec::new() };
        proof {
            lemma_vacant_all(ledger.slots@);
        }
        ledger
    }

    /// The slot of `address`, if it is occupied.
    fn find(&self, address: &Address) -> (found: Option<usize>)
        ensures
            match found {
                Some(i) => held_at(self.slots@, address@, i as int),
                None => forall|i: int| 0 <= i < self.slots@.len() ==> self.slots@[i].address@ != address@,
            },
    {
        let mut i: usize = 0;
        while i < self.slots.len()
            invariant
                i <= self.slots@.len(),
                forall|k: int| 0 <= k < i ==> self.slots@[k].address@ != address@,
            decreases self.slots@.len() - i,
        {
            if same_address(&self.slots[i].address, address) {
                return Some(i);
            }
            i += 1;
        }
        None
    }

    /// Whether `address` holds an account.
    pub fn contains(&self, address: &Address) -> (held: bool)
        ensures
            held == self@.dom().contains(address@),
    {
        self.account(address).is_some()
    }

    /// The account at `address`, if there is one.
    pub fn account(&self, address: &Address) -> (found: Option<Account>)
        ensures
            match found {
                Some(account) => self@.dom().contains(address@) && self@[address@] == account@,
                None => !self@.dom().contains(address@),
            },
    {
        proof {
            use_type_invariant(self);
        }
        match self.find(address) {
            Some(i) => {
                proof {
                    lemma_held(self.slots@, i as int);
                }
                Some(self.slots[i].account)
            },
            None => {
                proof {
                    lemma_vacant(self.slots@, address@);
                }
                None
            },
        }
    }

    /// Writes `account` at `address`, whether or not the address was
    /// occupied. Creation and update of the program's own accounts go through
    /// the operations of the program, which decide whether a write is due.
    pub(crate) fn put(&mut self, address: &Address, account: Account)
        ensures
            final(self)@ == old(self)@.insert(address@, account@),
    {
        proof {
            use_type_invariant(&*self);
        }
        let slot = Slot { address: *address, account };
        let found = self.find(address);
        let mut slots: Vec<Slot> = Vec::new();
        std::mem::swap(&mut self.slots, &mut slots);
        match found {
            Some(i) => {
                proof {
                    lemma_replace(slots@, i as int, slot);
                }
                slots[i] = slot;
            },
            None => {
                proof {
                    lemma_vacant(slots@, address@);
                    lemma_push(slots@, slot);
                }
                slots.push(slot);
            },
        }
        self.slots = slots;
    }

    /// Opens an empty token account of `mint` for `owner` at `address`.
    /// Fails with `AddressInUse`, changing nothing, where the address is
    /// occupied.
    pub fn open_token_account(&mut self, address: &Address, mint: &Address, owner: &Address) -> (outcome: Result<(), KisanError>)
        ensures
            !old(self)@.dom().contains(address@) ==> outcome is Ok && final(self)@ == old(self)@.insert(
                address@,
                AccountView::Token(TokenAccountView::fresh(mint@, owner@)),
            ),
            old(self)@.dom().contains(address@) ==> outcome == Err::<(), KisanError>(KisanError::AddressInUse)
                && final(self)@ == old(self)@,
    {
        if self.contains(address) {
            return Err(KisanError::AddressInUse);
        }
        self.put(address, Account::Token(TokenAccount::new(*mint, *owner)));
        Ok(())
    }
}

proof fn lemma_vacant_all(slots: Seq<Slot>)
    requires
        slots.len() == 0,
    ensures
        as_map(slots) =~= Map::<Seq<u8>, AccountView>::empty(),
{
    assert forall|address: Seq<u8>| !as_map(slots).dom().contains(address) by {
        lemma_vacant(slots, address);
    }
}

} // verus!
