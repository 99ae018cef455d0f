//! The mathematical model of the pallet's storage and of each of its calls.

use vstd::prelude::*;

use crate::dna::dna_mix;
use crate::types::{
    AccountId, Balance, DispatchError, Error, Event, Gender, KittyIndex, KittyView, MAX_KITTY_OWNED,
    NEED_LOCK_BALANCE,
};

verus! {

/// The pallet's storage: the kitty counter, the kitties by index, and the
/// list of kitties each account owns (empty for an account that owns none).
#[verifier::ext_equal]
pub struct PalletState {
    pub kitty_cnt: KittyIndex,
    pub kitties: Map<KittyIndex, KittyView>,
    pub owned: Map<AccountId, Seq<KittyIndex>>,
}

/// The storage of a chain on which no kitty was minted.
pub open spec fn empty_state() -> PalletState {
    PalletState {
        kitty_cnt: 0,
        kitties: Map::empty(),
        owned: Map::new(|a: AccountId| true, |a: AccountId| Seq::<KittyIndex>::empty()),
    }
}

impl PalletState {
    /// Kitty `id` exists and `who` owns it.
    pub open spec fn owns(self, who: AccountId, id: KittyIndex) -> bool {
        self.kitties.contains_key(id) && self.kitties[id].owner == who
    }

    /// What the pallet keeps of its storage: the kitties are exactly those
    /// numbered 1 to the counter; each account's list holds, once each, exactly
    /// the kitties it owns, and no more than `MAX_KITTY_OWNED`.
    pub open spec fn inv(self) -> bool {
        &&& forall|a: AccountId| #[trigger] self.owned.contains_key(a)
        &&& forall|id: KittyIndex| #[trigger]
            self.kitties.contains_key(id) <==> 1 <= id <= self.kitty_cnt
        &&& forall|a: AccountId, id: KittyIndex| #[trigger]
            self.owned[a].contains(id) <==> self.owns(a, id)
        &&& forall|a: AccountId| #[trigger] self.owned[a].no_duplicates()
        &&& forall|a: AccountId| #[trigger] self.owned[a].len() <= MAX_KITTY_OWNED
    }
}

/// The index of the first occurrence of `x` in `s` (meaningful when `s` contains `x`).
pub open spec fn first_index_of(s: Seq<KittyIndex>, x: KittyIndex) -> int {
    choose|i: int| 0 <= i < s.len() && s[i] == x && forall|j: int| 0 <= j < i ==> s[j] != x
}

/// `s` with its `i`-th element removed and the last element put in its place.
pub open spec fn swap_removed(s: Seq<KittyIndex>, i: int) -> Seq<KittyIndex> {
    s.update(i, s.last()).drop_last()
}

/// `is_kitty_owner`: whether `acct` owns kitty `id`, or `KittyNotExist`.
pub open spec fn is_kitty_owner_outcome(s: PalletState, id: KittyIndex, acct: AccountId) -> Result<
    bool,
    Error,
> {
    if s.kitties.contains_key(id) {
        Ok(s.kitties[id].owner == acct)
    } else {
        Err(Error::KittyNotExist)
    }
}

/// `mint`: a new kitty, not for sale, numbered one above the counter, goes to
/// `owner`; refused when the counter is at its maximum or `owner` owns the
/// most kitties an account may.
pub open spec fn mint_outcome(s: PalletState, owner: AccountId, dna: Seq<u8>, gender: Gender) -> (
    Result<KittyIndex, Error>,
    PalletState,
) {
    if s.kitty_cnt == u64::MAX {
        (Err(Error::KittyCntOverflow), s)
    } else if s.owned[owner].len() >= MAX_KITTY_OWNED {
        (Err(Error::ExceedMaxKittyOwned), s)
    } else {
        let id = (s.kitty_cnt + 1) as KittyIndex;
        (
            Ok(id),
            PalletState {
                kitty_cnt: id,
                kitties: s.kitties.insert(
                    id,
                    KittyView { dna: dna, price: None, gender: gender, owner: owner },
                ),
                owned: s.owned.insert(owner, s.owned[owner].push(id)),
            },
        )
    }
}

/// `set_price`: the owner of a kitty sets its asking price.
pub open spec fn set_price_outcome(
    s: PalletState,
    sender: AccountId,
    id: KittyIndex,
    price: Option<Balance>,
) -> (Result<Event, Error>, PalletState) {
    match is_kitty_owner_outcome(s, id, sender) {
        Err(e) => (Err(e), s),
        Ok(false) => (Err(Error::NotKittyOwner), s),
        Ok(true) => {
            let k = s.kitties[id];
            (
                Ok(Event::PriceSet(sender, id, price)),
                PalletState {
                    kitty_cnt: s.kitty_cnt,
                    kitties: s.kitties.insert(
                        id,
                        KittyView { dna: k.dna, price: price, gender: k.gender, owner: k.owner },
                    ),
                    owned: s.owned,
                },
            )
        },
    }
}

/// `transfer_kitty_to`: kitty `id` leaves its owner's list and joins that of
/// `to`, which becomes its owner, and it is no longer for sale.  When the
/// list of `to` is full, the kitty has already left its owner's list and been
/// given to `to`, and `ExceedMaxKittyOwned` is returned.
pub open spec fn transfer_kitty_to_outcome(s: PalletState, id: KittyIndex, to: AccountId) -> (
    Result<(), Error>,
    PalletState,
) {
    if !s.kitties.contains_key(id) {
        (Err(Error::KittyNotExist), s)
    } else {
        let k = s.kitties[id];
        let prev = k.owner;
        if prev == to {
            (Err(Error::TransferToSelf), s)
        } else if !s.owned[prev].contains(id) {
            (Err(Error::KittyNotExist), s)
        } else {
            let moved = PalletState {
                kitty_cnt: s.kitty_cnt,
                kitties: s.kitties.insert(
                    id,
                    KittyView { dna: k.dna, price: None, gender: k.gender, owner: to },
                ),
                owned: s.owned.insert(
                    prev,
                    swap_removed(s.owned[prev], first_index_of(s.owned[prev], id)),
                ),
            };
            if moved.owned[to].len() >= MAX_KITTY_OWNED {
                (Err(Error::ExceedMaxKittyOwned), moved)
            } else {
                (
                    Ok(()),
                    PalletState {
                        kitty_cnt: moved.kitty_cnt,
                        kitties: moved.kitties,
                        owned: moved.owned.insert(to, moved.owned[to].push(id)),
                    },
                )
            }
        }
    }
}

/// `transfer`: the owner of kitty `id` gives it to `to`, who must have room for
/// it; once given, `to` must hold the stake a kitty needs, or
/// `NotEnoughBalanceForStake` is returned with the kitty already given.
pub open spec fn transfer_outcome(
    s: PalletState,
    sender: AccountId,
    to: AccountId,
    id: KittyIndex,
    to_free_balance: Balance,
) -> (Result<Event, Error>, PalletState) {
    match is_kitty_owner_outcome(s, id, sender) {
        Err(e) => (Err(e), s),
        Ok(false) => (Err(Error::NotKittyOwner), s),
        Ok(true) => if s.owned[to].len() >= MAX_KITTY_OWNED {
            (Err(Error::ExceedMaxKittyOwned), s)
        } else {
            let t = transfer_kitty_to_outcome(s, id, to);
            match t.0 {
                Err(e) => (Err(e), t.1),
                Ok(_) => if to_free_balance < NEED_LOCK_BALANCE {
                    (Err(Error::NotEnoughBalanceForStake), t.1)
                } else {
                    (Ok(Event::Transferred(sender, to, id)), t.1)
                },
            }
        },
    }
}

/// The checks of `buy_kitty` before any payment: the kitty exists, the buyer
/// does not own it, it is for sale at no more than the bid, the buyer's free
/// balance covers the bid and the buyer has room for it.  Gives the seller.
pub open spec fn check_buy_outcome(
    s: PalletState,
    buyer: AccountId,
    id: KittyIndex,
    bid_price: Balance,
    buyer_free_balance: Balance,
) -> Result<AccountId, Error> {
    if !s.kitties.contains_key(id) {
        Err(Error::KittyNotExist)
    } else if s.kitties[id].owner == buyer {
        Err(Error::BuyerIsKittyOwner)
    } else if s.kitties[id].price is None {
        Err(Error::KittyNotForSale)
    } else if s.kitties[id].price->0 > bid_price {
        Err(Error::KittyBidPriceTooLow)
    } else if buyer_free_balance < bid_price {
        Err(Error::NotEnoughBalance)
    } else if s.owned[buyer].len() >= MAX_KITTY_OWNED {
        Err(Error::ExceedMaxKittyOwned)
    } else {
        Ok(s.kitties[id].owner)
    }
}

/// `buy_kitty`, given the outcome of paying the seller: on a refused check or a
/// refused payment nothing changes; otherwise the kitty goes to the buyer.
pub open spec fn buy_outcome(
    s: PalletState,
    buyer: AccountId,
    id: KittyIndex,
    bid_price: Balance,
    buyer_free_balance: Balance,
    payment: Result<(), DispatchError>,
) -> (Result<Event, DispatchError>, PalletState) {
    match check_buy_outcome(s, buyer, id, bid_price, buyer_free_balance) {
        Err(e) => (Err(DispatchError::Module(e)), s),
        Ok(seller) => match payment {
            Err(e) => (Err(e), s),
            Ok(_) => {
                let t = transfer_kitty_to_outcome(s, id, buyer);
                match t.0 {
                    Err(e) => (Err(DispatchError::Module(e)), s),
                    Ok(_) => (Ok(Event::Bought(buyer, seller, id, bid_price)), t.1),
                }
            },
        },
    }
}

/// `create_kitty`, given the sender's free balance and the drawn DNA and gender.
pub open spec fn create_outcome(
    s: PalletState,
    sender: AccountId,
    free_balance: Balance,
    dna: Seq<u8>,
    gender: Gender,
) -> (Result<Event, Error>, PalletState) {
    if free_balance < NEED_LOCK_BALANCE {
        (Err(Error::NotEnoughBalanceForStake), s)
    } else {
        let m = mint_outcome(s, sender, dna, gender);
        match m.0 {
            Err(e) => (Err(e), m.1),
            Ok(id) => (Ok(Event::Created(sender, id)), m.1),
        }
    }
}

/// `breed_dna`, given the drawn random DNA: the mix of both parents' DNA.
pub open spec fn breed_dna_outcome(
    s: PalletState,
    parent1: KittyIndex,
    parent2: KittyIndex,
    random_dna: Seq<u8>,
) -> Result<Seq<u8>, Error> {
    if !s.kitties.contains_key(parent1) || !s.kitties.contains_key(parent2) {
        Err(Error::KittyNotExist)
    } else {
        Ok(dna_mix(random_dna, s.kitties[parent1].dna, s.kitties[parent2].dna))
    }
}

/// `breed_kitty`, given the drawn random DNA and gender: the owner of both
/// parents gets a child of mixed DNA.
pub open spec fn breed_outcome(
    s: PalletState,
    sender: AccountId,
    parent1: KittyIndex,
    parent2: KittyIndex,
    random_dna: Seq<u8>,
    gender: Gender,
) -> (Result<KittyIndex, Error>, PalletState) {
    match is_kitty_owner_outcome(s, parent1, sender) {
        Err(e) => (Err(e), s),
        Ok(false) => (Err(Error::NotKittyOwner), s),
        Ok(true) => match is_kitty_owner_outcome(s, parent2, sender) {
            Err(e) => (Err(e), s),
            Ok(false) => (Err(Error::NotKittyOwner), s),
            Ok(true) => match breed_dna_outcome(s, parent1, parent2, random_dna) {
                Err(e) => (Err(e), s),
                Ok(child) => mint_outcome(s, sender, child, gender),
            },
        },
    }
}

/// What a dispatched call returns for the outcome of the pallet's logic.
pub open spec fn dispatched<T>(r: Result<T, Error>) -> Result<(), DispatchError> {
    match r {
        Ok(_) => Ok(()),
        Err(e) => Err(DispatchError::Module(e)),
    }
}

pub proof fn lemma_push_contains(s: Seq<KittyIndex>, v: KittyIndex, x: KittyIndex)
    ensures
        s.push(v).contains(x) <==> (s.contains(x) || x == v),
{
    if s.contains(x) {
        let i = choose|i: int| 0 <= i < s.len() && s[i] == x;
        assert(s.push(v)[i] == x);
    }
    if x == v {
        assert(s.push(v)[s.len() as int] == x);
    }
    if s.push(v).contains(x) {
        let i = choose|i: int| 0 <= i < s.push(v).len() && s.push(v)[i] == x;
        if i < s.len() {
            assert(s[i] == x);
        }
    }
}

pub proof fn lemma_push_fresh(s: Seq<KittyIndex>, v: KittyIndex)
    requires
        s.no_duplicates(),
        !s.contains(v),
    ensures
        s.push(v).no_duplicates(),
{
    let t = s.push(v);
    assert forall|i: int, j: int| 0 <= i < t.len() && 0 <= j < t.len() && i != j implies t[i]
        != t[j] by {
        if i < s.len() && j < s.len() {
            assert(t[i] == s[i] && t[j] == s[j]);
        } else if i < s.len() {
            assert(s.contains(t[i]));
        } else if j < s.len() {
            assert(s.contains(t[j]));
        }
    }
}

pub proof fn lemma_first_index(s: Seq<KittyIndex>, x: KittyIndex)
    requires
        s.contains(x),
    ensures
        0 <= first_index_of(s, x) < s.len(),
        s[first_index_of(s, x)] == x,
        forall|j: int| 0 <= j < first_index_of(s, x) ==> s[j] != x,
{
    let k = choose|k: int| 0 <= k < s.len() && s[k] == x;
    lemma_first_exists(s, x, k);
}

proof fn lemma_first_exists(s: Seq<KittyIndex>, x: KittyIndex, k: int)
    requires
        0 <= k < s.len(),
        s[k] == x,
    ensures
        exists|i: int| 0 <= i < s.len() && s[i] == x && forall|j: int| 0 <= j < i ==> s[j] != x,
    decreases k,
{
    if exists|j: int| 0 <= j < k && s[j] == x {
        let j = choose|j: int| 0 <= j < k && s[j] == x;
        lemma_first_exists(s, x, j);
    } else {
        assert(0 <= k < s.len() && s[k] == x && forall|j: int| 0 <= j < k ==> s[j] != x);
    }
}

pub proof fn lemma_swap_removed(s: Seq<KittyIndex>, i: int)
    requires
        s.no_duplicates(),
        0 <= i < s.len(),
    ensures
        swap_removed(s, i).len() == s.len() - 1,
        swap_removed(s, i).no_duplicates(),
        forall|y: KittyIndex| #[trigger]
            swap_removed(s, i).contains(y) <==> (s.contains(y) && y != s[i]),
{
    let r = swap_removed(s, i);
    let n = s.len() - 1;
    assert forall|a: int| 0 <= a < r.len() implies r[a] == (if a == i { s[n] } else { s[a] }) by {}
    assert forall|a: int, b: int| 0 <= a < r.len() && 0 <= b < r.len() && a != b implies r[a]
        != r[b] by {
        let ia = if a == i { n } else { a };
        let ib = if b == i { n } else { b };
        assert(r[a] == s[ia] && r[b] == s[ib]);
    }
    assert forall|y: KittyIndex| #[trigger] r.contains(y) <==> (s.contains(y) && y != s[i]) by {
        if r.contains(y) {
            let a = choose|a: int| 0 <= a < r.len() && r[a] == y;
            let ia = if a == i { n } else { a };
            assert(s[ia] == y);
        }
        if s.contains(y) && y != s[i] {
            let a = choose|a: int| 0 <= a < s.len() && s[a] == y;
            if a == n {
                assert(r[i] == y);
            } else {
                assert(r[a] == y);
            }
        }
    }
}

} // verus!
