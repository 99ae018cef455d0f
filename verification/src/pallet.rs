//! The pallet: its storage and its calls.

use std::collections::HashMap;
use vstd::prelude::*;

use crate::config::Config;
use crate::dna::{dna_from_seed, dna_of, gender_from_random, gender_of, mix_dna};
use crate::model::{
    breed_dna_outcome, breed_outcome, check_buy_outcome, create_outcome, dispatched,
    empty_state, is_kitty_owner_outcome, lemma_first_index, mint_outcome, set_price_outcome,
    transfer_kitty_to_outcome, transfer_outcome, buy_outcome, first_index_of, PalletState,
};
use crate::laws::{
    law_mint_keeps_invariant, law_set_price_keeps_invariant, law_transfer_keeps_invariant,
    law_transfer_kitty_to_keeps_invariant,
};
use crate::owned::{
    owned_clone, owned_get, owned_ids, owned_len, owned_new, owned_swap_remove, owned_try_push,
    OwnedKitties,
};
use crate::types::{
    ensure_signed, signer, AccountId, Balance, DispatchError, Error, Event, Gender, Kitty,
    KittyIndex, LockIdentifier, Origin, ALL_WITHDRAW_REASONS, KITTIES_ID, MAX_KITTY_OWNED,
    NEED_LOCK_BALANCE,
};

verus! {

broadcast use vstd::std_specs::hash::group_hash_axioms;

/// The pallet's storage: `KittyCnt`, `Kitties` and `KittiesOwned`.
pub struct Pallet {
    kitty_cnt: KittyIndex,
    kitties: HashMap<KittyIndex, Kitty>,
    kitties_owned: HashMap<AccountId, OwnedKitties>,
}

/// The list an account has in `KittiesOwned`; the empty list when it has none.
pub open spec fn owned_in(m: Map<AccountId, OwnedKitties>, who: AccountId) -> Seq<KittyIndex> {
    if m.contains_key(who) {
        owned_ids(m[who])
    } else {
        Seq::<KittyIndex>::empty()
    }
}

impl View for Pallet {
    type V = PalletState;

    closed spec fn view(&self) -> PalletState {
        PalletState {
            kitty_cnt: self.kitty_cnt,
            kitties: self.kitties@.map_values(|k: Kitty| k@),
            owned: Map::new(|a: AccountId| true, |a: AccountId| owned_in(self.kitties_owned@, a)),
        }
    }
}

/// The outcome of a dispatched call that deposits an event on success: its
/// result is that of the pallet's logic, and storage is what the logic leaves.
pub open spec fn dispatch_matches(
    outcome: (Result<Event, Error>, PalletState),
    r: Result<(), DispatchError>,
    post: PalletState,
) -> bool {
    r == dispatched(outcome.0) && post == outcome.1
}

/// A DNA result as a result on byte sequences.
pub open spec fn dna_result(r: Result<[u8; 16], Error>) -> Result<Seq<u8>, Error> {
    match r {
        Ok(d) => Ok(d@),
        Err(e) => Err(e),
    }
}

/// The bytes of the subject `"gender"` for which a kitty's gender is drawn.
pub open spec fn gender_subject() -> Seq<u8> {
    seq![103u8, 101u8, 110u8, 100u8, 101u8, 114u8]
}

/// The DNA the runtime's randomness gives in state `rt`: from its random seed
/// (with the block that seed was drawn at) and its current block number.
pub open spec fn drawn_dna<T: Config>(rt: T) -> Seq<u8> {
    dna_of(rt.spec_random_seed().0@, rt.spec_random_seed().1, rt.spec_block_number())
}

/// The gender the runtime's randomness gives in state `rt`: from its random
/// value for the subject `"gender"`.
pub open spec fn drawn_gender<T: Config>(rt: T) -> Gender {
    gender_of(rt.spec_random(choose|s: &[u8]| s@ == gender_subject()).0@)
}

/// Between `pre` and `post` the runtime deposited the pallet events `events`
/// and changed neither balances, locks, block number nor system log.
pub open spec fn reports<T: Config>(pre: T, post: T, events: Seq<Event>) -> bool {
    &&& post.spec_events()@ == pre.spec_events()@ + events
    &&& forall|w: AccountId| #[trigger]
        post.spec_free_balance(w) == pre.spec_free_balance(w)
    &&& forall|i: LockIdentifier, w: AccountId| #[trigger]
        post.spec_lock(i, w) == pre.spec_lock(i, w)
    &&& post.spec_block_number() == pre.spec_block_number()
    &&& post.spec_system_log()@ == pre.spec_system_log()@
}

/// Between `pre` and `post` the runtime locked the stake a kitty needs on the
/// balance of `who` under `KITTIES_ID`, against every kind of withdrawal
/// (other locks unchanged), and deposited
/// the event `e`; balances, block number and system log did not change.
pub open spec fn stakes_and_reports<T: Config>(pre: T, post: T, who: AccountId, e: Event) -> bool {
    &&& post.spec_lock(KITTIES_ID, who) == (NEED_LOCK_BALANCE as Balance, ALL_WITHDRAW_REASONS)
    &&& forall|i: LockIdentifier, w: AccountId|
        !(i == KITTIES_ID && w == who) ==> #[trigger] post.spec_lock(i, w) == pre.spec_lock(i, w)
    &&& post.spec_events()@ == pre.spec_events()@.push(e)
    &&& forall|w: AccountId| #[trigger]
        post.spec_free_balance(w) == pre.spec_free_balance(w)
    &&& post.spec_block_number() == pre.spec_block_number()
    &&& post.spec_system_log()@ == pre.spec_system_log()@
}

/// However often creation succeeds, the creator carries a single stake: after
/// a run of successful creations by `who`, each locking the stake and
/// reporting one event, the lock under `KITTIES_ID` is the stake against
/// every withdrawal (not a multiple of it), no other lock and no free balance
/// has changed, and the events are those reported, in order.
pub proof fn law_repeated_creation_keeps_one_stake<T: Config>(
    states: Seq<T>,
    who: AccountId,
    events: Seq<Event>,
)
    requires
        states.len() >= 2,
        events.len() == states.len() - 1,
        forall|i: int|
            0 <= i < states.len() - 1 ==> #[trigger] stakes_and_reports(
                states[i],
                states[i + 1],
                who,
                events[i],
            ),
    ensures
        states.last().spec_lock(KITTIES_ID, who) == (
            NEED_LOCK_BALANCE as Balance,
            ALL_WITHDRAW_REASONS,
        ),
        forall|w: AccountId| #[trigger]
            states.last().spec_free_balance(w) == states[0].spec_free_balance(w),
        forall|i: LockIdentifier, w: AccountId|
            !(i == KITTIES_ID && w == who) ==> #[trigger] states.last().spec_lock(i, w)
                == states[0].spec_lock(i, w),
        states.last().spec_events()@ == states[0].spec_events()@ + events,
    decreases states.len(),
{
    let n = states.len() as int;
    let k = n - 2;
    assert(stakes_and_reports(states[k], states[k + 1], who, events[k]));
    assert(states[k + 1] == states.last());
    if n == 2 {
        assert(events =~= seq![events[0]]);
    } else {
        let front = states.drop_last();
        let evs = events.drop_last();
        assert forall|i: int| 0 <= i < front.len() - 1 implies #[trigger] stakes_and_reports(
            front[i],
            front[i + 1],
            who,
            evs[i],
        ) by {
            assert(stakes_and_reports(states[i], states[i + 1], who, events[i]));
        }
        law_repeated_creation_keeps_one_stake(front, who, evs);
        assert(front.last() == states[n - 2]);
        assert(events =~= evs.push(events[n - 2]));
        assert forall|w: AccountId| #[trigger]
            states.last().spec_free_balance(w) == states[0].spec_free_balance(w) by {
            assert(front.last().spec_free_balance(w) == front[0].spec_free_balance(w));
        }
        assert forall|i: LockIdentifier, w: AccountId|
            !(i == KITTIES_ID && w == who) implies #[trigger] states.last().spec_lock(i, w)
                == states[0].spec_lock(i, w) by {
            assert(front.last().spec_lock(i, w) == front[0].spec_lock(i, w));
        }
    }
}

/// Between `pre` and `post`, `amount` moved from the free balance of `payer`
/// to that of `payee` (no other balance changed) and the event `e` was
/// deposited; locks, block number and system log did not change.
pub open spec fn pays_and_reports<T: Config>(
    pre: T,
    post: T,
    payer: AccountId,
    payee: AccountId,
    amount: Balance,
    e: Event,
) -> bool {
    &&& post.spec_free_balance(payer) == pre.spec_free_balance(payer) - amount
    &&& post.spec_free_balance(payee) == pre.spec_free_balance(payee) + amount
    &&& forall|w: AccountId|
        w != payer && w != payee ==> #[trigger] post.spec_free_balance(w)
            == pre.spec_free_balance(w)
    &&& forall|i: LockIdentifier, w: AccountId| #[trigger]
        post.spec_lock(i, w) == pre.spec_lock(i, w)
    &&& post.spec_events()@ == pre.spec_events()@.push(e)
    &&& post.spec_block_number() == pre.spec_block_number()
    &&& post.spec_system_log()@ == pre.spec_system_log()@
}

/// A DNA drawn from the runtime's random seed at its current block.
fn gen_dna<T: Config>(rt: &T) -> (dna: [u8; 16])
    ensures
        dna@ == drawn_dna(*rt),
{
    let (seed, seed_block) = rt.random_seed();
    let block = rt.block_number();
    dna_from_seed(&seed, seed_block, block)
}

/// A gender drawn from the runtime's randomness for the subject `"gender"`:
/// male when the first of the 32 random bytes is even, female otherwise.
fn gen_gender<T: Config>(rt: &T) -> (g: Gender)
    ensures
        g == drawn_gender(*rt),
{
    let subject: [u8; 6] = [103, 101, 110, 100, 101, 114];
    let slice = subject.as_slice();
    let random = rt.random(slice);
    proof {
        assert(slice@ =~= gender_subject());
        let c = choose|s: &[u8]| s@ == gender_subject();
        assert(c@ == gender_subject());
        assert(c =~= slice);
    }
    gender_from_random(&random.0)
}

/// Each kitty in storage has 16 bytes of DNA.
pub proof fn lemma_stored_dna_len(p: &Pallet)
    ensures
        forall|id: KittyIndex| #[trigger]
            p@.kitties.contains_key(id) ==> p@.kitties[id].dna.len() == 16,
{
}

impl Pallet {
    /// The storage keeps its invariant.
    pub open spec fn wf(&self) -> bool {
        self@.inv()
    }

    /// Empty storage: no kitty, the counter at 0.
    pub fn new() -> (p: Pallet)
        ensures
            p.wf(),
            p@ == empty_state(),
    {
        let p = Pallet { kitty_cnt: 0, kitties: HashMap::new(), kitties_owned: HashMap::new() };
        assert(p@.kitties =~= empty_state().kitties);
        assert(p@.owned =~= empty_state().owned);
        p
    }

    /// The number of kitties minted so far.
    pub fn kitty_cnt(&self) -> (c: KittyIndex)
        ensures
            c == self@.kitty_cnt,
    {
        self.kitty_cnt
    }

    /// Kitty `id`, if it exists.
    pub fn kitties(&self, id: KittyIndex) -> (k: Option<Kitty>)
        ensures
            match k {
                Some(k) => self@.kitties.contains_key(id) && self@.kitties[id] == k@,
                None => !self@.kitties.contains_key(id),
            },
    {
        match self.kitties.get(&id) {
            Some(k) => Some(*k),
            None => None,
        }
    }

    /// The kitties that `who` owns.
    pub fn kittles_owned(&self, who: AccountId) -> (v: OwnedKitties)
        ensures
            owned_ids(v) == self@.owned[who],
    {
        match self.kitties_owned.get(&who) {
            Some(v) => owned_clone(v),
            None => owned_new(),
        }
    }

    /// The number of kitties that `who` owns.
    fn owned_count(&self, who: AccountId) -> (n: usize)
        ensures
            n == self@.owned[who].len(),
    {
        match self.kitties_owned.get(&who) {
            Some(v) => owned_len(v),
            None => 0,
        }
    }

    /// Whether `acct` owns kitty `kitty_id`; `KittyNotExist` when there is no such kitty.
    pub fn is_kitty_owner(&self, kitty_id: &KittyIndex, acct: &AccountId) -> (r: Result<bool, Error>)
        ensures
            r == is_kitty_owner_outcome(self@, *kitty_id, *acct),
    {
        match self.kitties.get(kitty_id) {
            Some(kitty) => Ok(kitty.owner == *acct),
            None => Err(Error::KittyNotExist),
        }
    }

    /// Stores `list` as the kitties of `who`.
    fn put_owned(&mut self, who: AccountId, list: OwnedKitties)
        ensures
            final(self)@ == (PalletState {
                kitty_cnt: old(self)@.kitty_cnt,
                kitties: old(self)@.kitties,
                owned: old(self)@.owned.insert(who, owned_ids(list)),
            }),
    {
        let ghost l = owned_ids(list);
        self.kitties_owned.insert(who, list);
        assert(self@.owned =~= old(self)@.owned.insert(who, l));
    }

    /// Stores `kitty` as kitty `id`.
    fn put_kitty(&mut self, id: KittyIndex, kitty: Kitty)
        ensures
            final(self)@ == (PalletState {
                kitty_cnt: old(self)@.kitty_cnt,
                kitties: old(self)@.kitties.insert(id, kitty@),
                owned: old(self)@.owned,
            }),
    {
        self.kitties.insert(id, kitty);
        assert(self@.kitties =~= old(self)@.kitties.insert(id, kitty@));
        assert(self@.owned =~= old(self)@.owned);
    }

    /// Mints a kitty of the given DNA and gender for `owner`.
    pub fn do_mint(&mut self, owner: AccountId, dna: [u8; 16], gender: Gender) -> (r: Result<
        KittyIndex,
        Error,
    >)
        requires
            old(self).wf(),
        ensures
            final(self).wf(),
            r == mint_outcome(old(self)@, owner, dna@, gender).0,
            final(self)@ == mint_outcome(old(self)@, owner, dna@, gender).1,
    {
        proof {
            law_mint_keeps_invariant(self@, owner, dna@, gender);
        }
        let kitty = Kitty { dna: dna, price: None, gender: gender, owner: owner };
        let new_cnt = match self.kitty_cnt.checked_add(1) {
            Some(c) => c,
            None => return Err(Error::KittyCntOverflow),
        };
        let kitty_id = new_cnt;
        let mut list = self.kittles_owned(owner);
        match owned_try_push(&mut list, kitty_id) {
            Ok(()) => {},
            Err(_) => return Err(Error::ExceedMaxKittyOwned),
        }
        self.put_owned(owner, list);
        self.put_kitty(kitty_id, kitty);
        self.kitty_cnt = new_cnt;
        assert(self@ =~= mint_outcome(old(self)@, owner, dna@, gender).1);
        Ok(kitty_id)
    }

    /// The position of the first occurrence of `id` in `list`.
    fn position(list: &OwnedKitties, id: KittyIndex) -> (p: Option<usize>)
        ensures
            match p {
                Some(i) => owned_ids(*list).contains(id) && i == first_index_of(owned_ids(*list), id),
                None => !owned_ids(*list).contains(id),
            },
    {
        let n = owned_len(list);
        let mut i: usize = 0;
        while i < n
            invariant
                n == owned_ids(*list).len(),
                i <= n,
                forall|j: int| 0 <= j < i ==> owned_ids(*list)[j] != id,
            decreases n - i,
        {
            if owned_get(list, i) == id {
                proof {
                    let s = owned_ids(*list);
                    assert(s.contains(id));
                    lemma_first_index(s, id);
                    let f = first_index_of(s, id);
                    if f < i {
                        assert(s[f] != id);
                    }
                    if f > i {
                        assert(s[i as int] == id);
                    }
                }
                return Some(i);
            }
            i = i + 1;
        }
        None
    }

    /// Moves kitty `kitty_id` to `to` and takes it off sale.
    fn transfer_kitty_to(&mut self, kitty_id: KittyIndex, to: AccountId) -> (r: Result<(), Error>)
        requires
            old(self).wf(),
        ensures
            r == transfer_kitty_to_outcome(old(self)@, kitty_id, to).0,
            final(self)@ == transfer_kitty_to_outcome(old(self)@, kitty_id, to).1,
            old(self)@.owned[to].len() < MAX_KITTY_OWNED ==> final(self).wf() && (r is Ok <==> (
            old(self)@.kitties.contains_key(kitty_id) && old(self)@.kitties[kitty_id].owner
                != to)),
    {
        proof {
            if self@.owned[to].len() < MAX_KITTY_OWNED {
                law_transfer_kitty_to_keeps_invariant(self@, kitty_id, to);
            }
        }
        let mut kitty = match self.kitties.get(&kitty_id) {
            Some(k) => *k,
            None => return Err(Error::KittyNotExist),
        };
        let prev_owner = kitty.owner;
        if prev_owner == to {
            return Err(Error::TransferToSelf);
        }
        let mut prev_list = self.kittles_owned(prev_owner);
        match Self::position(&prev_list, kitty_id) {
            Some(ind) => {
                owned_swap_remove(&mut prev_list, ind);
            },
            None => return Err(Error::KittyNotExist),
        }
        self.put_owned(prev_owner, prev_list);
        // Update the kitty owner
        kitty.owner = to;
        // Reset the ask price so the kitty is not for sale until `set_price()` is called
        // by the current owner.
        kitty.price = None;
        self.put_kitty(kitty_id, kitty);
        let mut to_list = self.kittles_owned(to);
        match owned_try_push(&mut to_list, kitty_id) {
            Ok(()) => {},
            Err(_) => {
                assert(self@ =~= transfer_kitty_to_outcome(old(self)@, kitty_id, to).1);
                return Err(Error::ExceedMaxKittyOwned);
            },
        }
        self.put_owned(to, to_list);
        assert(self@ =~= transfer_kitty_to_outcome(old(self)@, kitty_id, to).1);
        Ok(())
    }
}


impl Pallet {
    /// Creates a kitty of the given DNA and gender for `sender`, whose free
    /// balance is `free_balance`: it must cover the stake a kitty needs.
    pub fn do_create_kitty(
        &mut self,
        sender: AccountId,
        free_balance: Balance,
        dna: [u8; 16],
        gender: Gender,
    ) -> (r: Result<Event, Error>)
        requires
            old(self).wf(),
        ensures
            final(self).wf(),
            r == create_outcome(old(self)@, sender, free_balance, dna@, gender).0,
            final(self)@ == create_outcome(old(self)@, sender, free_balance, dna@, gender).1,
    {
        if free_balance < NEED_LOCK_BALANCE as u128 {
            return Err(Error::NotEnoughBalanceForStake);
        }
        match self.do_mint(sender, dna, gender) {
            Ok(kitty_id) => Ok(Event::Created(sender, kitty_id)),
            Err(e) => Err(e),
        }
    }

    /// Sets the asking price of kitty `kitty_id`, which `sender` must own.
    pub fn do_set_price(
        &mut self,
        sender: AccountId,
        kitty_id: KittyIndex,
        new_price: Option<Balance>,
    ) -> (r: Result<Event, Error>)
        requires
            old(self).wf(),
        ensures
            final(self).wf(),
            r == set_price_outcome(old(self)@, sender, kitty_id, new_price).0,
            final(self)@ == set_price_outcome(old(self)@, sender, kitty_id, new_price).1,
    {
        proof {
            law_set_price_keeps_invariant(self@, sender, kitty_id, new_price);
        }
        match self.is_kitty_owner(&kitty_id, &sender) {
            Ok(true) => {},
            Ok(false) => return Err(Error::NotKittyOwner),
            Err(e) => return Err(e),
        }
        let mut kitty = match self.kitties(kitty_id) {
            Some(k) => k,
            None => return Err(Error::KittyNotExist),
        };
        kitty.price = new_price;
        self.put_kitty(kitty_id, kitty);
        assert(self@ =~= set_price_outcome(old(self)@, sender, kitty_id, new_price).1);
        Ok(Event::PriceSet(sender, kitty_id, new_price))
    }

    /// Gives kitty `kitty_id` of `sender` to `to`, whose free balance is
    /// `to_free_balance`: `to` must have room for it and, once it holds it,
    /// the stake a kitty needs.
    pub fn do_transfer(
        &mut self,
        sender: AccountId,
        to: AccountId,
        kitty_id: KittyIndex,
        to_free_balance: Balance,
    ) -> (r: Result<Event, Error>)
        requires
            old(self).wf(),
        ensures
            final(self).wf(),
            r == transfer_outcome(old(self)@, sender, to, kitty_id, to_free_balance).0,
            final(self)@ == transfer_outcome(old(self)@, sender, to, kitty_id, to_free_balance).1,
    {
        proof {
            law_transfer_keeps_invariant(self@, sender, to, kitty_id, to_free_balance);
        }
        match self.is_kitty_owner(&kitty_id, &sender) {
            Ok(true) => {},
            Ok(false) => return Err(Error::NotKittyOwner),
            Err(e) => return Err(e),
        }
        if self.owned_count(to) >= MAX_KITTY_OWNED as usize {
            return Err(Error::ExceedMaxKittyOwned);
        }
        match self.transfer_kitty_to(kitty_id, to) {
            Ok(()) => {},
            Err(e) => return Err(e),
        }
        if to_free_balance < NEED_LOCK_BALANCE as u128 {
            return Err(Error::NotEnoughBalanceForStake);
        }
        Ok(Event::Transferred(sender, to, kitty_id))
    }

    /// The checks of a purchase of kitty `kitty_id` by `buyer` at `bid_price`,
    /// `buyer` having the free balance `buyer_free_balance`; gives the seller.
    pub fn check_buy_kitty(
        &self,
        buyer: AccountId,
        kitty_id: KittyIndex,
        bid_price: Balance,
        buyer_free_balance: Balance,
    ) -> (r: Result<AccountId, Error>)
        ensures
            r == check_buy_outcome(self@, buyer, kitty_id, bid_price, buyer_free_balance),
    {
        let kitty = match self.kitties(kitty_id) {
            Some(k) => k,
            None => return Err(Error::KittyNotExist),
        };
        if kitty.owner == buyer {
            return Err(Error::BuyerIsKittyOwner);
        }
        match kitty.price {
            Some(ask_price) => {
                if ask_price > bid_price {
                    return Err(Error::KittyBidPriceTooLow);
                }
            },
            None => return Err(Error::KittyNotForSale),
        }
        if buyer_free_balance < bid_price {
            return Err(Error::NotEnoughBalance);
        }
        if self.owned_count(buyer) >= MAX_KITTY_OWNED as usize {
            return Err(Error::ExceedMaxKittyOwned);
        }
        Ok(kitty.owner)
    }

    /// The child DNA of kitties `parent1` and `parent2` under the random DNA `random_dna`.
    pub fn do_breed_dna(&self, parent1: &KittyIndex, parent2: &KittyIndex, random_dna: &[u8; 16]) -> (r:
        Result<[u8; 16], Error>)
        ensures
            dna_result(r) == breed_dna_outcome(self@, *parent1, *parent2, random_dna@),
    {
        let dna1 = match self.kitties(*parent1) {
            Some(k) => k.dna,
            None => return Err(Error::KittyNotExist),
        };
        let dna2 = match self.kitties(*parent2) {
            Some(k) => k.dna,
            None => return Err(Error::KittyNotExist),
        };
        Ok(mix_dna(random_dna, &dna1, &dna2))
    }

    /// Breeds kitties `parent1` and `parent2` of `sender` into a child of the
    /// given gender whose DNA mixes theirs under `random_dna`.
    pub fn do_breed_kitty(
        &mut self,
        sender: AccountId,
        parent1: KittyIndex,
        parent2: KittyIndex,
        random_dna: [u8; 16],
        gender: Gender,
    ) -> (r: Result<KittyIndex, Error>)
        requires
            old(self).wf(),
        ensures
            final(self).wf(),
            r == breed_outcome(old(self)@, sender, parent1, parent2, random_dna@, gender).0,
            final(self)@ == breed_outcome(old(self)@, sender, parent1, parent2, random_dna@, gender).1,
    {
        match self.is_kitty_owner(&parent1, &sender) {
            Ok(true) => {},
            Ok(false) => return Err(Error::NotKittyOwner),
            Err(e) => return Err(e),
        }
        match self.is_kitty_owner(&parent2, &sender) {
            Ok(true) => {},
            Ok(false) => return Err(Error::NotKittyOwner),
            Err(e) => return Err(e),
        }
        let new_dna = match self.do_breed_dna(&parent1, &parent2, &random_dna) {
            Ok(d) => d,
            Err(e) => return Err(e),
        };
        self.do_mint(sender, new_dna, gender)
    }
}


/// The unit result of a purchase outcome.
pub open spec fn purchase_result(r: Result<Event, DispatchError>) -> Result<(), DispatchError> {
    match r {
        Ok(_) => Ok(()),
        Err(e) => Err(e),
    }
}


impl Pallet {
    /// Creates a kitty for the signer, who must be able to put up the stake a
    /// kitty needs; on success that stake is locked and `Created` deposited.
    /// Its DNA is drawn from the runtime's random seed at the current block,
    /// its gender from the runtime's randomness.
    pub fn create_kitty<T: Config>(&mut self, rt: &mut T, origin: Origin) -> (r: Result<
        (),
        DispatchError,
    >)
        requires
            old(self).wf(),
        ensures
            final(self).wf(),
            match signer(origin) {
                None => r == Err::<(), DispatchError>(DispatchError::BadOrigin) && final(self)@
                    == old(self)@ && *final(rt) == *old(rt),
                Some(sender) => {
                    let out = create_outcome(
                        old(self)@,
                        sender,
                        old(rt).spec_free_balance(sender),
                        drawn_dna(*old(rt)),
                        drawn_gender(*old(rt)),
                    );
                    &&& dispatch_matches(out, r, final(self)@)
                    &&& match out.0 {
                        Ok(e) => stakes_and_reports(*old(rt), *final(rt), sender, e),
                        Err(_) => *final(rt) == *old(rt),
                    }
                },
            },
    {
        let ghost pre = *rt;
        let sender = match ensure_signed(origin) {
            Ok(who) => who,
            Err(e) => return Err(e),
        };
        let free_balance = rt.free_balance(sender);
        if free_balance < NEED_LOCK_BALANCE as u128 {
            return Err(DispatchError::Module(Error::NotEnoughBalanceForStake));
        }
        let dna = gen_dna(rt);
        let gender = gen_gender(rt);
        match self.do_create_kitty(sender, free_balance, dna, gender) {
            Ok(event) => {
                rt.set_lock(KITTIES_ID, sender, NEED_LOCK_BALANCE as u128, ALL_WITHDRAW_REASONS);
                let ghost mid = *rt;
                rt.deposit_event(event);
                proof {
                    assert forall|i: LockIdentifier, w: AccountId|
                        !(i == KITTIES_ID && w == sender) implies #[trigger] rt.spec_lock(i, w)
                        == pre.spec_lock(i, w) by {
                        assert(mid.spec_lock(i, w) == pre.spec_lock(i, w));
                    }
                    assert forall|w: AccountId| #[trigger]
                        rt.spec_free_balance(w) == pre.spec_free_balance(w) by {
                        assert(mid.spec_free_balance(w) == pre.spec_free_balance(w));
                    }
                    assert(rt.spec_lock(KITTIES_ID, sender) == mid.spec_lock(KITTIES_ID, sender));
                }
                Ok(())
            },
            Err(e) => Err(DispatchError::Module(e)),
        }
    }

    /// Sets the asking price of a kitty of the signer (`None`: not for sale);
    /// on success `PriceSet` is deposited.
    pub fn set_price<T: Config>(
        &mut self,
        rt: &mut T,
        origin: Origin,
        kitty_id: KittyIndex,
        new_price: Option<Balance>,
    ) -> (r: Result<(), DispatchError>)
        requires
            old(self).wf(),
        ensures
            final(self).wf(),
            match signer(origin) {
                None => r == Err::<(), DispatchError>(DispatchError::BadOrigin) && final(self)@
                    == old(self)@ && *final(rt) == *old(rt),
                Some(sender) => {
                    let out = set_price_outcome(old(self)@, sender, kitty_id, new_price);
                    &&& dispatch_matches(out, r, final(self)@)
                    &&& match out.0 {
                        Ok(e) => reports(*old(rt), *final(rt), seq![e]),
                        Err(_) => *final(rt) == *old(rt),
                    }
                },
            },
    {
        let ghost pre = *rt;
        let sender = match ensure_signed(origin) {
            Ok(who) => who,
            Err(e) => return Err(e),
        };
        match self.do_set_price(sender, kitty_id, new_price) {
            Ok(event) => {
                rt.deposit_event(event);
                assert(rt.spec_events()@ =~= pre.spec_events()@ + seq![event]);
                Ok(())
            },
            Err(e) => Err(DispatchError::Module(e)),
        }
    }

    /// Gives a kitty of the signer to `to`, who must have room for it and,
    /// once it holds it, the stake a kitty needs; on success `Transferred` is
    /// deposited.
    pub fn transfer<T: Config>(
        &mut self,
        rt: &mut T,
        origin: Origin,
        to: AccountId,
        kitty_id: KittyIndex,
    ) -> (r: Result<(), DispatchError>)
        requires
            old(self).wf(),
        ensures
            final(self).wf(),
            match signer(origin) {
                None => r == Err::<(), DispatchError>(DispatchError::BadOrigin) && final(self)@
                    == old(self)@ && *final(rt) == *old(rt),
                Some(sender) => {
                    let out = transfer_outcome(
                        old(self)@,
                        sender,
                        to,
                        kitty_id,
                        old(rt).spec_free_balance(to),
                    );
                    &&& dispatch_matches(out, r, final(self)@)
                    &&& match out.0 {
                        Ok(e) => reports(*old(rt), *final(rt), seq![e]),
                        Err(_) => *final(rt) == *old(rt),
                    }
                },
            },
    {
        let ghost pre = *rt;
        let sender = match ensure_signed(origin) {
            Ok(who) => who,
            Err(e) => return Err(e),
        };
        let to_free_balance = rt.free_balance(to);
        match self.do_transfer(sender, to, kitty_id, to_free_balance) {
            Ok(event) => {
                rt.deposit_event(event);
                assert(rt.spec_events()@ =~= pre.spec_events()@ + seq![event]);
                Ok(())
            },
            Err(e) => Err(DispatchError::Module(e)),
        }
    }

    /// Buys a kitty for the signer at `bid_price`: once the checks pass, the
    /// bid is paid to the seller through the runtime's currency, and the kitty
    /// goes to the buyer; on success `Bought` is deposited.  A refused check or
    /// payment leaves storage as it was.
    pub fn buy_kitty<T: Config>(
        &mut self,
        rt: &mut T,
        origin: Origin,
        kitty_id: KittyIndex,
        bid_price: Balance,
    ) -> (r: Result<(), DispatchError>)
        requires
            old(self).wf(),
        ensures
            final(self).wf(),
            match signer(origin) {
                None => r == Err::<(), DispatchError>(DispatchError::BadOrigin) && final(self)@
                    == old(self)@ && *final(rt) == *old(rt),
                Some(buyer) => {
                    let free = old(rt).spec_free_balance(buyer);
                    let payment = old(rt).spec_transfer(
                        buyer,
                        old(self)@.kitties[kitty_id].owner,
                        bid_price,
                    );
                    let out = buy_outcome(
                        old(self)@,
                        buyer,
                        kitty_id,
                        bid_price,
                        free,
                        payment,
                    );
                    &&& r == purchase_result(out.0)
                    &&& final(self)@ == out.1
                    &&& match check_buy_outcome(old(self)@, buyer, kitty_id, bid_price, free) {
                        Err(_) => *final(rt) == *old(rt),
                        Ok(seller) => match payment {
                            Err(_) => reports(*old(rt), *final(rt), Seq::empty()),
                            Ok(_) => pays_and_reports(
                                *old(rt),
                                *final(rt),
                                buyer,
                                seller,
                                bid_price,
                                Event::Bought(buyer, seller, kitty_id, bid_price),
                            ),
                        },
                    }
                },
            },
    {
        let ghost pre = *rt;
        let buyer = match ensure_signed(origin) {
            Ok(who) => who,
            Err(e) => return Err(e),
        };
        let buyer_free_balance = rt.free_balance(buyer);
        let seller = match self.check_buy_kitty(buyer, kitty_id, bid_price, buyer_free_balance) {
            Ok(seller) => seller,
            Err(e) => return Err(DispatchError::Module(e)),
        };
        let payment = rt.transfer(buyer, seller, bid_price);
        match payment {
            Ok(()) => {},
            Err(e) => {
                assert(rt.spec_events()@ =~= pre.spec_events()@ + Seq::<Event>::empty());
                return Err(e);
            },
        }
        let ghost paid = *rt;
        match self.transfer_kitty_to(kitty_id, buyer) {
            Ok(()) => {},
            Err(e) => return Err(DispatchError::Module(e)),
        }
        rt.deposit_event(Event::Bought(buyer, seller, kitty_id, bid_price));
        proof {
            assert(paid.spec_free_balance(buyer) == pre.spec_free_balance(buyer) - bid_price);
            assert(paid.spec_free_balance(seller) == pre.spec_free_balance(seller) + bid_price);
            assert(rt.spec_free_balance(buyer) == paid.spec_free_balance(buyer));
            assert(rt.spec_free_balance(seller) == paid.spec_free_balance(seller));
            assert forall|w: AccountId| w != buyer && w != seller implies #[trigger]
                rt.spec_free_balance(w) == pre.spec_free_balance(w) by {
                assert(paid.spec_free_balance(w) == pre.spec_free_balance(w));
            }
            assert forall|i: LockIdentifier, w: AccountId| #[trigger]
                rt.spec_lock(i, w) == pre.spec_lock(i, w) by {
                assert(paid.spec_lock(i, w) == pre.spec_lock(i, w));
            }
        }
        Ok(())
    }

    /// Breeds two kitties of the signer into a new kitty of the signer, whose
    /// DNA mixes the parents' under DNA drawn from the runtime's random seed
    /// at the current block, and whose gender is drawn from its randomness.
    /// The runtime is only read.
    pub fn breed_kitty<T: Config>(
        &mut self,
        rt: &mut T,
        origin: Origin,
        parent1: KittyIndex,
        parent2: KittyIndex,
    ) -> (r: Result<(), DispatchError>)
        requires
            old(self).wf(),
        ensures
            final(self).wf(),
            *final(rt) == *old(rt),
            match signer(origin) {
                None => r == Err::<(), DispatchError>(DispatchError::BadOrigin) && final(self)@
                    == old(self)@,
                Some(sender) => {
                    let out = breed_outcome(
                        old(self)@,
                        sender,
                        parent1,
                        parent2,
                        drawn_dna(*old(rt)),
                        drawn_gender(*old(rt)),
                    );
                    r == dispatched(out.0) && final(self)@ == out.1
                },
            },
    {
        let sender = match ensure_signed(origin) {
            Ok(who) => who,
            Err(e) => return Err(e),
        };
        // Check: Verify `sender` owns both kitties (and both kitties exist).
        match self.is_kitty_owner(&parent1, &sender) {
            Ok(true) => {},
            Ok(false) => return Err(DispatchError::Module(Error::NotKittyOwner)),
            Err(e) => return Err(DispatchError::Module(e)),
        }
        match self.is_kitty_owner(&parent2, &sender) {
            Ok(true) => {},
            Ok(false) => return Err(DispatchError::Module(Error::NotKittyOwner)),
            Err(e) => return Err(DispatchError::Module(e)),
        }
        let random_dna = gen_dna(rt);
        let gender = gen_gender(rt);
        match self.do_breed_kitty(sender, parent1, parent2, random_dna, gender) {
            Ok(_) => Ok(()),
            Err(e) => Err(DispatchError::Module(e)),
        }
    }

    /// The DNA of a child of kitties `parent1` and `parent2`: their DNA mixed
    /// under DNA drawn from the runtime's random seed at the current block.
    pub fn breed_dna<T: Config>(&self, rt: &T, parent1: &KittyIndex, parent2: &KittyIndex) -> (r:
        Result<[u8; 16], Error>)
        ensures
            dna_result(r) == breed_dna_outcome(self@, *parent1, *parent2, drawn_dna(*rt)),
    {
        let new_dna = gen_dna(rt);
        self.do_breed_dna(parent1, parent2, &new_dna)
    }
}

} // verus!
