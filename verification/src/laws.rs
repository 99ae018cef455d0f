//! Laws of the pallet, stated over the model of its storage and calls.

use vstd::prelude::*;

use crate::model::{
    breed_dna_outcome, breed_outcome, check_buy_outcome, create_outcome, first_index_of,
    lemma_first_index, lemma_push_contains, lemma_push_fresh, lemma_swap_removed, mint_outcome,
    set_price_outcome, swap_removed, is_kitty_owner_outcome, transfer_kitty_to_outcome, transfer_outcome, buy_outcome,
    PalletState,
};
use crate::config::Config;
use crate::dna::{dna_mix, mix_byte, spec_blake2_128, u64_le_bytes};
use crate::genesis::genesis_state;
use crate::pallet::{drawn_dna, drawn_gender, gender_subject};
use crate::types::{
    AccountId, Balance, DispatchError, Error, Event, Gender, KittyIndex, KittyView,
    MAX_KITTY_OWNED, NEED_LOCK_BALANCE,
};

verus! {

/// Minting keeps the storage's invariant.
pub proof fn law_mint_keeps_invariant(s: PalletState, owner: AccountId, dna: Seq<u8>, gender: Gender)
    requires
        s.inv(),
    ensures
        mint_outcome(s, owner, dna, gender).1.inv(),
{
    let m = mint_outcome(s, owner, dna, gender);
    if m.0 is Ok {
        let n = m.1;
        let id = (s.kitty_cnt + 1) as KittyIndex;
        assert(!s.kitties.contains_key(id));
        assert(!s.owned[owner].contains(id));
        lemma_push_fresh(s.owned[owner], id);
        assert forall|a: AccountId, x: KittyIndex| #[trigger] n.owned[a].contains(x) <==> n.owns(
            a,
            x,
        ) by {
            if a == owner {
                lemma_push_contains(s.owned[owner], id, x);
                assert(s.owned[a].contains(x) <==> s.owns(a, x));
            } else {
                assert(s.owned[a].contains(x) <==> s.owns(a, x));
            }
        }
        assert forall|a: AccountId| #[trigger] n.owned[a].no_duplicates() by {
            if a != owner {
                assert(s.owned[a].no_duplicates());
            }
        }
        assert forall|a: AccountId| #[trigger] n.owned[a].len() <= MAX_KITTY_OWNED by {
            if a != owner {
                assert(s.owned[a].len() <= MAX_KITTY_OWNED);
            }
        }
    }
}

/// Setting a price keeps the storage's invariant.
pub proof fn law_set_price_keeps_invariant(
    s: PalletState,
    sender: AccountId,
    id: KittyIndex,
    price: Option<Balance>,
)
    requires
        s.inv(),
    ensures
        set_price_outcome(s, sender, id, price).1.inv(),
{
    let n = set_price_outcome(s, sender, id, price).1;
    assert forall|a: AccountId, x: KittyIndex| #[trigger] n.owned[a].contains(x) <==> n.owns(a, x) by {
        assert(s.owned[a].contains(x) <==> s.owns(a, x));
    }
}

/// Moving a kitty to an account with room for it keeps the storage's invariant.
pub proof fn law_transfer_kitty_to_keeps_invariant(s: PalletState, id: KittyIndex, to: AccountId)
    requires
        s.inv(),
        s.owned[to].len() < MAX_KITTY_OWNED,
    ensures
        transfer_kitty_to_outcome(s, id, to).1.inv(),
        transfer_kitty_to_outcome(s, id, to).0 is Ok <==> (s.kitties.contains_key(id)
            && s.kitties[id].owner != to),
{
    if s.kitties.contains_key(id) && s.kitties[id].owner != to {
        let k = s.kitties[id];
        let prev = k.owner;
        assert(s.owned[prev].contains(id) <==> s.owns(prev, id));
        lemma_first_index(s.owned[prev], id);
        let i = first_index_of(s.owned[prev], id);
        lemma_swap_removed(s.owned[prev], i);
        let t = transfer_kitty_to_outcome(s, id, to);
        let n = t.1;
        let removed = swap_removed(s.owned[prev], i);
        assert(n.owned[prev] == removed);
        assert(!s.owned[to].contains(id)) by {
            assert(s.owned[to].contains(id) <==> s.owns(to, id));
        }
        lemma_push_fresh(s.owned[to], id);
        assert(n.owned[to] == s.owned[to].push(id));
        assert forall|a: AccountId, x: KittyIndex| #[trigger] n.owned[a].contains(x) <==> n.owns(
            a,
            x,
        ) by {
            assert(s.owned[a].contains(x) <==> s.owns(a, x));
            if a == prev {
                assert(removed.contains(x) <==> (s.owned[prev].contains(x) && x != id));
            } else if a == to {
                lemma_push_contains(s.owned[to], id, x);
            }
        }
        assert forall|a: AccountId| #[trigger] n.owned[a].no_duplicates() by {
            if a != prev && a != to {
                assert(s.owned[a].no_duplicates());
            }
        }
        assert forall|a: AccountId| #[trigger] n.owned[a].len() <= MAX_KITTY_OWNED by {
            if a != prev && a != to {
                assert(s.owned[a].len() <= MAX_KITTY_OWNED);
            } else if a == prev {
                assert(s.owned[prev].len() <= MAX_KITTY_OWNED);
            }
        }
    }
}

/// A transfer keeps the storage's invariant, refused or not.
pub proof fn law_transfer_keeps_invariant(
    s: PalletState,
    sender: AccountId,
    to: AccountId,
    id: KittyIndex,
    to_free_balance: Balance,
)
    requires
        s.inv(),
    ensures
        transfer_outcome(s, sender, to, id, to_free_balance).1.inv(),
{
    if s.owned[to].len() < MAX_KITTY_OWNED {
        law_transfer_kitty_to_keeps_invariant(s, id, to);
    }
}

/// A purchase keeps the storage's invariant, refused or not.
pub proof fn law_buy_keeps_invariant(
    s: PalletState,
    buyer: AccountId,
    id: KittyIndex,
    bid_price: Balance,
    buyer_free_balance: Balance,
    payment: Result<(), DispatchError>,
)
    requires
        s.inv(),
    ensures
        buy_outcome(s, buyer, id, bid_price, buyer_free_balance, payment).1.inv(),
{
    if check_buy_outcome(s, buyer, id, bid_price, buyer_free_balance) is Ok {
        law_transfer_kitty_to_keeps_invariant(s, id, buyer);
    }
}

/// Creating a kitty keeps the storage's invariant.
pub proof fn law_create_keeps_invariant(
    s: PalletState,
    sender: AccountId,
    free_balance: Balance,
    dna: Seq<u8>,
    gender: Gender,
)
    requires
        s.inv(),
    ensures
        create_outcome(s, sender, free_balance, dna, gender).1.inv(),
{
    law_mint_keeps_invariant(s, sender, dna, gender);
}

/// Breeding keeps the storage's invariant.
pub proof fn law_breed_keeps_invariant(
    s: PalletState,
    sender: AccountId,
    parent1: KittyIndex,
    parent2: KittyIndex,
    random_dna: Seq<u8>,
    gender: Gender,
)
    requires
        s.inv(),
    ensures
        breed_outcome(s, sender, parent1, parent2, random_dna, gender).1.inv(),
{
    match breed_dna_outcome(s, parent1, parent2, random_dna) {
        Ok(child) => law_mint_keeps_invariant(s, sender, child, gender),
        Err(_) => {},
    }
}


/// A refused mint leaves storage unchanged; an accepted one adds kitty
/// `kitty_cnt + 1`, new to the chain, with the given DNA and gender, not for
/// sale, at the end of its owner's list, and changes no other kitty.
pub proof fn law_mint_adds_one_fresh_kitty(
    s: PalletState,
    owner: AccountId,
    dna: Seq<u8>,
    gender: Gender,
)
    requires
        s.inv(),
    ensures
        ({
            let (r, n) = mint_outcome(s, owner, dna, gender);
            match r {
                Err(_) => n == s,
                Ok(id) => {
                    &&& id == s.kitty_cnt + 1
                    &&& !s.kitties.contains_key(id)
                    &&& n.kitty_cnt == id
                    &&& n.kitties.contains_key(id)
                    &&& n.kitties[id] == (KittyView { dna, price: None, gender, owner })
                    &&& n.owned[owner] == s.owned[owner].push(id)
                    &&& forall|x: KittyIndex| #[trigger]
                        s.kitties.contains_key(x) ==> n.kitties.contains_key(x) && n.kitties[x]
                            == s.kitties[x]
                },
            }
        }),
{
}

/// Kitty numbers are never reused: after any mint every kitty of the old
/// storage is still there, and the counter never decreases.
pub proof fn law_mint_never_reuses_numbers(
    s: PalletState,
    owner: AccountId,
    dna: Seq<u8>,
    gender: Gender,
)
    requires
        s.inv(),
    ensures
        mint_outcome(s, owner, dna, gender).1.kitty_cnt >= s.kitty_cnt,
        mint_outcome(s, owner, dna, gender).0 matches Ok(id) ==> id > s.kitty_cnt,
        mint_outcome(s, owner, dna, gender).1.kitties.dom() =~= Set::new(
            |id: KittyIndex| 1 <= id <= mint_outcome(s, owner, dna, gender).1.kitty_cnt,
        ),
{
    law_mint_keeps_invariant(s, owner, dna, gender);
}

/// What `set_price` writes is what is then read: on success the kitty's
/// price is the new price and nothing else in storage changes; on refusal
/// nothing changes.
pub proof fn law_set_price_then_read(
    s: PalletState,
    sender: AccountId,
    id: KittyIndex,
    price: Option<Balance>,
)
    ensures
        ({
            let (r, n) = set_price_outcome(s, sender, id, price);
            match r {
                Err(_) => n == s,
                Ok(e) => {
                    &&& e == Event::PriceSet(sender, id, price)
                    &&& s.owns(sender, id)
                    &&& n.kitties[id].price == price
                    &&& n.kitties[id].dna == s.kitties[id].dna
                    &&& n.kitties[id].gender == s.kitties[id].gender
                    &&& n.kitties[id].owner == sender
                    &&& n.kitties.dom() == s.kitties.dom()
                    &&& n.owned == s.owned
                    &&& n.kitty_cnt == s.kitty_cnt
                },
            }
        }),
{
}

/// A transfer that is refused before the kitty is given leaves storage
/// unchanged; one that gives the kitty (successful, or refused for the
/// recipient's stake) makes `to` its owner, takes it off sale, keeps its DNA
/// and gender, and moves it from the sender's list to that of `to`.
pub proof fn law_transfer_gives_kitty(
    s: PalletState,
    sender: AccountId,
    to: AccountId,
    id: KittyIndex,
    to_free_balance: Balance,
)
    requires
        s.inv(),
    ensures
        ({
            let (r, n) = transfer_outcome(s, sender, to, id, to_free_balance);
            if r is Ok || r == Err::<Event, Error>(Error::NotEnoughBalanceForStake) {
                &&& s.owns(sender, id)
                &&& sender != to
                &&& n.owns(to, id)
                &&& n.kitties[id].price is None
                &&& n.kitties[id].dna == s.kitties[id].dna
                &&& n.kitties[id].gender == s.kitties[id].gender
                &&& n.owned[to].contains(id)
                &&& !n.owned[sender].contains(id)
                &&& n.kitties.dom() == s.kitties.dom()
                &&& n.kitty_cnt == s.kitty_cnt
                &&& (r is Ok <==> to_free_balance >= NEED_LOCK_BALANCE)
            } else {
                n == s
            }
        }),
{
    let t = transfer_outcome(s, sender, to, id, to_free_balance);
    law_transfer_keeps_invariant(s, sender, to, id, to_free_balance);
    if is_kitty_owner_outcome(s, id, sender) == Ok::<bool, Error>(true) && s.owned[to].len()
        < MAX_KITTY_OWNED {
        law_transfer_kitty_to_keeps_invariant(s, id, to);
        let n = t.1;
        if s.kitties[id].owner != to {
            assert(n.owned[to].contains(id) <==> n.owns(to, id));
            assert(n.owned[sender].contains(id) <==> n.owns(sender, id));
            assert(n.kitties.dom() =~= s.kitties.dom());
        }
    }
}

/// A purchase refused by its checks or by the payment leaves storage
/// unchanged.  An accepted one pays at least the asking price, from a free
/// balance that covers the bid, and gives the kitty, off sale, to the buyer
/// (the seller being its previous owner).
pub proof fn law_buy_pays_and_moves_kitty(
    s: PalletState,
    buyer: AccountId,
    id: KittyIndex,
    bid_price: Balance,
    buyer_free_balance: Balance,
    payment: Result<(), DispatchError>,
)
    requires
        s.inv(),
    ensures
        ({
            let (r, n) = buy_outcome(s, buyer, id, bid_price, buyer_free_balance, payment);
            match r {
                Err(_) => n == s,
                Ok(e) => {
                    &&& payment is Ok
                    &&& s.kitties.contains_key(id)
                    &&& e == Event::Bought(buyer, s.kitties[id].owner, id, bid_price)
                    &&& s.kitties[id].owner != buyer
                    &&& s.kitties[id].price matches Some(ask) && ask <= bid_price
                    &&& buyer_free_balance >= bid_price
                    &&& n.owns(buyer, id)
                    &&& n.kitties[id].price is None
                    &&& n.kitties[id].dna == s.kitties[id].dna
                    &&& n.owned[buyer].contains(id)
                    &&& !n.owned[s.kitties[id].owner].contains(id)
                    &&& n.kitties.dom() == s.kitties.dom()
                },
            }
        }),
{
    if check_buy_outcome(s, buyer, id, bid_price, buyer_free_balance) is Ok && payment is Ok {
        law_transfer_kitty_to_keeps_invariant(s, id, buyer);
        let n = transfer_kitty_to_outcome(s, id, buyer).1;
        let seller = s.kitties[id].owner;
        assert(n.owned[buyer].contains(id) <==> n.owns(buyer, id));
        assert(n.owned[seller].contains(id) <==> n.owns(seller, id));
        assert(n.kitties.dom() =~= s.kitties.dom());
    }
}

/// A kitty given away and given back returns to its first owner, off sale,
/// with its DNA and gender.  The recipient's list is restored exactly, every
/// other account's list but the first owner's is untouched, and the first
/// owner's list holds the same kitties as before (a reordering of it).
pub proof fn law_transfer_back_restores_ownership(
    s: PalletState,
    a: AccountId,
    b: AccountId,
    id: KittyIndex,
    b_free_balance: Balance,
    a_free_balance: Balance,
)
    requires
        s.inv(),
        transfer_outcome(s, a, b, id, b_free_balance).0 is Ok,
        transfer_outcome(transfer_outcome(s, a, b, id, b_free_balance).1, b, a, id, a_free_balance).0 is Ok,
    ensures
        ({
            let n = transfer_outcome(
                transfer_outcome(s, a, b, id, b_free_balance).1,
                b,
                a,
                id,
                a_free_balance,
            ).1;
            &&& n.owns(a, id)
            &&& n.kitties[id].price is None
            &&& n.kitties[id].dna == s.kitties[id].dna
            &&& n.kitties[id].gender == s.kitties[id].gender
            &&& n.kitties.dom() == s.kitties.dom()
            &&& forall|x: AccountId, k: KittyIndex| #[trigger]
                n.owned[x].contains(k) <==> s.owned[x].contains(k)
            &&& n.owned[b] == s.owned[b]
            &&& n.owned[a].len() == s.owned[a].len()
            &&& n.owned[a].no_duplicates()
            &&& forall|x: AccountId| x != a && x != b ==> #[trigger] n.owned[x] == s.owned[x]
        }),
{
    let m = transfer_outcome(s, a, b, id, b_free_balance).1;
    assert(s.owned[a].contains(id) <==> s.owns(a, id));
    assert(s.owned[b].contains(id) <==> s.owns(b, id));
    let fa = first_index_of(s.owned[a], id);
    lemma_first_index(s.owned[a], id);
    lemma_swap_removed(s.owned[a], fa);
    assert(m.owned[b] == s.owned[b].push(id));
    assert(m.owned[a] == swap_removed(s.owned[a], fa));
    let lb = m.owned[b];
    let nb = s.owned[b].len() as int;
    assert(lb.contains(id)) by {
        assert(lb[nb] == id);
    }
    lemma_first_index(lb, id);
    let fb = first_index_of(lb, id);
    if fb < nb {
        assert(lb[fb] == s.owned[b][fb]);
        assert(s.owned[b].contains(id));
    }
    assert(fb == nb);
    assert(swap_removed(lb, fb) =~= s.owned[b]);
    law_transfer_gives_kitty(s, a, b, id, b_free_balance);
    law_transfer_keeps_invariant(s, a, b, id, b_free_balance);
    law_transfer_gives_kitty(m, b, a, id, a_free_balance);
    law_transfer_keeps_invariant(m, b, a, id, a_free_balance);
    let n = transfer_outcome(m, b, a, id, a_free_balance).1;
    assert forall|x: AccountId, k: KittyIndex| #[trigger]
        n.owned[x].contains(k) <==> s.owned[x].contains(k) by {
        assert(n.owned[x].contains(k) <==> n.owns(x, k));
        assert(s.owned[x].contains(k) <==> s.owns(x, k));
        assert(m.owned[x].contains(k) <==> m.owns(x, k));
        if k != id {
            assert(m.kitties[k] == s.kitties[k]);
        }
    }
    assert(n.owned[b] == swap_removed(lb, fb));
    assert(n.owned[a] == m.owned[a].push(id));
    assert(n.owned[a].no_duplicates());
}

/// A child is minted for the owner of both parents, with their DNA mixed under
/// the random DNA; a refused breeding leaves storage unchanged.
pub proof fn law_breed_mixes_parents(
    s: PalletState,
    sender: AccountId,
    parent1: KittyIndex,
    parent2: KittyIndex,
    random_dna: Seq<u8>,
    gender: Gender,
)
    requires
        s.inv(),
    ensures
        ({
            let (r, n) = breed_outcome(s, sender, parent1, parent2, random_dna, gender);
            match r {
                Err(_) => n == s,
                Ok(id) => {
                    &&& s.owns(sender, parent1)
                    &&& s.owns(sender, parent2)
                    &&& n.owns(sender, id)
                    &&& n.kitties[id].dna == dna_mix(
                        random_dna,
                        s.kitties[parent1].dna,
                        s.kitties[parent2].dna,
                    )
                    &&& n.kitties[id].gender == gender
                },
            }
        }),
{
}

/// Parents of the same DNA have a child of that DNA, whatever the random DNA.
pub proof fn law_breed_same_dna(g: Seq<u8>, a: Seq<u8>)
    requires
        g.len() == 16,
        a.len() == 16,
    ensures
        dna_mix(g, a, a) == a,
{
    assert forall|i: int| 0 <= i < 16 implies dna_mix(g, a, a)[i] == a[i] by {
        let x = g[i];
        let y = a[i];
        assert((x & y) | (!x & y) == y) by (bit_vector);
    }
    assert(dna_mix(g, a, a) =~= a);
}

/// Each bit of a child's DNA is the bit of one of its parents: of the first
/// where the random DNA has a one, of the second where it has a zero.
pub proof fn law_breed_bits_from_parents(g: Seq<u8>, a: Seq<u8>, b: Seq<u8>, i: int, bit: u8)
    requires
        0 <= i < 16,
        g.len() == 16,
        a.len() == 16,
        b.len() == 16,
        bit < 8,
    ensures
        (g[i] >> bit) & 1 == 1 ==> (dna_mix(g, a, b)[i] >> bit) & 1 == (a[i] >> bit) & 1,
        (g[i] >> bit) & 1 == 0 ==> (dna_mix(g, a, b)[i] >> bit) & 1 == (b[i] >> bit) & 1,
{
    let x = g[i];
    let y = a[i];
    let z = b[i];
    assert(dna_mix(g, a, b)[i] == mix_byte(x, y, z));
    assert((x >> bit) & 1 == 1 ==> (((x & y) | (!x & z)) >> bit) & 1 == (y >> bit) & 1)
        by (bit_vector)
        requires
            bit < 8,
    ;
    assert((x >> bit) & 1 == 0 ==> (((x & y) | (!x & z)) >> bit) & 1 == (z >> bit) & 1)
        by (bit_vector)
        requires
            bit < 8,
    ;
}

/// An account never owns more than `MAX_KITTY_OWNED` kitties, and the
/// number of kitties is the kitty counter: kitties are numbered 1 to it.
pub proof fn law_bounded_ownership(s: PalletState, who: AccountId)
    requires
        s.inv(),
    ensures
        s.owned[who].len() <= MAX_KITTY_OWNED,
        s.kitties.dom() =~= Set::new(|id: KittyIndex| 1 <= id <= s.kitty_cnt),
{
}

/// A refused creation leaves storage unchanged; an accepted one needs a free
/// balance covering the stake and reports the new kitty, which the creator owns.
pub proof fn law_create_needs_stake(
    s: PalletState,
    sender: AccountId,
    free_balance: Balance,
    dna: Seq<u8>,
    gender: Gender,
)
    requires
        s.inv(),
    ensures
        ({
            let (r, n) = create_outcome(s, sender, free_balance, dna, gender);
            match r {
                Err(_) => n == s,
                Ok(e) => {
                    &&& free_balance >= NEED_LOCK_BALANCE
                    &&& e == Event::Created(sender, n.kitty_cnt)
                    &&& n.owns(sender, n.kitty_cnt)
                    &&& n.kitties[n.kitty_cnt].dna == dna
                    &&& n.kitty_cnt == s.kitty_cnt + 1
                },
            }
        }),
{
}


/// A mint is accepted exactly when the counter can grow and the owner has
/// room for one more kitty.
pub proof fn law_mint_accepted_iff_room(
    s: PalletState,
    owner: AccountId,
    dna: Seq<u8>,
    gender: Gender,
)
    ensures
        mint_outcome(s, owner, dna, gender).0 is Ok <==> (s.kitty_cnt < u64::MAX
            && s.owned[owner].len() < MAX_KITTY_OWNED),
{
}

/// The gender of the kitty a creation mints is male exactly when the first
/// byte of the runtime's random value for the subject `"gender"` is even.
pub proof fn law_created_gender_follows_randomness<T: Config>(
    s: PalletState,
    rt: T,
    sender: AccountId,
    free_balance: Balance,
    subject: &[u8],
)
    requires
        subject@ == seq![103u8, 101u8, 110u8, 100u8, 101u8, 114u8],
        create_outcome(s, sender, free_balance, drawn_dna(rt), drawn_gender(rt)).0 is Ok,
    ensures
        ({
            let n = create_outcome(s, sender, free_balance, drawn_dna(rt), drawn_gender(rt)).1;
            n.kitties[n.kitty_cnt].gender == if rt.spec_random(subject).0[0] % 2 == 0 {
                Gender::Male
            } else {
                Gender::Female
            }
        }),
{
    lemma_subject_slice(subject);
}

/// The DNA of the kitty a creation mints is the Blake2-128 hash of the SCALE
/// encoding of the runtime's random seed (hash, then the block it was drawn
/// at) followed by the current block number.
pub proof fn law_created_dna_is_seed_hash<T: Config>(
    s: PalletState,
    rt: T,
    sender: AccountId,
    free_balance: Balance,
)
    requires
        create_outcome(s, sender, free_balance, drawn_dna(rt), drawn_gender(rt)).0 is Ok,
    ensures
        ({
            let n = create_outcome(s, sender, free_balance, drawn_dna(rt), drawn_gender(rt)).1;
            n.kitties[n.kitty_cnt].dna == spec_blake2_128(
                rt.spec_random_seed().0@ + u64_le_bytes(rt.spec_random_seed().1) + u64_le_bytes(
                    rt.spec_block_number(),
                ),
            )
        }),
{
}

/// A bred kitty's gender is male exactly when the first byte of the runtime's
/// random value for the subject `"gender"` is even.
pub proof fn law_bred_gender_follows_randomness<T: Config>(
    s: PalletState,
    rt: T,
    sender: AccountId,
    parent1: KittyIndex,
    parent2: KittyIndex,
    subject: &[u8],
)
    requires
        subject@ == seq![103u8, 101u8, 110u8, 100u8, 101u8, 114u8],
    ensures
        ({
            let (r, n) = breed_outcome(s, sender, parent1, parent2, drawn_dna(rt), drawn_gender(rt));
            r matches Ok(id) ==> n.kitties[id].gender == if rt.spec_random(subject).0[0] % 2 == 0 {
                Gender::Male
            } else {
                Gender::Female
            }
        }),
{
    lemma_subject_slice(subject);
}

/// Each byte of a bred kitty's DNA takes the bits of the first parent's byte
/// where the random mask has a one and those of the second parent's where it
/// has a zero; the mask is the Blake2-128 hash of the SCALE encoding of the
/// runtime's random seed (hash, then the block it was drawn at) followed by
/// the current block number.
pub proof fn law_bred_dna_mixes_parents_under_seed_hash<T: Config>(
    s: PalletState,
    rt: T,
    sender: AccountId,
    parent1: KittyIndex,
    parent2: KittyIndex,
    gender: Gender,
)
    ensures
        ({
            let (r, n) = breed_outcome(s, sender, parent1, parent2, drawn_dna(rt), gender);
            let g = spec_blake2_128(
                rt.spec_random_seed().0@ + u64_le_bytes(rt.spec_random_seed().1) + u64_le_bytes(
                    rt.spec_block_number(),
                ),
            );
            r matches Ok(id) ==> {
                &&& n.kitties[id].dna.len() == 16
                &&& forall|i: int|
                    0 <= i < 16 ==> #[trigger] n.kitties[id].dna[i] == (g[i]
                        & s.kitties[parent1].dna[i]) | (!g[i] & s.kitties[parent2].dna[i])
            }
        }),
{
}

/// The slice whose bytes spell `"gender"` is the one the drawn gender reads.
proof fn lemma_subject_slice(subject: &[u8])
    requires
        subject@ == seq![103u8, 101u8, 110u8, 100u8, 101u8, 114u8],
    ensures
        (choose|s: &[u8]| s@ == gender_subject()) == subject,
{
    assert(subject@ =~= gender_subject());
    let c = choose|s: &[u8]| s@ == gender_subject();
    assert(c@ == gender_subject());
    assert(c =~= subject);
}

/// The owner of an existing kitty can always set its price, to any price or
/// none, and the kitty then has that price; anyone else is refused with
/// `NotKittyOwner`, and a missing kitty with `KittyNotExist`.
pub proof fn law_owner_can_always_set_price(
    s: PalletState,
    sender: AccountId,
    id: KittyIndex,
    price: Option<Balance>,
)
    ensures
        ({
            let (r, n) = set_price_outcome(s, sender, id, price);
            &&& (r is Ok <==> s.kitties.contains_key(id) && s.kitties[id].owner == sender)
            &&& r is Ok ==> n.kitties[id].price == price
            &&& !s.kitties.contains_key(id) ==> r == Err::<Event, Error>(Error::KittyNotExist)
            &&& s.kitties.contains_key(id) && s.kitties[id].owner != sender ==> r == Err::<
                Event,
                Error,
            >(Error::NotKittyOwner)
        }),
{
}

/// The checks of a purchase pass exactly when the kitty exists, is not the
/// buyer's, is listed at an ask no greater than the bid, the buyer's free
/// balance covers the bid and the buyer owns fewer than `MAX_KITTY_OWNED`
/// kitties; the seller is then the kitty's owner.  With checks passed and the
/// payment accepted, the purchase succeeds.
pub proof fn law_buy_checks_pass_iff(
    s: PalletState,
    buyer: AccountId,
    id: KittyIndex,
    bid_price: Balance,
    buyer_free_balance: Balance,
)
    requires
        s.inv(),
    ensures
        check_buy_outcome(s, buyer, id, bid_price, buyer_free_balance) is Ok <==> {
            &&& s.kitties.contains_key(id)
            &&& s.kitties[id].owner != buyer
            &&& s.kitties[id].price matches Some(ask) && ask <= bid_price
            &&& buyer_free_balance >= bid_price
            &&& s.owned[buyer].len() < MAX_KITTY_OWNED
        },
        check_buy_outcome(s, buyer, id, bid_price, buyer_free_balance) matches Ok(seller)
            ==> seller == s.kitties[id].owner,
        check_buy_outcome(s, buyer, id, bid_price, buyer_free_balance) is Ok ==> buy_outcome(
            s,
            buyer,
            id,
            bid_price,
            buyer_free_balance,
            Ok(()),
        ).0 is Ok,
{
    if check_buy_outcome(s, buyer, id, bid_price, buyer_free_balance) is Ok {
        law_transfer_kitty_to_keeps_invariant(s, id, buyer);
    }
}

/// Genesis mints its entries one after another, each independently of
/// whether an earlier one was refused: the storage built from some entries
/// and one more is the mint of that entry on the storage built from the first.
pub proof fn law_genesis_mints_each_entry(
    entries: Seq<(AccountId, [u8; 16], Gender)>,
    e: (AccountId, [u8; 16], Gender),
)
    ensures
        genesis_state(entries.push(e)) == mint_outcome(genesis_state(entries), e.0, e.1@, e.2).1,
{
    assert(entries.push(e).drop_last() =~= entries);
}

/// A genesis entry whose owner still has room becomes the next kitty, with
/// the DNA and gender given, not for sale, whatever the earlier entries were.
pub proof fn law_genesis_entry_with_room_is_minted(
    entries: Seq<(AccountId, [u8; 16], Gender)>,
    e: (AccountId, [u8; 16], Gender),
)
    requires
        genesis_state(entries).kitty_cnt < u64::MAX,
        genesis_state(entries).owned[e.0].len() < MAX_KITTY_OWNED,
    ensures
        ({
            let p = genesis_state(entries);
            let q = genesis_state(entries.push(e));
            &&& q.kitty_cnt == p.kitty_cnt + 1
            &&& q.kitties[q.kitty_cnt] == (KittyView {
                dna: e.1@,
                price: None,
                gender: e.2,
                owner: e.0,
            })
        }),
{
    law_genesis_mints_each_entry(entries, e);
}

/// A creation succeeds exactly when the creator's free balance covers the
/// stake, the counter can grow and the creator has room for one more kitty.
pub proof fn law_create_succeeds_iff(
    s: PalletState,
    sender: AccountId,
    free_balance: Balance,
    dna: Seq<u8>,
    gender: Gender,
)
    ensures
        create_outcome(s, sender, free_balance, dna, gender).0 is Ok <==> (free_balance
            >= NEED_LOCK_BALANCE && s.kitty_cnt < u64::MAX && s.owned[sender].len()
            < MAX_KITTY_OWNED),
{
}

/// A transfer succeeds exactly when the sender owns the kitty, the recipient
/// is someone else with room for one more kitty, and the recipient's free
/// balance covers the stake.
pub proof fn law_transfer_succeeds_iff(
    s: PalletState,
    sender: AccountId,
    to: AccountId,
    id: KittyIndex,
    to_free_balance: Balance,
)
    requires
        s.inv(),
    ensures
        transfer_outcome(s, sender, to, id, to_free_balance).0 is Ok <==> (s.owns(sender, id)
            && sender != to && s.owned[to].len() < MAX_KITTY_OWNED && to_free_balance
            >= NEED_LOCK_BALANCE),
{
    if s.owns(sender, id) && s.owned[to].len() < MAX_KITTY_OWNED {
        law_transfer_kitty_to_keeps_invariant(s, id, to);
    }
}

/// Breeding succeeds exactly when the sender owns both parents, the counter
/// can grow and the sender has room for one more kitty.
pub proof fn law_breed_succeeds_iff(
    s: PalletState,
    sender: AccountId,
    parent1: KittyIndex,
    parent2: KittyIndex,
    random_dna: Seq<u8>,
    gender: Gender,
)
    ensures
        breed_outcome(s, sender, parent1, parent2, random_dna, gender).0 is Ok <==> (s.owns(
            sender,
            parent1,
        ) && s.owns(sender, parent2) && s.kitty_cnt < u64::MAX && s.owned[sender].len()
            < MAX_KITTY_OWNED),
{
}

} // verus!
