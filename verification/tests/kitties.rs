use std::collections::HashMap;

use pallet_kitties::{
    run_to_block, Balance, BlockNumber, Config, DispatchError, Error, Event, Gender,
    LockIdentifier, Origin, Pallet, SystemCall, SystemConfig, WithdrawReasons,
    ALL_WITHDRAW_REASONS, KITTIES_ID,
};

/// The runtime the pallet's tests run in: balances with locks, a block number,
/// an event log, a log of system calls and a randomness derived from the
/// block number.
struct TestRuntime {
    block: BlockNumber,
    balances: HashMap<u64, Balance>,
    locks: HashMap<(LockIdentifier, u64), (Balance, WithdrawReasons)>,
    events: Vec<Event>,
    system_log: Vec<SystemCall>,
}

impl SystemConfig for TestRuntime {
    fn spec_block_number(&self) -> BlockNumber {
        self.block
    }

    fn spec_system_log(&self) -> Vec<SystemCall> {
        self.system_log.clone()
    }

    fn spec_free_balance(&self, who: u64) -> Balance {
        *self.balances.get(&who).unwrap_or(&0)
    }

    fn spec_lock(&self, id: LockIdentifier, who: u64) -> (Balance, WithdrawReasons) {
        *self.locks.get(&(id, who)).unwrap_or(&(0, 0))
    }

    fn spec_events(&self) -> Vec<Event> {
        self.events.clone()
    }

    fn block_number(&self) -> BlockNumber {
        self.block
    }

    fn set_block_number(&mut self, n: BlockNumber) {
        self.block = n;
        self.system_log.push(SystemCall::SetBlockNumber(n));
    }

    fn on_initialize(&mut self, n: BlockNumber) {
        self.system_log.push(SystemCall::OnInitialize(n));
    }

    fn on_finalize(&mut self, n: BlockNumber) {
        self.system_log.push(SystemCall::OnFinalize(n));
    }
}

impl Config for TestRuntime {
    fn spec_transfer(&self, source: u64, _dest: u64, value: Balance) -> Result<(), DispatchError> {
        let free = self.spec_free_balance(source);
        let locked = self.spec_lock(KITTIES_ID, source).0;
        if free < value || free - value < locked {
            Err(DispatchError::Other)
        } else {
            Ok(())
        }
    }

    fn spec_random(&self, subject: &[u8]) -> ([u8; 32], BlockNumber) {
        let mut r = [0u8; 32];
        for (i, b) in subject.iter().enumerate() {
            r[i % 32] ^= *b;
        }
        r[0] = r[0].wrapping_add(self.block as u8);
        (r, self.block)
    }

    fn spec_random_seed(&self) -> ([u8; 32], BlockNumber) {
        ([self.block as u8; 32], self.block)
    }

    fn free_balance(&self, who: u64) -> Balance {
        self.spec_free_balance(who)
    }

    fn set_lock(&mut self, id: LockIdentifier, who: u64, amount: Balance, reasons: WithdrawReasons) {
        self.locks.insert((id, who), (amount, reasons));
    }

    fn transfer(&mut self, source: u64, dest: u64, value: Balance) -> Result<(), DispatchError> {
        self.spec_transfer(source, dest, value)?;
        if source != dest {
            let free = self.free_balance(source);
            self.balances.insert(source, free - value);
            let dest_free = self.free_balance(dest);
            self.balances.insert(dest, dest_free + value);
        }
        Ok(())
    }

    fn random(&self, subject: &[u8]) -> ([u8; 32], BlockNumber) {
        self.spec_random(subject)
    }

    fn random_seed(&self) -> ([u8; 32], BlockNumber) {
        self.spec_random_seed()
    }

    fn deposit_event(&mut self, event: Event) {
        self.events.push(event);
    }
}

/// Storage and runtime at genesis: accounts 1 to 5 hold 100, 0, 22, 100, 100.
fn new_test_ext() -> (Pallet, TestRuntime) {
    let mut balances = HashMap::new();
    for (who, amount) in [(1u64, 100u128), (2, 0), (3, 22), (4, 100), (5, 100)] {
        balances.insert(who, amount);
    }
    (
        Pallet::new(),
        TestRuntime {
            block: 0,
            balances,
            locks: HashMap::new(),
            events: Vec::new(),
            system_log: Vec::new(),
        },
    )
}

fn module(e: Error) -> Result<(), DispatchError> {
    Err(DispatchError::Module(e))
}

#[test]
fn test_create_kitty() {
    let (mut p, mut rt) = new_test_ext();
    rt.set_block_number(1);
    assert_eq!(p.create_kitty(&mut rt, Origin::signed(1)), Ok(()));
    assert_eq!(p.create_kitty(&mut rt, Origin::signed(1)), Ok(()));
    assert_eq!(p.create_kitty(&mut rt, Origin::signed(1)), Ok(()));
    assert_eq!(p.create_kitty(&mut rt, Origin::signed(2)), module(Error::NotEnoughBalanceForStake));
    let to_owned = p.kittles_owned(1);
    assert_eq!(to_owned.get(0), Some(&1u64));
    assert_eq!(p.create_kitty(&mut rt, Origin::signed(1)), module(Error::ExceedMaxKittyOwned));
}

#[test]
fn test_set_price() {
    let (mut p, mut rt) = new_test_ext();
    rt.set_block_number(1);
    assert_eq!(p.create_kitty(&mut rt, Origin::signed(1)), Ok(()));
    assert_eq!(p.set_price(&mut rt, Origin::signed(1), 1, Option::Some(1)), Ok(()));
    assert_eq!(p.set_price(&mut rt, Origin::signed(1), 2, Option::Some(1)), module(Error::KittyNotExist));
    assert_eq!(p.set_price(&mut rt, Origin::signed(2), 1, Option::Some(1)), module(Error::NotKittyOwner));
}

#[test]
fn test_transfer() {
    let (mut p, mut rt) = new_test_ext();
    rt.set_block_number(1);
    assert_eq!(p.create_kitty(&mut rt, Origin::signed(1)), Ok(()));
    assert_eq!(p.transfer(&mut rt, Origin::signed(1), 2, 1), module(Error::NotEnoughBalanceForStake));
    assert_eq!(p.transfer(&mut rt, Origin::signed(2), 2, 1), module(Error::TransferToSelf));
    assert_eq!(p.transfer(&mut rt, Origin::signed(1), 2, 1), module(Error::NotKittyOwner));
    assert_eq!(p.transfer(&mut rt, Origin::signed(2), 1, 1), Ok(()));
    assert_eq!(p.create_kitty(&mut rt, Origin::signed(3)), Ok(()));
    assert_eq!(p.create_kitty(&mut rt, Origin::signed(3)), Ok(()));
    assert_eq!(p.create_kitty(&mut rt, Origin::signed(3)), Ok(()));
    assert_eq!(p.transfer(&mut rt, Origin::signed(1), 3, 1), module(Error::ExceedMaxKittyOwned));
}

#[test]
fn test_buy_kitty() {
    let (mut p, mut rt) = new_test_ext();
    rt.set_block_number(1);
    assert_eq!(p.create_kitty(&mut rt, Origin::signed(1)), Ok(()));
    assert_eq!(p.create_kitty(&mut rt, Origin::signed(3)), Ok(()));
    assert_eq!(p.create_kitty(&mut rt, Origin::signed(3)), Ok(()));
    assert_eq!(p.create_kitty(&mut rt, Origin::signed(3)), Ok(()));
    assert_eq!(p.buy_kitty(&mut rt, Origin::signed(2), 1, 6), module(Error::KittyNotForSale));
    assert_eq!(p.set_price(&mut rt, Origin::signed(1), 1, Option::Some(10)), Ok(()));
    assert_eq!(p.buy_kitty(&mut rt, Origin::signed(1), 1, 6), module(Error::BuyerIsKittyOwner));
    assert_eq!(p.buy_kitty(&mut rt, Origin::signed(2), 1, 6), module(Error::KittyBidPriceTooLow));
    assert_eq!(p.buy_kitty(&mut rt, Origin::signed(2), 1, 12), module(Error::NotEnoughBalance));
    assert_eq!(p.buy_kitty(&mut rt, Origin::signed(3), 1, 10), module(Error::ExceedMaxKittyOwned));
}

#[test]
fn test_breed_kitty() {
    let (mut p, mut rt) = new_test_ext();
    rt.set_block_number(1);
    assert_eq!(p.create_kitty(&mut rt, Origin::signed(1)), Ok(()));
    assert_eq!(p.create_kitty(&mut rt, Origin::signed(1)), Ok(()));
    assert_eq!(p.breed_kitty(&mut rt, Origin::signed(1), 1, 2), Ok(()));
    assert_eq!(p.breed_kitty(&mut rt, Origin::signed(1), 3, 4), module(Error::KittyNotExist));
    assert_eq!(p.breed_kitty(&mut rt, Origin::signed(1), 1, 2), module(Error::ExceedMaxKittyOwned));
    assert_eq!(p.transfer(&mut rt, Origin::signed(1), 3, 2), Ok(()));
    assert_eq!(p.breed_kitty(&mut rt, Origin::signed(1), 1, 2), module(Error::NotKittyOwner));
}

#[test]
fn create_kitty_locks_stake_and_deposits_event() {
    let (mut p, mut rt) = new_test_ext();
    rt.set_block_number(1);
    assert_eq!(p.create_kitty(&mut rt, Origin::signed(4)), Ok(()));
    assert_eq!(rt.spec_lock(KITTIES_ID, 4), (10, ALL_WITHDRAW_REASONS));
    assert_eq!(rt.events, vec![Event::Created(4, 1)]);
    assert_eq!(p.kitty_cnt(), 1);
    let k = p.kitties(1).unwrap();
    assert_eq!(k.owner, 4);
    assert_eq!(k.price, None);
    assert_eq!(p.kitties(2), None);
}

#[test]
fn unsigned_origin_is_refused() {
    let (mut p, mut rt) = new_test_ext();
    assert_eq!(p.create_kitty(&mut rt, Origin::Root), Err(DispatchError::BadOrigin));
    assert_eq!(p.create_kitty(&mut rt, Origin::Unsigned), Err(DispatchError::BadOrigin));
    assert_eq!(p.set_price(&mut rt, Origin::Root, 1, None), Err(DispatchError::BadOrigin));
    assert_eq!(p.transfer(&mut rt, Origin::Unsigned, 1, 1), Err(DispatchError::BadOrigin));
    assert_eq!(p.buy_kitty(&mut rt, Origin::Root, 1, 1), Err(DispatchError::BadOrigin));
    assert_eq!(p.breed_kitty(&mut rt, Origin::Root, 1, 2), Err(DispatchError::BadOrigin));
    assert_eq!(p.kitty_cnt(), 0);
}

#[test]
fn buy_kitty_pays_seller_and_moves_kitty() {
    let (mut p, mut rt) = new_test_ext();
    rt.set_block_number(1);
    assert_eq!(p.create_kitty(&mut rt, Origin::signed(1)), Ok(()));
    assert_eq!(p.set_price(&mut rt, Origin::signed(1), 1, Some(30)), Ok(()));
    assert_eq!(p.buy_kitty(&mut rt, Origin::signed(4), 1, 35), Ok(()));
    let k = p.kitties(1).unwrap();
    assert_eq!(k.owner, 4);
    assert_eq!(k.price, None);
    assert_eq!(rt.free_balance(4), 65);
    assert_eq!(rt.free_balance(1), 135);
    assert_eq!(p.kittles_owned(1).len(), 0);
    assert_eq!(p.kittles_owned(4).get(0), Some(&1u64));
    assert_eq!(rt.events.last(), Some(&Event::Bought(4, 1, 1, 35)));
}

#[test]
fn refused_payment_leaves_storage_unchanged() {
    let (mut p, mut rt) = new_test_ext();
    rt.set_block_number(1);
    assert_eq!(p.create_kitty(&mut rt, Origin::signed(1)), Ok(()));
    assert_eq!(p.create_kitty(&mut rt, Origin::signed(3)), Ok(()));
    assert_eq!(p.set_price(&mut rt, Origin::signed(1), 1, Some(20)), Ok(()));
    // Account 3 holds 22 of which 10 are locked: the runtime refuses to pay 20.
    assert_eq!(p.buy_kitty(&mut rt, Origin::signed(3), 1, 20), Err(DispatchError::Other));
    assert_eq!(p.kitties(1).unwrap().owner, 1);
    assert_eq!(p.kitties(1).unwrap().price, Some(20));
    assert_eq!(p.kittles_owned(3).len(), 1);
}

#[test]
fn set_price_then_read() {
    let (mut p, mut rt) = new_test_ext();
    assert_eq!(p.create_kitty(&mut rt, Origin::signed(5)), Ok(()));
    assert_eq!(p.set_price(&mut rt, Origin::signed(5), 1, Some(7)), Ok(()));
    assert_eq!(p.kitties(1).unwrap().price, Some(7));
    assert_eq!(rt.events.last(), Some(&Event::PriceSet(5, 1, Some(7))));
    assert_eq!(p.set_price(&mut rt, Origin::signed(5), 1, None), Ok(()));
    assert_eq!(p.kitties(1).unwrap().price, None);
}

#[test]
fn transfer_and_back_restores_owner() {
    let (mut p, mut rt) = new_test_ext();
    assert_eq!(p.create_kitty(&mut rt, Origin::signed(1)), Ok(()));
    assert_eq!(p.create_kitty(&mut rt, Origin::signed(1)), Ok(()));
    let dna = p.kitties(1).unwrap().dna;
    assert_eq!(p.set_price(&mut rt, Origin::signed(1), 1, Some(3)), Ok(()));
    assert_eq!(p.transfer(&mut rt, Origin::signed(1), 4, 1), Ok(()));
    assert_eq!(p.kitties(1).unwrap().owner, 4);
    assert_eq!(p.kitties(1).unwrap().price, None);
    assert_eq!(rt.events.last(), Some(&Event::Transferred(1, 4, 1)));
    assert_eq!(p.transfer(&mut rt, Origin::signed(4), 1, 1), Ok(()));
    let k = p.kitties(1).unwrap();
    assert_eq!(k.owner, 1);
    assert_eq!(k.dna, dna);
    let owned = p.kittles_owned(1);
    assert_eq!(owned.len(), 2);
    assert!(owned.contains(&1) && owned.contains(&2));
    assert_eq!(p.kittles_owned(4).len(), 0);
}

#[test]
fn transfer_of_missing_kitty_is_refused() {
    let (mut p, mut rt) = new_test_ext();
    assert_eq!(p.transfer(&mut rt, Origin::signed(1), 4, 9), module(Error::KittyNotExist));
}

#[test]
fn bred_kitty_mixes_parent_dna() {
    let (mut p, mut rt) = new_test_ext();
    rt.set_block_number(3);
    assert_eq!(p.create_kitty(&mut rt, Origin::signed(1)), Ok(()));
    assert_eq!(p.create_kitty(&mut rt, Origin::signed(1)), Ok(()));
    let d1 = p.kitties(1).unwrap().dna;
    let d2 = p.kitties(2).unwrap().dna;
    assert_eq!(p.breed_kitty(&mut rt, Origin::signed(1), 1, 2), Ok(()));
    let child = p.kitties(3).unwrap();
    assert_eq!(child.owner, 1);
    let g = pallet_kitties::dna_from_seed(&[3u8; 32], 3, 3);
    for i in 0..16 {
        assert_eq!(child.dna[i], (g[i] & d1[i]) | (!g[i] & d2[i]));
    }
    assert_eq!(p.breed_dna(&rt, &1, &2), Ok(child.dna));
    assert_eq!(p.breed_dna(&rt, &1, &9), Err(Error::KittyNotExist));
}

#[test]
fn run_to_block_reaches_target() {
    let (_p, mut rt) = new_test_ext();
    run_to_block(&mut rt, 2);
    assert_eq!(rt.block_number(), 2);
    assert_eq!(
        rt.system_log,
        vec![
            SystemCall::SetBlockNumber(1),
            SystemCall::OnInitialize(1),
            SystemCall::OnFinalize(1),
            SystemCall::SetBlockNumber(2),
            SystemCall::OnInitialize(2),
        ]
    );
    run_to_block(&mut rt, 1);
    assert_eq!(rt.block_number(), 2);
    assert_eq!(rt.system_log.len(), 5);
    run_to_block(&mut rt, 3);
    assert_eq!(rt.system_log[5..].to_vec(), vec![
        SystemCall::OnFinalize(2),
        SystemCall::SetBlockNumber(3),
        SystemCall::OnInitialize(3),
    ]);
}

#[test]
fn run_to_block_leaves_balances_locks_and_events() {
    let (mut p, mut rt) = new_test_ext();
    assert_eq!(p.create_kitty(&mut rt, Origin::signed(1)), Ok(()));
    run_to_block(&mut rt, 4);
    assert_eq!(rt.block_number(), 4);
    assert_eq!(rt.free_balance(1), 100);
    assert_eq!(rt.spec_lock(KITTIES_ID, 1), (10, ALL_WITHDRAW_REASONS));
    assert_eq!(rt.events, vec![Event::Created(1, 1)]);
    assert_eq!(p.kitty_cnt(), 1);
}

#[test]
fn repeated_creation_keeps_one_stake() {
    let (mut p, mut rt) = new_test_ext();
    assert_eq!(p.create_kitty(&mut rt, Origin::signed(5)), Ok(()));
    assert_eq!(p.create_kitty(&mut rt, Origin::signed(5)), Ok(()));
    assert_eq!(rt.spec_lock(KITTIES_ID, 5), (10, ALL_WITHDRAW_REASONS));
    assert_eq!(rt.free_balance(5), 100);
    assert_eq!(rt.events, vec![Event::Created(5, 1), Event::Created(5, 2)]);
    assert_eq!(p.create_kitty(&mut rt, Origin::signed(2)), module(Error::NotEnoughBalanceForStake));
    assert_eq!(rt.spec_lock(KITTIES_ID, 2), (0, 0));
    assert_eq!(rt.events.len(), 2);
}

#[test]
fn gender_follows_randomness() {
    let (mut p, mut rt) = new_test_ext();
    rt.set_block_number(0);
    assert_eq!(p.create_kitty(&mut rt, Origin::signed(1)), Ok(()));
    let expected =
        pallet_kitties::gender_from_random(&rt.random(&[103, 101, 110, 100, 101, 114]).0);
    assert_eq!(p.kitties(1).unwrap().gender, expected);
    let _ = Gender::Female;
}
