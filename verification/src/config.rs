//! What the runtime hosting the pallet supplies.

use vstd::prelude::*;

use crate::types::{
    AccountId, Balance, BlockNumber, DispatchError, Event, LockIdentifier, WithdrawReasons,
};

verus! {

/// A call the pallet's block driver makes on the system part of the runtime.
#[derive(Clone, Copy, Debug, PartialEq, Eq)]
pub enum SystemCall {
    SetBlockNumber(BlockNumber),
    OnInitialize(BlockNumber),
    OnFinalize(BlockNumber),
}

/// The system part of the runtime: its block number, the hooks run as blocks
/// begin and end, and what the system holds for the other pallets (the
/// accounts' balances and locks, and the pallet's events).  An implementation
/// keeps the block number where `set_block_number` puts it, records each of
/// these calls in its log, and changes no balance, lock or event on them.
pub trait SystemConfig {
    /// The runtime's current block number.
    spec fn spec_block_number(&self) -> BlockNumber;

    /// The system calls made on the runtime so far, oldest first.
    spec fn spec_system_log(&self) -> Vec<SystemCall>;

    /// The free balance of `who`.
    spec fn spec_free_balance(&self, who: AccountId) -> Balance;

    /// The lock under `id` on the balance of `who`: its amount and the kinds
    /// of withdrawal it blocks (`(0, 0)`: no lock).
    spec fn spec_lock(&self, id: LockIdentifier, who: AccountId) -> (Balance, WithdrawReasons);

    /// The events of the pallet deposited so far, oldest first.
    spec fn spec_events(&self) -> Vec<Event>;

    fn block_number(&self) -> (n: BlockNumber)
        ensures
            n == self.spec_block_number(),
    ;

    fn set_block_number(&mut self, n: BlockNumber)
        ensures
            final(self).spec_block_number() == n,
            final(self).spec_system_log()@ == old(self).spec_system_log()@.push(
                SystemCall::SetBlockNumber(n),
            ),
            forall|w: AccountId| #[trigger]
                final(self).spec_free_balance(w) == old(self).spec_free_balance(w),
            forall|i: LockIdentifier, w: AccountId| #[trigger]
                final(self).spec_lock(i, w) == old(self).spec_lock(i, w),
            final(self).spec_events()@ == old(self).spec_events()@,
    ;

    fn on_initialize(&mut self, n: BlockNumber)
        ensures
            final(self).spec_block_number() == old(self).spec_block_number(),
            final(self).spec_system_log()@ == old(self).spec_system_log()@.push(
                SystemCall::OnInitialize(n),
            ),
            forall|w: AccountId| #[trigger]
                final(self).spec_free_balance(w) == old(self).spec_free_balance(w),
            forall|i: LockIdentifier, w: AccountId| #[trigger]
                final(self).spec_lock(i, w) == old(self).spec_lock(i, w),
            final(self).spec_events()@ == old(self).spec_events()@,
    ;

    fn on_finalize(&mut self, n: BlockNumber)
        ensures
            final(self).spec_block_number() == old(self).spec_block_number(),
            final(self).spec_system_log()@ == old(self).spec_system_log()@.push(
                SystemCall::OnFinalize(n),
            ),
            forall|w: AccountId| #[trigger]
                final(self).spec_free_balance(w) == old(self).spec_free_balance(w),
            forall|i: LockIdentifier, w: AccountId| #[trigger]
                final(self).spec_lock(i, w) == old(self).spec_lock(i, w),
            final(self).spec_events()@ == old(self).spec_events()@,
    ;
}

/// The pallet's configuration: the runtime's currency (free balances, locks,
/// transfers), its randomness and its record of the pallet's events.  Each
/// value read is what the runtime's current state gives.
pub trait Config: SystemConfig {
    /// Whether the currency accepts moving `value` from `source` to `dest`, and why not.
    spec fn spec_transfer(&self, source: AccountId, dest: AccountId, value: Balance) -> Result<
        (),
        DispatchError,
    >;

    /// The random value for `subject`, with the block it was drawn at.
    spec fn spec_random(&self, subject: &[u8]) -> ([u8; 32], BlockNumber);

    /// The random seed, with the block it was drawn at.
    spec fn spec_random_seed(&self) -> ([u8; 32], BlockNumber);

    /// The free balance of `who`.
    fn free_balance(&self, who: AccountId) -> (b: Balance)
        ensures
            b == self.spec_free_balance(who),
    ;

    /// Locks `amount` of the balance of `who` under `id` against the kinds of
    /// withdrawal `reasons`, replacing an earlier lock of that id; free
    /// balances and other locks stay as they are.
    fn set_lock(
        &mut self,
        id: LockIdentifier,
        who: AccountId,
        amount: Balance,
        reasons: WithdrawReasons,
    )
        ensures
            final(self).spec_lock(id, who) == (amount, reasons),
            forall|i: LockIdentifier, w: AccountId|
                !(i == id && w == who) ==> #[trigger] final(self).spec_lock(i, w) == old(
                    self,
                ).spec_lock(i, w),
            forall|w: AccountId| #[trigger]
                final(self).spec_free_balance(w) == old(self).spec_free_balance(w),
            final(self).spec_events()@ == old(self).spec_events()@,
            final(self).spec_block_number() == old(self).spec_block_number(),
            final(self).spec_system_log()@ == old(self).spec_system_log()@,
    ;

    /// Moves `value` from `source` to `dest`, keeping `source` alive, or
    /// reports why it cannot; a refused transfer moves nothing.
    fn transfer(&mut self, source: AccountId, dest: AccountId, value: Balance) -> (r: Result<
        (),
        DispatchError,
    >)
        ensures
            r == old(self).spec_transfer(source, dest, value),
            forall|w: AccountId| #[trigger]
                final(self).spec_free_balance(w) == if r is Ok && source != dest && w == source {
                    old(self).spec_free_balance(w) - value
                } else if r is Ok && source != dest && w == dest {
                    old(self).spec_free_balance(w) + value
                } else {
                    old(self).spec_free_balance(w) as int
                },
            forall|i: LockIdentifier, w: AccountId| #[trigger]
                final(self).spec_lock(i, w) == old(self).spec_lock(i, w),
            final(self).spec_events()@ == old(self).spec_events()@,
            final(self).spec_block_number() == old(self).spec_block_number(),
            final(self).spec_system_log()@ == old(self).spec_system_log()@,
    ;

    /// A random value for `subject`, with the block it was drawn at.
    fn random(&self, subject: &[u8]) -> (r: ([u8; 32], BlockNumber))
        ensures
            r == self.spec_random(subject),
    ;

    /// The current random seed, with the block it was drawn at.
    fn random_seed(&self) -> (r: ([u8; 32], BlockNumber))
        ensures
            r == self.spec_random_seed(),
    ;

    /// Records an event of the pallet; balances and locks stay as they are.
    fn deposit_event(&mut self, event: Event)
        ensures
            final(self).spec_events()@ == old(self).spec_events()@.push(event),
            forall|w: AccountId| #[trigger]
                final(self).spec_free_balance(w) == old(self).spec_free_balance(w),
            forall|i: LockIdentifier, w: AccountId| #[trigger]
                final(self).spec_lock(i, w) == old(self).spec_lock(i, w),
            final(self).spec_block_number() == old(self).spec_block_number(),
            final(self).spec_system_log()@ == old(self).spec_system_log()@,
    ;
}

/// The calls that advance the runtime from block `from` to block `to`: for
/// each block `b` from `from` up to `to - 1`, `on_finalize(b)` (from block 1
/// on), then `set_block_number(b + 1)`, then `on_initialize(b + 1)`.
pub open spec fn block_run(from: BlockNumber, to: BlockNumber) -> Seq<SystemCall>
    decreases to - from,
{
    if from >= to {
        Seq::empty()
    } else {
        block_step(from) + block_run((from + 1) as BlockNumber, to)
    }
}

/// The calls that advance the runtime from block `b` to block `b + 1`.
pub open spec fn block_step(b: BlockNumber) -> Seq<SystemCall> {
    (if b >= 1 {
        seq![SystemCall::OnFinalize(b)]
    } else {
        Seq::empty()
    }) + seq![
        SystemCall::SetBlockNumber((b + 1) as BlockNumber),
        SystemCall::OnInitialize((b + 1) as BlockNumber),
    ]
}

/// Advancing from `a` to `b` and then from `b` to `c` makes the calls of
/// advancing from `a` to `c`.
pub proof fn law_block_runs_compose(a: BlockNumber, b: BlockNumber, c: BlockNumber)
    requires
        a <= b <= c,
    ensures
        block_run(a, b) + block_run(b, c) == block_run(a, c),
    decreases b - a,
{
    if a < b {
        law_block_runs_compose((a + 1) as BlockNumber, b, c);
        assert(block_run(a, b) + block_run(b, c) =~= block_step(a) + (block_run(
            (a + 1) as BlockNumber,
            b,
        ) + block_run(b, c)));
    } else {
        assert(block_run(a, b) + block_run(b, c) =~= block_run(b, c));
    }
}

/// Two successive runs, to `a` and then to `c`, from block `b0`, make the calls
/// of one run to the later of `a` and `c`.
pub proof fn law_successive_runs(b0: BlockNumber, a: BlockNumber, c: BlockNumber)
    ensures
        block_run(b0, a) + block_run(if b0 < a { a } else { b0 }, c) == block_run(
            b0,
            if a < c { c } else { a },
        ),
{
    if b0 < a {
        if a <= c {
            law_block_runs_compose(b0, a, c);
        } else {
            assert(block_run(b0, a) + block_run(a, c) =~= block_run(b0, a));
        }
    } else {
        assert(block_run(b0, a) =~= Seq::<SystemCall>::empty());
        assert(block_run(b0, a) + block_run(b0, c) =~= block_run(b0, c));
        if a >= c {
            assert(block_run(b0, c) =~= Seq::<SystemCall>::empty());
            assert(block_run(b0, a) =~= Seq::<SystemCall>::empty());
        }
    }
}

/// Advances the runtime to block `n`: each block up to `n` is finalized (from
/// block 1 on), the next number set and that block initialized.  A runtime
/// already at `n` or beyond is left as it is.
pub fn run_to_block<T: SystemConfig>(rt: &mut T, n: BlockNumber)
    ensures
        final(rt).spec_block_number() == if old(rt).spec_block_number() < n {
            n
        } else {
            old(rt).spec_block_number()
        },
        final(rt).spec_system_log()@ == old(rt).spec_system_log()@ + block_run(
            old(rt).spec_block_number(),
            n,
        ),
        old(rt).spec_block_number() >= n ==> *final(rt) == *old(rt),
        forall|w: AccountId| #[trigger]
            final(rt).spec_free_balance(w) == old(rt).spec_free_balance(w),
        forall|i: LockIdentifier, w: AccountId| #[trigger]
            final(rt).spec_lock(i, w) == old(rt).spec_lock(i, w),
        final(rt).spec_events()@ == old(rt).spec_events()@,
{
    let b0 = rt.block_number();
    let mut b = b0;
    assert(block_run(b0, b0) =~= Seq::<SystemCall>::empty());
    while b < n
        invariant
            b == rt.spec_block_number(),
            b0 == old(rt).spec_block_number(),
            b0 <= b,
            b <= n || b == b0,
            rt.spec_system_log()@ == old(rt).spec_system_log()@ + block_run(b0, b),
            b == b0 ==> *rt == *old(rt),
            forall|w: AccountId| #[trigger]
                rt.spec_free_balance(w) == old(rt).spec_free_balance(w),
            forall|i: LockIdentifier, w: AccountId| #[trigger]
                rt.spec_lock(i, w) == old(rt).spec_lock(i, w),
            rt.spec_events()@ == old(rt).spec_events()@,
        decreases n - b,
    {
        let ghost before = rt.spec_system_log()@;
        if b >= 1 {
            rt.on_finalize(b);
        }
        let next = b + 1;
        rt.set_block_number(next);
        rt.on_initialize(next);
        proof {
            law_block_runs_compose(b0, b, next);
            assert(block_run(b, next) =~= block_step(b) + block_run(next, next));
            assert(block_run(next, next) =~= Seq::<SystemCall>::empty());
            assert(rt.spec_system_log()@ =~= before + block_step(b));
        }
        b = next;
    }
    proof {
        if b0 >= n {
            assert(block_run(b0, n) =~= Seq::<SystemCall>::empty());
        }
    }
}

} // verus!
