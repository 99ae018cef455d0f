use vstd::prelude::*;

verus! {

/// Accounts are identified by a `u64`, as in the runtime this pallet is built for.
pub type AccountId = u64;

/// Kitties are numbered from 1 upwards; the index is the value of the kitty counter at mint.
pub type KittyIndex = u64;

/// The runtime's currency unit.
pub type Balance = u128;

/// The runtime's block number.
pub type BlockNumber = u64;

/// Identifies a balance lock.
pub type LockIdentifier = [u8; 8];

/// The kinds of withdrawal a lock blocks, one bit each: transaction payment
/// (1), transfer (2), reserve (4), fee (8), tip (16).
pub type WithdrawReasons = u8;

/// Every kind of withdrawal.
pub const ALL_WITHDRAW_REASONS: WithdrawReasons = 31;

/// An account cannot own more kitties than this.
pub const MAX_KITTY_OWNED: u32 = 3;

/// The free balance an account needs, and that is locked, to own a kitty it created.
pub const NEED_LOCK_BALANCE: u32 = 10;

/// The lock this pallet places on a creator's balance: the bytes of `"kittiess"`.
pub const KITTIES_ID: LockIdentifier = [107, 105, 116, 116, 105, 101, 115, 115];

#[derive(Clone, Copy, Debug, PartialEq, Eq)]
pub enum Gender {
    Male,
    Female,
}

/// A kitty as stored: its DNA, its asking price (`None`: not for sale), its gender and owner.
#[derive(Clone, Copy, Debug, PartialEq, Eq)]
pub struct Kitty {
    pub dna: [u8; 16],
    pub price: Option<Balance>,
    pub gender: Gender,
    pub owner: AccountId,
}

/// The mathematical value of a [`Kitty`]: the DNA as a sequence of bytes.
#[verifier::ext_equal]
pub struct KittyView {
    pub dna: Seq<u8>,
    pub price: Option<Balance>,
    pub gender: Gender,
    pub owner: AccountId,
}

impl View for Kitty {
    type V = KittyView;

    open spec fn view(&self) -> KittyView {
        KittyView { dna: self.dna@, price: self.price, gender: self.gender, owner: self.owner }
    }
}

/// Why a call of the pallet was refused.
#[derive(Clone, Copy, Debug, PartialEq, Eq)]
pub enum Error {
    /// Handles arithmetic overflow when incrementing the Kitty counter.
    KittyCntOverflow,
    /// An account cannot own more Kitties than `MaxKittyCount`.
    ExceedMaxKittyOwned,
    /// Buyer cannot be the owner.
    BuyerIsKittyOwner,
    /// Cannot transfer a kitty to its owner.
    TransferToSelf,
    /// Handles checking whether the Kitty exists.
    KittyNotExist,
    /// Handles checking that the Kitty is owned by the account transferring, buying or setting a price for it.
    NotKittyOwner,
    /// Ensures the Kitty is for sale.
    KittyNotForSale,
    /// Ensures that the buying price is at least the asking price.
    KittyBidPriceTooLow,
    /// Ensures that an account has enough funds to purchase a Kitty.
    NotEnoughBalance,
    /// The account that is to hold a kitty cannot put up the stake a kitty needs.
    NotEnoughBalanceForStake,
}

/// The error of a dispatched call: a bad origin, an error of this pallet, or
/// an error that the runtime's currency reported.
#[derive(Clone, Copy, Debug, PartialEq, Eq)]
pub enum DispatchError {
    BadOrigin,
    Module(Error),
    Other,
}

/// What the pallet reports of a successful call.
#[derive(Clone, Copy, Debug, PartialEq, Eq)]
pub enum Event {
    /// A new Kitty was sucessfully created. \[sender, kitty_id\]
    Created(AccountId, KittyIndex),
    /// Kitty price was sucessfully set. \[sender, kitty_id, new_price\]
    PriceSet(AccountId, KittyIndex, Option<Balance>),
    /// A Kitty was sucessfully transferred. \[from, to, kitty_id\]
    Transferred(AccountId, AccountId, KittyIndex),
    /// A Kitty was sucessfully bought. \[buyer, seller, kitty_id, bid_price\]
    Bought(AccountId, AccountId, KittyIndex, Balance),
}

/// Who dispatched a call.
#[derive(Clone, Copy, Debug, PartialEq, Eq)]
pub enum Origin {
    Root,
    Signed(AccountId),
    Unsigned,
}

impl Origin {
    /// The origin of a call signed by `who`.
    pub fn signed(who: AccountId) -> (o: Origin)
        ensures
            o == Origin::Signed(who),
    {
        Origin::Signed(who)
    }
}

/// The signer of a call, when it was signed.
pub open spec fn signer(origin: Origin) -> Option<AccountId> {
    match origin {
        Origin::Signed(who) => Some(who),
        _ => None,
    }
}

/// The account that signed the call; `BadOrigin` for any other origin.
pub fn ensure_signed(origin: Origin) -> (r: Result<AccountId, DispatchError>)
    ensures
        r == match signer(origin) {
            Some(who) => Ok(who),
            None => Err(DispatchError::BadOrigin),
        },
{
    match origin {
        Origin::Signed(who) => Ok(who),
        _ => Err(DispatchError::BadOrigin),
    }
}

} // verus!
