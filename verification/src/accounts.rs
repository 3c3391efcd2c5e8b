//! Plain-value pictures of the accounts an operation is handed, and of the token movements
//! it asks for.

use vstd::prelude::*;

use crate::ErrorCode;

verus! {

/// `len` zero bytes.
pub open spec fn zeroes(len: nat) -> Seq<u8> {
    Seq::new(len, |i: int| 0u8)
}

/// A 32-byte address.
#[derive(Clone, Copy, Debug, PartialEq, Eq, Hash)]
pub struct Address {
    /// The bytes of the address.
    pub bytes: [u8; 32],
}

impl View for Address {
    type V = Seq<u8>;

    open spec fn view(&self) -> Seq<u8> {
        self.bytes@
    }
}

impl Address {
    /// The address whose bytes are all zero.
    pub fn zero() -> (address: Address)
        ensures
            address@ == zeroes(32),
    {
        let address = Address { bytes: [0u8; 32] };
        assert(address@ =~= zeroes(32));
        address
    }

    /// Whether two addresses hold the same bytes.
    pub fn same(&self, other: &Address) -> (equal: bool)
        ensures
            equal == (self@ == other@),
            equal == (*self == *other),
    {
        let mut i: usize = 0;
        while i < 32
            invariant
                i <= 32,
                forall|j: int| 0 <= j < i ==> self.bytes@[j] == other.bytes@[j],
            decreases 32 - i,
        {
            if self.bytes[i] != other.bytes[i] {
                return false;
            }
            i += 1;
        }
        assert(self.bytes@ =~= other.bytes@);
        assert(self.bytes == other.bytes);
        true
    }

    /// The bytes of the address, in order.
    pub fn to_vec(&self) -> (bytes: Vec<u8>)
        ensures
            bytes@ == self@,
    {
        let mut bytes: Vec<u8> = Vec::new();
        let mut i: usize = 0;
        while i < 32
            invariant
                i <= 32,
                bytes@ == self.bytes@.subrange(0, i as int),
            decreases 32 - i,
        {
            bytes.push(self.bytes[i]);
            assert(bytes@ =~= self.bytes@.subrange(0, i + 1));
            i += 1;
        }
        assert(bytes@ =~= self@);
        bytes
    }
}

/// Whether an optional address is present and is `expected`.
pub fn is_address(candidate: &Option<Address>, expected: &Address) -> (matches: bool)
    ensures
        matches == (*candidate == Some(*expected)),
{
    match candidate {
        Some(address) => address.same(expected),
        None => false,
    }
}

/// What an operation reads of a token mint.
#[derive(Clone, Copy, Debug, PartialEq, Eq)]
pub struct Mint {
    /// Address of the mint.
    pub key: Address,
    /// The authority that may mint new tokens, if any.
    pub mint_authority: Option<Address>,
    /// The authority that may freeze token accounts, if any.
    pub freeze_authority: Option<Address>,
    /// Total supply of tokens.
    pub supply: u64,
    /// Number of base 10 digits to the right of the decimal place.
    pub decimals: u8,
}

/// What an operation reads of a token account.
#[derive(Clone, Copy, Debug, PartialEq, Eq)]
pub struct TokenAccount {
    /// Address of the account.
    pub key: Address,
    /// The mint of the tokens that the account holds.
    pub mint: Address,
    /// The owner of the account.
    pub owner: Address,
    /// The amount of tokens that the account holds.
    pub amount: u64,
    /// Who else may move tokens out of the account, if anyone.
    pub delegate: Option<Address>,
    /// Who may close the account, if not only its owner.
    pub close_authority: Option<Address>,
}

impl TokenAccount {
    /// The account is empty and nobody but its owner has any right over it.
    pub open spec fn is_zero(&self) -> bool {
        &&& self.amount == 0
        &&& self.delegate is None
        &&& self.close_authority is None
    }

    /// Whether the account is empty, with no delegate and no close authority.
    pub fn is_zero_token_account(&self) -> (zero: bool)
        ensures
            zero == self.is_zero(),
    {
        self.amount == 0 && self.delegate.is_none() && self.close_authority.is_none()
    }
}

/// A token movement for the host to perform. Each is atomic.
#[derive(Clone, Copy, Debug, PartialEq, Eq)]
pub enum TokenInstruction {
    /// Move `amount` tokens from one account to another.
    Transfer {
        /// The account debited.
        from: Address,
        /// The account credited.
        to: Address,
        /// The owner of `from`, who authorizes the transfer.
        authority: Address,
        /// How many tokens to move.
        amount: u64,
        /// Whether the vault signs as `authority`, with its signer seeds.
        signed_by_vault: bool,
    },
    /// Mint `amount` new tokens into an account.
    MintTo {
        /// The mint that issues the tokens.
        mint: Address,
        /// The account credited.
        to: Address,
        /// The mint authority.
        authority: Address,
        /// How many tokens to mint.
        amount: u64,
        /// Whether the vault signs as `authority`, with its signer seeds.
        signed_by_vault: bool,
    },
    /// Burn `amount` tokens out of an account.
    Burn {
        /// The mint of the tokens burned.
        mint: Address,
        /// The account debited.
        from: Address,
        /// The owner of `from`, who authorizes the burn.
        authority: Address,
        /// How many tokens to burn.
        amount: u64,
        /// Whether the vault signs as `authority`, with its signer seeds.
        signed_by_vault: bool,
    },
}

/// The outcome of planning an operation, with the instructions as a sequence.
pub open spec fn planned(outcome: Result<Vec<TokenInstruction>, ErrorCode>) -> Result<
    Seq<TokenInstruction>,
    ErrorCode,
> {
    match outcome {
        Ok(instructions) => Ok(instructions@),
        Err(error) => Err(error),
    }
}

} // verus!
