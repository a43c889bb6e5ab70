//! The privacy token's entry points. The commitment pool keeps its own
//! storage (commitments, Merkle tree, spent nullifiers) behind its own
//! interface; `deposit` and `withdraw` take what the pool answered and
//! settle the public balances accordingly.

use vstd::prelude::*;
use crate::common::{Address, addr_key, spec_addr_key};
use crate::store::Store;

verus! {

#[derive(Clone, Copy, Debug, PartialEq, Eq, Structural)]
pub enum PrivateTokenError {
    Unauthorized,
    InvalidCommitment,
    AlreadySpent,
    InsufficientBalance,
    InvalidAmount,
    MerkleTreeFull,
    InvalidProof,
    Paused,
    NotInitialized,
}

impl PrivateTokenError {
    /// The contract error code.
    pub fn code(&self) -> (c: u32)
        ensures
            c == match *self {
                PrivateTokenError::Unauthorized => 1u32,
                PrivateTokenError::InvalidCommitment => 2,
                PrivateTokenError::AlreadySpent => 3,
                PrivateTokenError::InsufficientBalance => 4,
                PrivateTokenError::InvalidAmount => 5,
                PrivateTokenError::MerkleTreeFull => 6,
                PrivateTokenError::InvalidProof => 7,
                PrivateTokenError::Paused => 8,
                PrivateTokenError::NotInitialized => 9,
            },
    {
        match *self {
            PrivateTokenError::Unauthorized => 1,
            PrivateTokenError::InvalidCommitment => 2,
            PrivateTokenError::AlreadySpent => 3,
            PrivateTokenError::InsufficientBalance => 4,
            PrivateTokenError::InvalidAmount => 5,
            PrivateTokenError::MerkleTreeFull => 6,
            PrivateTokenError::InvalidProof => 7,
            PrivateTokenError::Paused => 8,
            PrivateTokenError::NotInitialized => 9,
        }
    }
}

/// Why the commitment pool refused an operation.
#[derive(Clone, Copy, Debug, PartialEq, Eq, Structural)]
pub enum PoolFailure {
    MerkleTreeFull,
    NullifierAlreadySpent,
    Other,
}

pub enum DataKey {
    Admin,
    Paused,
    Metadata,
    TotalSupply,
    PublicBalance(Address),
    Nonce(Address),
}

#[derive(Debug)]
pub struct TokenMetadata {
    pub name: String,
    pub symbol: String,
    pub decimals: u32,
}

pub struct TokenMetadataView {
    pub name: Seq<char>,
    pub symbol: Seq<char>,
    pub decimals: u32,
}

impl View for TokenMetadata {
    type V = TokenMetadataView;

    open spec fn view(&self) -> TokenMetadataView {
        TokenMetadataView { name: self.name@, symbol: self.symbol@, decimals: self.decimals }
    }
}

/// Contract storage of the privacy token (the pool's own storage aside).
pub struct PrivateTokenEnv {
    pub admin: Option<Address>,
    pub paused: bool,
    pub metadata: Option<TokenMetadata>,
    pub total_supply: i128,
    pub public_balances: Store<i128>,
}

#[verifier::ext_equal]
pub struct PrivateTokenView {
    pub admin: Option<Address>,
    pub paused: bool,
    pub metadata: Option<TokenMetadataView>,
    pub total_supply: i128,
    pub public_balances: Map<u128, i128>,
}

impl View for PrivateTokenEnv {
    type V = PrivateTokenView;

    open spec fn view(&self) -> PrivateTokenView {
        PrivateTokenView {
            admin: self.admin,
            paused: self.paused,
            metadata: match self.metadata {
                Some(m) => Some(m@),
                None => None,
            },
            total_supply: self.total_supply,
            public_balances: self.public_balances@,
        }
    }
}

impl PrivateTokenEnv {
    pub open spec fn wf(&self) -> bool {
        self.public_balances.wf()
    }

    pub fn new() -> (e: Self)
        ensures
            e.wf(),
            e@ == (PrivateTokenView { admin: None, paused: false, metadata: None, total_supply: 0, public_balances: Map::empty() }),
    {
        PrivateTokenEnv { admin: None, paused: false, metadata: None, total_supply: 0, public_balances: Store::new() }
    }
}

/// `account`'s public balance (0 when none is stored).
pub open spec fn spec_balance(v: PrivateTokenView, account: Address) -> i128 {
    if v.public_balances.contains_key(spec_addr_key(account)) {
        v.public_balances[spec_addr_key(account)]
    } else {
        0
    }
}

/// Storage with `account`'s public balance set to `b`.
pub open spec fn with_balance(v: PrivateTokenView, account: Address, b: i128) -> PrivateTokenView {
    PrivateTokenView { public_balances: v.public_balances.insert(spec_addr_key(account), b), ..v }
}

pub open spec fn spec_is_admin(v: PrivateTokenView, a: Address) -> bool {
    v.admin == Some(a)
}

pub struct PrivateTokenContract;

impl PrivateTokenContract {
    fn set_balance(env: &mut PrivateTokenEnv, account: Address, b: i128)
        requires
            old(env).wf(),
        ensures
            final(env).wf(),
            final(env)@ == with_balance(old(env)@, account, b),
    {
        let ghost pre = env@;
        env.public_balances.set(addr_key(account), b);
        assert(env@ =~= with_balance(pre, account, b));
    }

    /// Set the admin and token metadata once.
    pub fn initialize(env: &mut PrivateTokenEnv, admin: Address, name: String, symbol: String, decimals: u32) -> (r: Result<(), PrivateTokenError>)
        requires
            old(env).wf(),
        ensures
            final(env).wf(),
            r == (if old(env)@.admin is Some { Err(PrivateTokenError::Unauthorized) } else { Ok(()) }),
            r is Err ==> final(env)@ == old(env)@,
            r is Ok ==> final(env)@ == (PrivateTokenView {
                admin: Some(admin),
                metadata: Some(TokenMetadataView { name: name@, symbol: symbol@, decimals }),
                paused: false,
                ..old(env)@
            }),
    {
        if env.admin.is_some() {
            return Err(PrivateTokenError::Unauthorized);
        }
        env.admin = Some(admin);
        env.metadata = Some(TokenMetadata { name, symbol, decimals });
        env.paused = false;
        Ok(())
    }

    /// Move `amount` of `from`'s public balance into the pool under
    /// `commitment`. `range_ok` is the pool's range check of the amount and
    /// `pool` its answer to the deposit (the leaf index of the commitment).
    pub fn deposit(
        env: &mut PrivateTokenEnv,
        from: Address,
        amount: i128,
        commitment: [u8; 32],
        range_ok: bool,
        pool: Result<u32, PoolFailure>,
    ) -> (r: Result<u32, PrivateTokenError>)
        requires
            old(env).wf(),
            amount > 0 ==> old(env)@.total_supply + amount <= i128::MAX,
        ensures
            final(env).wf(),
            ({
                let v = old(env)@;
                let bal = spec_balance(v, from);
                &&& r == (if v.paused {
                    Err(PrivateTokenError::Paused)
                } else if amount <= 0 || !range_ok {
                    Err(PrivateTokenError::InvalidAmount)
                } else if bal < amount {
                    Err(PrivateTokenError::InsufficientBalance)
                } else {
                    match pool {
                        Ok(leaf) => Ok(leaf),
                        Err(PoolFailure::MerkleTreeFull) => Err(PrivateTokenError::MerkleTreeFull),
                        Err(_) => Err(PrivateTokenError::InvalidCommitment),
                    }
                })
                &&& r is Err ==> final(env)@ == v
                &&& r is Ok ==> final(env)@ == PrivateTokenView {
                    total_supply: (v.total_supply + amount) as i128,
                    ..with_balance(v, from, (bal - amount) as i128)
                }
            }),
    {
        if env.paused {
            return Err(PrivateTokenError::Paused);
        }
        if amount <= 0 || !range_ok {
            return Err(PrivateTokenError::InvalidAmount);
        }
        let current = Self::public_balance(env, from);
        if current < amount {
            return Err(PrivateTokenError::InsufficientBalance);
        }
        let leaf = match pool {
            Ok(leaf) => leaf,
            Err(PoolFailure::MerkleTreeFull) => {
                return Err(PrivateTokenError::MerkleTreeFull);
            },
            Err(_) => {
                return Err(PrivateTokenError::InvalidCommitment);
            },
        };
        Self::set_balance(env, from, current - amount);
        env.total_supply = env.total_supply + amount;
        Ok(leaf)
    }

    /// Pay `amount` out of the pool to `to`'s public balance against an
    /// unspent nullifier. `nullifier_spent` is the pool's record of the
    /// nullifier and `pool` its answer to the withdrawal.
    pub fn withdraw(
        env: &mut PrivateTokenEnv,
        to: Address,
        amount: i128,
        nullifier_hash: [u8; 32],
        nullifier_spent: bool,
        pool: Result<(), PoolFailure>,
    ) -> (r: Result<(), PrivateTokenError>)
        requires
            old(env).wf(),
            amount > 0 ==> spec_balance(old(env)@, to) + amount <= i128::MAX,
            amount > 0 ==> old(env)@.total_supply - amount >= i128::MIN,
        ensures
            final(env).wf(),
            ({
                let v = old(env)@;
                &&& r == (if v.paused {
                    Err(PrivateTokenError::Paused)
                } else if amount <= 0 {
                    Err(PrivateTokenError::InvalidAmount)
                } else if nullifier_spent {
                    Err(PrivateTokenError::AlreadySpent)
                } else {
                    match pool {
                        Ok(()) => Ok(()),
                        Err(PoolFailure::NullifierAlreadySpent) => Err(PrivateTokenError::AlreadySpent),
                        Err(_) => Err(PrivateTokenError::InvalidProof),
                    }
                })
                &&& r is Err ==> final(env)@ == v
                &&& r is Ok ==> final(env)@ == PrivateTokenView {
                    total_supply: (v.total_supply - amount) as i128,
                    ..with_balance(v, to, (spec_balance(v, to) + amount) as i128)
                }
            }),
    {
        if env.paused {
            return Err(PrivateTokenError::Paused);
        }
        if amount <= 0 {
            return Err(PrivateTokenError::InvalidAmount);
        }
        if nullifier_spent {
            return Err(PrivateTokenError::AlreadySpent);
        }
        match pool {
            Ok(()) => {},
            Err(PoolFailure::NullifierAlreadySpent) => {
                return Err(PrivateTokenError::AlreadySpent);
            },
            Err(_) => {
                return Err(PrivateTokenError::InvalidProof);
            },
        }
        let current = Self::public_balance(env, to);
        Self::set_balance(env, to, current + amount);
        env.total_supply = env.total_supply - amount;
        Ok(())
    }

    /// Spend the commitment behind `input_nullifier` and add a new one of
    /// `output_amount` under `output_commitment`, inside the pool. The pool
    /// holds both, so no public balance or supply moves: `nullifier_spent` is
    /// the pool's record of the input nullifier and `pool` its answer to the
    /// deposit of the output commitment (its leaf index).
    pub fn private_transfer(
        env: &mut PrivateTokenEnv,
        input_nullifier: [u8; 32],
        output_commitment: [u8; 32],
        output_amount: i128,
        nullifier_spent: bool,
        pool: Result<u32, PoolFailure>,
    ) -> (r: Result<(), PrivateTokenError>)
        requires
            old(env).wf(),
        ensures
            final(env).wf(),
            final(env)@ == old(env)@,
            r == (if old(env)@.paused {
                Err(PrivateTokenError::Paused)
            } else if nullifier_spent {
                Err(PrivateTokenError::AlreadySpent)
            } else if output_amount <= 0 {
                Err(PrivateTokenError::InvalidAmount)
            } else {
                match pool {
                    Ok(_) => Ok(()),
                    Err(PoolFailure::MerkleTreeFull) => Err(PrivateTokenError::MerkleTreeFull),
                    Err(_) => Err(PrivateTokenError::InvalidCommitment),
                }
            }),
    {
        if env.paused {
            return Err(PrivateTokenError::Paused);
        }
        if nullifier_spent {
            return Err(PrivateTokenError::AlreadySpent);
        }
        if output_amount <= 0 {
            return Err(PrivateTokenError::InvalidAmount);
        }
        match pool {
            Ok(_) => Ok(()),
            Err(PoolFailure::MerkleTreeFull) => Err(PrivateTokenError::MerkleTreeFull),
            Err(_) => Err(PrivateTokenError::InvalidCommitment),
        }
    }

    /// The admin mints public tokens to `to`.
    pub fn mint(env: &mut PrivateTokenEnv, admin: Address, to: Address, amount: i128) -> (r: Result<(), PrivateTokenError>)
        requires
            old(env).wf(),
            amount > 0 ==> spec_balance(old(env)@, to) + amount <= i128::MAX,
            amount > 0 ==> old(env)@.total_supply + amount <= i128::MAX,
        ensures
            final(env).wf(),
            ({
                let v = old(env)@;
                &&& r == (if !spec_is_admin(v, admin) {
                    Err(PrivateTokenError::Unauthorized)
                } else if amount <= 0 {
                    Err(PrivateTokenError::InvalidAmount)
                } else {
                    Ok(())
                })
                &&& r is Err ==> final(env)@ == v
                &&& r is Ok ==> final(env)@ == PrivateTokenView {
                    total_supply: (v.total_supply + amount) as i128,
                    ..with_balance(v, to, (spec_balance(v, to) + amount) as i128)
                }
            }),
    {
        if !Self::is_admin(env, admin) {
            return Err(PrivateTokenError::Unauthorized);
        }
        if amount <= 0 {
            return Err(PrivateTokenError::InvalidAmount);
        }
        let current = Self::public_balance(env, to);
        Self::set_balance(env, to, current + amount);
        env.total_supply = env.total_supply + amount;
        Ok(())
    }

    /// Burn `amount` of `from`'s public balance.
    pub fn burn(env: &mut PrivateTokenEnv, from: Address, amount: i128) -> (r: Result<(), PrivateTokenError>)
        requires
            old(env).wf(),
            amount > 0 ==> old(env)@.total_supply - amount >= i128::MIN,
        ensures
            final(env).wf(),
            ({
                let v = old(env)@;
                let bal = spec_balance(v, from);
                &&& r == (if amount <= 0 {
                    Err(PrivateTokenError::InvalidAmount)
                } else if bal < amount {
                    Err(PrivateTokenError::InsufficientBalance)
                } else {
                    Ok(())
                })
                &&& r is Err ==> final(env)@ == v
                &&& r is Ok ==> final(env)@ == PrivateTokenView {
                    total_supply: (v.total_supply - amount) as i128,
                    ..with_balance(v, from, (bal - amount) as i128)
                }
            }),
    {
        if amount <= 0 {
            return Err(PrivateTokenError::InvalidAmount);
        }
        let current = Self::public_balance(env, from);
        if current < amount {
            return Err(PrivateTokenError::InsufficientBalance);
        }
        Self::set_balance(env, from, current - amount);
        env.total_supply = env.total_supply - amount;
        Ok(())
    }

    /// Move `amount` of public balance from `from` to `to`.
    pub fn transfer(env: &mut PrivateTokenEnv, from: Address, to: Address, amount: i128) -> (r: Result<(), PrivateTokenError>)
        requires
            old(env).wf(),
            amount > 0 && from != to ==> spec_balance(old(env)@, to) + amount <= i128::MAX,
        ensures
            final(env).wf(),
            ({
                let v = old(env)@;
                let fb = spec_balance(v, from);
                let after_from = with_balance(v, from, (fb - amount) as i128);
                &&& r == (if v.paused {
                    Err(PrivateTokenError::Paused)
                } else if amount <= 0 {
                    Err(PrivateTokenError::InvalidAmount)
                } else if fb < amount {
                    Err(PrivateTokenError::InsufficientBalance)
                } else {
                    Ok(())
                })
                &&& r is Err ==> final(env)@ == v
                &&& r is Ok ==> final(env)@ == with_balance(after_from, to, (spec_balance(after_from, to) + amount) as i128)
            }),
    {
        if env.paused {
            return Err(PrivateTokenError::Paused);
        }
        if amount <= 0 {
            return Err(PrivateTokenError::InvalidAmount);
        }
        let from_balance = Self::public_balance(env, from);
        if from_balance < amount {
            return Err(PrivateTokenError::InsufficientBalance);
        }
        Self::set_balance(env, from, from_balance - amount);
        let to_balance = Self::public_balance(env, to);
        Self::set_balance(env, to, to_balance + amount);
        Ok(())
    }

    pub fn public_balance(env: &PrivateTokenEnv, account: Address) -> (b: i128)
        requires
            env.wf(),
        ensures
            b == spec_balance(env@, account),
    {
        match env.public_balances.get(addr_key(account)) {
            Some(b) => *b,
            None => 0,
        }
    }

    pub fn total_supply(env: &PrivateTokenEnv) -> (s: i128)
        ensures
            s == env@.total_supply,
    {
        env.total_supply
    }

    /// The token metadata; "Unknown", "UNK" and 0 decimals before
    /// initialization.
    pub fn metadata(env: &PrivateTokenEnv) -> (m: TokenMetadata)
        ensures
            env@.metadata matches Some(md) ==> m@ == md,
            env@.metadata is None ==> m@ == (TokenMetadataView { name: "Unknown"@, symbol: "UNK"@, decimals: 0 }),
    {
        match &env.metadata {
            Some(m) => TokenMetadata { name: m.name.clone(), symbol: m.symbol.clone(), decimals: m.decimals },
            None => TokenMetadata { name: String::from_str("Unknown"), symbol: String::from_str("UNK"), decimals: 0 },
        }
    }

    pub fn pause(env: &mut PrivateTokenEnv, admin: Address) -> (r: Result<(), PrivateTokenError>)
        requires
            old(env).wf(),
        ensures
            final(env).wf(),
            r == (if spec_is_admin(old(env)@, admin) { Ok(()) } else { Err(PrivateTokenError::Unauthorized) }),
            r is Err ==> final(env)@ == old(env)@,
            r is Ok ==> final(env)@ == (PrivateTokenView { paused: true, ..old(env)@ }),
    {
        if !Self::is_admin(env, admin) {
            return Err(PrivateTokenError::Unauthorized);
        }
        env.paused = true;
        Ok(())
    }

    pub fn unpause(env: &mut PrivateTokenEnv, admin: Address) -> (r: Result<(), PrivateTokenError>)
        requires
            old(env).wf(),
        ensures
            final(env).wf(),
            r == (if spec_is_admin(old(env)@, admin) { Ok(()) } else { Err(PrivateTokenError::Unauthorized) }),
            r is Err ==> final(env)@ == old(env)@,
            r is Ok ==> final(env)@ == (PrivateTokenView { paused: false, ..old(env)@ }),
    {
        if !Self::is_admin(env, admin) {
            return Err(PrivateTokenError::Unauthorized);
        }
        env.paused = false;
        Ok(())
    }

    pub fn is_paused(env: &PrivateTokenEnv) -> (b: bool)
        ensures
            b == env@.paused,
    {
        env.paused
    }

    pub fn is_admin(env: &PrivateTokenEnv, address: Address) -> (b: bool)
        ensures
            b == spec_is_admin(env@, address),
    {
        match env.admin {
            Some(a) => a == address,
            None => false,
        }
    }
}

/// A public transfer between two accounts keeps the sum of their balances.
pub proof fn law_transfer_conserves(v: PrivateTokenView, from: Address, to: Address, amount: i128)
    requires
        from != to,
        amount > 0,
        spec_balance(v, from) >= amount,
        spec_balance(v, to) + amount <= i128::MAX,
    ensures
        ({
            let after_from = with_balance(v, from, (spec_balance(v, from) - amount) as i128);
            let w = with_balance(after_from, to, (spec_balance(after_from, to) + amount) as i128);
            &&& spec_balance(w, from) + spec_balance(w, to) == spec_balance(v, from) + spec_balance(v, to)
            &&& w.total_supply == v.total_supply
        }),
{
    assert(spec_addr_key(from) != spec_addr_key(to));
}

/// Burning from an account what was just minted to it is allowed (its
/// balance covers the amount) and gives back its balance and the total
/// supply from before the mint; no other balance moves.
pub proof fn law_burn_undoes_mint(v: PrivateTokenView, to: Address, amount: i128)
    requires
        amount > 0,
        spec_balance(v, to) >= 0,
        spec_balance(v, to) + amount <= i128::MAX,
        v.total_supply + amount <= i128::MAX,
    ensures
        ({
            let minted = PrivateTokenView {
                total_supply: (v.total_supply + amount) as i128,
                ..with_balance(v, to, (spec_balance(v, to) + amount) as i128)
            };
            let burned = PrivateTokenView {
                total_supply: (minted.total_supply - amount) as i128,
                ..with_balance(minted, to, (spec_balance(minted, to) - amount) as i128)
            };
            &&& spec_balance(minted, to) >= amount
            &&& spec_balance(burned, to) == spec_balance(v, to)
            &&& burned.total_supply == v.total_supply
            &&& forall|a: Address| a != to ==> spec_balance(burned, a) == spec_balance(v, a)
        }),
{
    let minted = PrivateTokenView {
        total_supply: (v.total_supply + amount) as i128,
        ..with_balance(v, to, (spec_balance(v, to) + amount) as i128)
    };
    let burned = PrivateTokenView {
        total_supply: (minted.total_supply - amount) as i128,
        ..with_balance(minted, to, (spec_balance(minted, to) - amount) as i128)
    };
    assert forall|a: Address| a != to implies spec_balance(burned, a) == spec_balance(v, a) by {
        assert(a.0 != to.0);
        assert(spec_addr_key(a) != spec_addr_key(to));
    }
}

} // verus!
