//! Fungible liquidity-provider token with allowances, a pause switch and a
//! transfer fee (in basis points) paid to the owner.
use vstd::prelude::*;

use crate::address::{Address, AddressPair};
use crate::math::{apply_basis_points, basis_points_of};
use crate::storage::KeyMap;

verus! {

/// Name, ticker and number of decimals of the token.
#[derive(Clone, Debug)]
pub struct TokenInfo {
    pub name: Vec<u8>,
    pub ticker: Vec<u8>,
    pub decimals: u8,
}

/// Why a call to the token was refused.
#[derive(Clone, Copy, Debug, PartialEq, Eq, Structural)]
pub enum LpTokenError {
    /// The contract is paused.
    Paused,
    /// The endpoint can only be called by the owner.
    NotOwner,
    /// The sender's balance is below the amount.
    InsufficientBalance,
    /// The spender's allowance is below the amount.
    InsufficientAllowance,
    /// The balance is below the amount to burn.
    InsufficientBalanceForBurn,
    /// The fee exceeds 10000 basis points.
    FeeTooHigh,
    /// The caller already holds tokens, so the free mint is refused.
    AlreadyClaimed,
    /// The total supply would not fit in 128 bits.
    SupplyOverflow,
}

/// Events the token emits.
#[derive(Clone, Copy, Debug, PartialEq, Eq, Structural)]
pub enum LpTokenEvent {
    /// `amount` reached `to` (after the fee) and `fee` reached the owner.
    Transfer { from: Address, to: Address, amount: u128, fee: u128 },
    /// `spender` may now spend `amount` on behalf of `owner`.
    Approve { owner: Address, spender: Address, amount: u128 },
    /// `amount` new tokens were created for `to`.
    Mint { to: Address, amount: u128 },
    /// `amount` tokens held by `from` were destroyed.
    Burn { from: Address, amount: u128 },
}

/// Tokens handed out by the free public mint.
pub const PUBLIC_MINT_AMOUNT: u128 = 10;

/// The token's storage.
pub struct LpToken {
    /// The account that deployed the token; it receives transfer fees.
    pub owner: Address,
    pub token_info: TokenInfo,
    pub total_token_supply: u128,
    pub balances: KeyMap<Address, u128>,
    /// Allowance of `second` to spend on behalf of `first`.
    pub allowances: KeyMap<AddressPair, u128>,
    pub paused: bool,
    /// Transfer fee in basis points (100 = 1%).
    pub fee_percentage: u64,
    /// Addresses that have received the free public mint.
    pub claimed: KeyMap<Address, bool>,
}

/// Fee charged on a transfer of `amount` at `fee_percentage` basis points.
pub open spec fn transfer_fee(amount: nat, fee_percentage: nat) -> nat {
    basis_points_of(amount, fee_percentage)
}

impl LpToken {
    /// The storage is well formed: the total supply is the sum of all balances
    /// and the fee is at most 100%.
    pub open spec fn wf(&self) -> bool {
        &&& self.balances.wf()
        &&& self.allowances.wf()
        &&& self.claimed.wf()
        &&& self.total_token_supply == self.balances.total()
        &&& self.fee_percentage <= 10000
    }

    /// Balance of `a` (zero when none is recorded).
    pub open spec fn balance(&self, a: Address) -> nat {
        self.balances.amount_of(a)
    }

    /// Allowance of `spender` on behalf of `owner` (zero when none is recorded).
    pub open spec fn allowance_of(&self, owner: Address, spender: Address) -> nat {
        self.allowances.amount_of(AddressPair { first: owner, second: spender })
    }

    /// Balances after `from` pays `amount`, `to` receives it less the fee and the
    /// owner receives the fee, applied one after the other.
    pub open spec fn balances_after_transfer(
        &self,
        from: Address,
        to: Address,
        amount: nat,
    ) -> Map<Address, u128> {
        let fee = transfer_fee(amount, self.fee_percentage as nat);
        let b0 = self.balances@;
        let b1 = b0.insert(from, (self.balance(from) - amount) as u128);
        let to_before: nat = if b1.dom().contains(to) {
            b1[to] as nat
        } else {
            0
        };
        let b2 = b1.insert(to, (to_before + (amount - fee)) as u128);
        let owner_before: nat = if b2.dom().contains(self.owner) {
            b2[self.owner] as nat
        } else {
            0
        };
        if fee > 0 {
            b2.insert(self.owner, (owner_before + fee) as u128)
        } else {
            b2
        }
    }

    /// Deploys the token, minting `initial_supply` for the deployer `owner`.
    pub fn init(
        owner: Address,
        initial_supply: u128,
        token_name: Vec<u8>,
        token_ticker: Vec<u8>,
        token_decimals: u8,
    ) -> (r: (LpToken, Option<LpTokenEvent>))
        ensures
            r.0.wf(),
            r.0.owner == owner,
            r.0.token_info.name@ == token_name@,
            r.0.token_info.ticker@ == token_ticker@,
            r.0.token_info.decimals == token_decimals,
            r.0.total_token_supply == initial_supply,
            r.0.balance(owner) == initial_supply,
            forall|a: Address| a != owner ==> r.0.balance(a) == 0,
            r.0.allowances@ == Map::<AddressPair, u128>::empty(),
            r.0.claimed@ == Map::<Address, bool>::empty(),
            !r.0.paused,
            r.0.fee_percentage == 0,
            r.1 == (if initial_supply > 0 {
                Some(LpTokenEvent::Mint { to: owner, amount: initial_supply })
            } else {
                None
            }),
    {
        let balances = KeyMap::new();
        proof {
            balances.lemma_new_total();
        }
        let mut token = LpToken {
            owner,
            token_info: TokenInfo { name: token_name, ticker: token_ticker, decimals: token_decimals },
            total_token_supply: 0,
            balances,
            allowances: KeyMap::new(),
            claimed: KeyMap::new(),
            paused: false,
            fee_percentage: 0,
        };
        let event = token.mint(owner, initial_supply);
        let ev = match event {
            Ok(e) => e,
            Err(_) => None,
        };
        (token, ev)
    }

    /// The token's name.
    pub fn get_name(&self) -> (r: Vec<u8>)
        ensures
            r@ == self.token_info.name@,
    {
        self.token_info.name.clone()
    }

    /// The token's ticker.
    pub fn get_ticker(&self) -> (r: Vec<u8>)
        ensures
            r@ == self.token_info.ticker@,
    {
        self.token_info.ticker.clone()
    }

    /// The token's number of decimals.
    pub fn get_decimals(&self) -> (r: u8)
        ensures
            r == self.token_info.decimals,
    {
        self.token_info.decimals
    }

    /// Tokens in circulation.
    pub fn total_supply(&self) -> (r: u128)
        ensures
            r == self.total_token_supply,
    {
        self.total_token_supply
    }

    /// Balance of `address`.
    pub fn balance_of(&self, address: Address) -> (r: u128)
        requires
            self.wf(),
        ensures
            r == self.balance(address),
    {
        self.balances.amount(&address)
    }

    /// Fails while the contract is paused.
    pub fn require_not_paused(&self) -> (r: Result<(), LpTokenError>)
        ensures
            r is Err <==> self.paused,
            r matches Err(e) ==> e == LpTokenError::Paused,
    {
        if self.paused {
            Err(LpTokenError::Paused)
        } else {
            Ok(())
        }
    }

    /// How much `spender` may spend on behalf of `owner`.
    pub fn allowance(&self, owner: Address, spender: Address) -> (r: u128)
        requires
            self.wf(),
        ensures
            r == self.allowance_of(owner, spender),
    {
        self.allowances.amount(&AddressPair { first: owner, second: spender })
    }

    /// Moves `amount` from the caller to `to`, charging the transfer fee.
    pub fn transfer(&mut self, caller: Address, to: Address, amount: u128) -> (r: Result<
        LpTokenEvent,
        LpTokenError,
    >)
        requires
            old(self).wf(),
        ensures
            final(self).wf(),
            old(self).paused ==> r == Err::<LpTokenEvent, LpTokenError>(LpTokenError::Paused),
            !old(self).paused && old(self).balance(caller) < amount ==> r == Err::<
                LpTokenEvent,
                LpTokenError,
            >(LpTokenError::InsufficientBalance),
            !old(self).paused && old(self).balance(caller) >= amount ==> r is Ok,
            r is Err ==> *final(self) == *old(self),
            r is Ok ==> {
                &&& !old(self).paused
                &&& old(self).balance(caller) >= amount
                &&& final(self).balances@ == old(self).balances_after_transfer(caller, to, amount as nat)
                &&& r == Ok::<LpTokenEvent, LpTokenError>(
                    LpTokenEvent::Transfer {
                        from: caller,
                        to,
                        amount: (amount - transfer_fee(amount as nat, old(self).fee_percentage as nat)) as u128,
                        fee: transfer_fee(amount as nat, old(self).fee_percentage as nat) as u128,
                    },
                )
                &&& *final(self) == (LpToken { balances: final(self).balances, ..*old(self) })
            },
    {
        self.require_not_paused()?;
        self.perform_transfer(caller, to, amount)
    }

    /// Moves `amount` from `from` to `to` on the caller's allowance, which shrinks by `amount`.
    pub fn transfer_from(&mut self, caller: Address, from: Address, to: Address, amount: u128) -> (r:
        Result<LpTokenEvent, LpTokenError>)
        requires
            old(self).wf(),
        ensures
            final(self).wf(),
            old(self).paused ==> r == Err::<LpTokenEvent, LpTokenError>(LpTokenError::Paused),
            !old(self).paused && old(self).allowance_of(from, caller) < amount ==> r == Err::<
                LpTokenEvent,
                LpTokenError,
            >(LpTokenError::InsufficientAllowance),
            !old(self).paused && old(self).allowance_of(from, caller) >= amount && old(self).balance(
                from,
            ) < amount ==> r == Err::<LpTokenEvent, LpTokenError>(
                LpTokenError::InsufficientBalance,
            ),
            !old(self).paused && old(self).allowance_of(from, caller) >= amount && old(self).balance(
                from,
            ) >= amount ==> r is Ok,
            r is Err ==> *final(self) == *old(self),
            r is Ok ==> {
                &&& !old(self).paused
                &&& old(self).allowance_of(from, caller) >= amount
                &&& old(self).balance(from) >= amount
                &&& final(self).allowances@ == old(self).allowances@.insert(
                    AddressPair { first: from, second: caller },
                    (old(self).allowance_of(from, caller) - amount) as u128,
                )
                &&& final(self).balances@ == old(self).balances_after_transfer(from, to, amount as nat)
                &&& r == Ok::<LpTokenEvent, LpTokenError>(
                    LpTokenEvent::Transfer {
                        from,
                        to,
                        amount: (amount - transfer_fee(amount as nat, old(self).fee_percentage as nat)) as u128,
                        fee: transfer_fee(amount as nat, old(self).fee_percentage as nat) as u128,
                    },
                )
                &&& *final(self) == (LpToken {
                    balances: final(self).balances,
                    allowances: final(self).allowances,
                    ..*old(self)
                })
            },
    {
        self.require_not_paused()?;
        let key = AddressPair { first: from, second: caller };
        let allowance = self.allowances.amount(&key);
        if allowance < amount {
            return Err(LpTokenError::InsufficientAllowance);
        }
        if self.balances.amount(&from) < amount {
            return Err(LpTokenError::InsufficientBalance);
        }
        self.allowances.set_amount(key, allowance - amount);
        self.perform_transfer(from, to, amount)
    }

    /// Creates `amount` tokens for `to` (owner only).
    pub fn mint_endpoint(&mut self, caller: Address, to: Address, amount: u128) -> (r: Result<
        Option<LpTokenEvent>,
        LpTokenError,
    >)
        requires
            old(self).wf(),
        ensures
            final(self).wf(),
            caller != old(self).owner ==> r == Err::<Option<LpTokenEvent>, LpTokenError>(
                LpTokenError::NotOwner,
            ),
            caller == old(self).owner ==> Self::mint_outcome(*old(self), *final(self), to, amount, r),
    {
        if caller != self.owner {
            return Err(LpTokenError::NotOwner);
        }
        self.mint(to, amount)
    }

    /// Destroys `amount` tokens held by `address` (owner only).
    pub fn burn_endpoint(&mut self, caller: Address, address: Address, amount: u128) -> (r: Result<
        LpTokenEvent,
        LpTokenError,
    >)
        requires
            old(self).wf(),
        ensures
            final(self).wf(),
            caller != old(self).owner ==> r == Err::<LpTokenEvent, LpTokenError>(
                LpTokenError::NotOwner,
            ),
            caller != old(self).owner ==> *final(self) == *old(self),
            caller == old(self).owner ==> Self::burn_outcome(*old(self), *final(self), address, amount, r),
    {
        if caller != self.owner {
            return Err(LpTokenError::NotOwner);
        }
        self.burn(address, amount)
    }

    /// Destroys `amount` of the caller's own tokens.
    pub fn burn_own(&mut self, caller: Address, amount: u128) -> (r: Result<
        LpTokenEvent,
        LpTokenError,
    >)
        requires
            old(self).wf(),
        ensures
            final(self).wf(),
            Self::burn_outcome(*old(self), *final(self), caller, amount, r),
    {
        self.burn(caller, amount)
    }

    /// Suspends transfers, approvals and the public mint (owner only).
    pub fn pause(&mut self, caller: Address) -> (r: Result<(), LpTokenError>)
        ensures
            caller != old(self).owner ==> r == Err::<(), LpTokenError>(LpTokenError::NotOwner)
                && *final(self) == *old(self),
            caller == old(self).owner ==> r is Ok && *final(self) == (LpToken {
                paused: true,
                ..*old(self)
            }),
    {
        if caller != self.owner {
            return Err(LpTokenError::NotOwner);
        }
        self.paused = true;
        Ok(())
    }

    /// Resumes normal operation (owner only).
    pub fn unpause(&mut self, caller: Address) -> (r: Result<(), LpTokenError>)
        ensures
            caller != old(self).owner ==> r == Err::<(), LpTokenError>(LpTokenError::NotOwner)
                && *final(self) == *old(self),
            caller == old(self).owner ==> r is Ok && *final(self) == (LpToken {
                paused: false,
                ..*old(self)
            }),
    {
        if caller != self.owner {
            return Err(LpTokenError::NotOwner);
        }
        self.paused = false;
        Ok(())
    }

    /// Whether the contract is paused.
    pub fn is_paused(&self) -> (r: bool)
        ensures
            r == self.paused,
    {
        self.paused
    }

    /// Sets the transfer fee in basis points (owner only, at most 10000).
    pub fn set_fee_percentage(&mut self, caller: Address, fee_percentage: u64) -> (r: Result<
        (),
        LpTokenError,
    >)
        ensures
            caller != old(self).owner ==> r == Err::<(), LpTokenError>(LpTokenError::NotOwner),
            caller == old(self).owner && fee_percentage > 10000 ==> r == Err::<(), LpTokenError>(
                LpTokenError::FeeTooHigh,
            ),
            caller == old(self).owner && fee_percentage <= 10000 ==> r is Ok,
            r is Err ==> *final(self) == *old(self),
            r is Ok ==> caller == old(self).owner && fee_percentage <= 10000 && *final(self) == (
            LpToken { fee_percentage, ..*old(self) }),
    {
        if caller != self.owner {
            return Err(LpTokenError::NotOwner);
        }
        if fee_percentage > 10000 {
            return Err(LpTokenError::FeeTooHigh);
        }
        self.fee_percentage = fee_percentage;
        Ok(())
    }

    /// The transfer fee in basis points.
    pub fn get_fee_percentage(&self) -> (r: u64)
        ensures
            r == self.fee_percentage,
    {
        self.fee_percentage
    }

    /// Lets `spender` spend `amount` on behalf of the caller, replacing any earlier allowance.
    pub fn approve(&mut self, caller: Address, spender: Address, amount: u128) -> (r: Result<
        LpTokenEvent,
        LpTokenError,
    >)
        requires
            old(self).wf(),
        ensures
            final(self).wf(),
            old(self).paused ==> r == Err::<LpTokenEvent, LpTokenError>(LpTokenError::Paused)
                && *final(self) == *old(self),
            !old(self).paused ==> {
                &&& r == Ok::<LpTokenEvent, LpTokenError>(
                    LpTokenEvent::Approve { owner: caller, spender, amount },
                )
                &&& final(self).allowances@ == old(self).allowances@.insert(
                    AddressPair { first: caller, second: spender },
                    amount,
                )
                &&& *final(self) == (LpToken { allowances: final(self).allowances, ..*old(self) })
            },
    {
        self.require_not_paused()?;
        self.allowances.set_amount(AddressPair { first: caller, second: spender }, amount);
        Ok(LpTokenEvent::Approve { owner: caller, spender, amount })
    }

    /// Whether `a` has received the free public mint.
    pub open spec fn claimed_by(&self, a: Address) -> bool {
        self.claimed@.dom().contains(a) && self.claimed@[a]
    }

    /// Gives ten free tokens to a caller that has never claimed them and holds none; the
    /// caller is then recorded as having claimed, so every later claim is refused.
    pub fn public_mint(&mut self, caller: Address) -> (r: Result<
        Option<LpTokenEvent>,
        LpTokenError,
    >)
        requires
            old(self).wf(),
        ensures
            final(self).wf(),
            old(self).paused ==> r == Err::<Option<LpTokenEvent>, LpTokenError>(
                LpTokenError::Paused,
            ) && *final(self) == *old(self),
            !old(self).paused && (old(self).claimed_by(caller) || old(self).balance(caller) != 0)
                ==> r == Err::<Option<LpTokenEvent>, LpTokenError>(LpTokenError::AlreadyClaimed)
                && *final(self) == *old(self),
            !old(self).paused && !old(self).claimed_by(caller) && old(self).balance(caller) == 0
                ==> Self::mint_outcome(
                *old(self),
                LpToken { claimed: old(self).claimed, ..*final(self) },
                caller,
                PUBLIC_MINT_AMOUNT,
                r,
            ),
            r is Ok ==> final(self).claimed@ == old(self).claimed@.insert(caller, true),
            r is Err ==> *final(self) == *old(self),
    {
        self.require_not_paused()?;
        let already = match self.claimed.get(&caller) {
            Some(c) => *c,
            None => false,
        };
        if already || self.balances.amount(&caller) != 0 {
            return Err(LpTokenError::AlreadyClaimed);
        }
        let event = self.mint(caller, PUBLIC_MINT_AMOUNT)?;
        self.claimed.insert(caller, true);
        Ok(event)
    }

    /// What minting `amount` for `to` does: nothing for a zero amount; otherwise the
    /// balance of `to` and the total supply grow by `amount`, unless the supply would
    /// overflow, in which case the call is refused.
    pub open spec fn mint_outcome(
        before: LpToken,
        after: LpToken,
        to: Address,
        amount: u128,
        r: Result<Option<LpTokenEvent>, LpTokenError>,
    ) -> bool {
        if amount == 0 {
            r == Ok::<Option<LpTokenEvent>, LpTokenError>(None) && after == before
        } else if before.total_token_supply + amount > u128::MAX {
            r == Err::<Option<LpTokenEvent>, LpTokenError>(LpTokenError::SupplyOverflow) && after
                == before
        } else {
            &&& r == Ok::<Option<LpTokenEvent>, LpTokenError>(
                Some(LpTokenEvent::Mint { to, amount }),
            )
            &&& after.balances@ == before.balances@.insert(
                to,
                (before.balance(to) + amount) as u128,
            )
            &&& after == (LpToken {
                balances: after.balances,
                total_token_supply: (before.total_token_supply + amount) as u128,
                ..before
            })
        }
    }

    /// What burning `amount` held by `address` does: refused when the balance is
    /// smaller; otherwise the balance and the total supply shrink by `amount`.
    pub open spec fn burn_outcome(
        before: LpToken,
        after: LpToken,
        address: Address,
        amount: u128,
        r: Result<LpTokenEvent, LpTokenError>,
    ) -> bool {
        if before.balance(address) < amount {
            r == Err::<LpTokenEvent, LpTokenError>(LpTokenError::InsufficientBalanceForBurn)
                && after == before
        } else {
            &&& r == Ok::<LpTokenEvent, LpTokenError>(LpTokenEvent::Burn { from: address, amount })
            &&& after.balances@ == before.balances@.insert(
                address,
                (before.balance(address) - amount) as u128,
            )
            &&& after == (LpToken {
                balances: after.balances,
                total_token_supply: (before.total_token_supply - amount) as u128,
                ..before
            })
        }
    }

    /// Creates `amount` tokens for `to`; a zero amount does nothing.
    pub fn mint(&mut self, to: Address, amount: u128) -> (r: Result<
        Option<LpTokenEvent>,
        LpTokenError,
    >)
        requires
            old(self).wf(),
        ensures
            final(self).wf(),
            Self::mint_outcome(*old(self), *final(self), to, amount, r),
    {
        if amount > 0 {
            if amount > u128::MAX - self.total_token_supply {
                return Err(LpTokenError::SupplyOverflow);
            }
            proof {
                self.balances.lemma_amounts_le_total(to, to);
            }
            let balance = self.balances.amount(&to);
            self.balances.set_amount(to, balance + amount);
            self.total_token_supply = self.total_token_supply + amount;
            Ok(Some(LpTokenEvent::Mint { to, amount }))
        } else {
            Ok(None)
        }
    }

    /// Destroys `amount` tokens held by `address`.
    pub fn burn(&mut self, address: Address, amount: u128) -> (r: Result<
        LpTokenEvent,
        LpTokenError,
    >)
        requires
            old(self).wf(),
        ensures
            final(self).wf(),
            Self::burn_outcome(*old(self), *final(self), address, amount, r),
    {
        let balance = self.balances.amount(&address);
        if balance < amount {
            return Err(LpTokenError::InsufficientBalanceForBurn);
        }
        proof {
            self.balances.lemma_amounts_le_total(address, address);
        }
        self.balances.set_amount(address, balance - amount);
        self.total_token_supply = self.total_token_supply - amount;
        Ok(LpTokenEvent::Burn { from: address, amount })
    }

    /// Moves `amount` out of `from`: `to` receives it less the fee, the owner receives the fee.
    pub fn perform_transfer(&mut self, from: Address, to: Address, amount: u128) -> (r: Result<
        LpTokenEvent,
        LpTokenError,
    >)
        requires
            old(self).wf(),
        ensures
            final(self).wf(),
            old(self).balance(from) < amount ==> r == Err::<LpTokenEvent, LpTokenError>(
                LpTokenError::InsufficientBalance,
            ),
            old(self).balance(from) >= amount ==> r is Ok,
            r is Err ==> *final(self) == *old(self),
            r is Ok ==> {
                &&& old(self).balance(from) >= amount
                &&& final(self).balances@ == old(self).balances_after_transfer(from, to, amount as nat)
                &&& r == Ok::<LpTokenEvent, LpTokenError>(
                    LpTokenEvent::Transfer {
                        from,
                        to,
                        amount: (amount - transfer_fee(amount as nat, old(self).fee_percentage as nat)) as u128,
                        fee: transfer_fee(amount as nat, old(self).fee_percentage as nat) as u128,
                    },
                )
                &&& *final(self) == (LpToken { balances: final(self).balances, ..*old(self) })
            },
    {
        let ghost before = *self;
        let balance = self.balances.amount(&from);
        if balance < amount {
            return Err(LpTokenError::InsufficientBalance);
        }
        let fee_percentage = self.fee_percentage;
        let fee_amount: u128 = if fee_percentage > 0 {
            apply_basis_points(amount, fee_percentage)
        } else {
            0
        };
        assert(fee_amount == transfer_fee(amount as nat, fee_percentage as nat)) by {
            if fee_percentage == 0 {
                assert(amount as nat * 0 == 0) by (nonlinear_arith);
            }
        }
        let transfer_amount = amount - fee_amount;
        proof {
            self.balances.lemma_amounts_le_total(from, from);
        }
        self.balances.set_amount(from, balance - amount);
        proof {
            self.balances.lemma_amounts_le_total(to, to);
        }
        let to_balance = self.balances.amount(&to);
        self.balances.set_amount(to, to_balance + transfer_amount);
        if fee_amount > 0 {
            let owner = self.owner;
            proof {
                self.balances.lemma_amounts_le_total(owner, owner);
            }
            let owner_balance = self.balances.amount(&owner);
            self.balances.set_amount(owner, owner_balance + fee_amount);
        }
        Ok(LpTokenEvent::Transfer { from, to, amount: transfer_amount, fee: fee_amount })
    }
}

/// The fee on a transfer never exceeds the amount transferred.
pub proof fn lemma_fee_within_amount(amount: nat, fee_percentage: nat)
    requires
        fee_percentage <= 10000,
    ensures
        transfer_fee(amount, fee_percentage) <= amount,
{
    assert(amount * fee_percentage <= amount * 10000) by (nonlinear_arith)
        requires
            fee_percentage <= 10000,
    ;
    vstd::arithmetic::div_mod::lemma_div_is_ordered(
        (amount * fee_percentage) as int,
        (amount * 10000) as int,
        10000,
    );
    vstd::arithmetic::div_mod::lemma_div_multiples_vanish(amount as int, 10000);
}

/// A transfer between three distinct accounts takes `amount` from the sender, gives the
/// receiver `amount` less the fee and the owner the fee, and leaves every other balance
/// as it was; no value is created or lost.
pub proof fn lemma_transfer_moves_value(t: LpToken, from: Address, to: Address, amount: nat, other: Address)
    requires
        t.wf(),
        from != to,
        from != t.owner,
        to != t.owner,
        other != from,
        other != to,
        other != t.owner,
        amount <= t.balance(from),
    ensures
        ({
            let after = t.balances_after_transfer(from, to, amount);
            let fee = transfer_fee(amount, t.fee_percentage as nat);
            &&& after[from] == t.balance(from) - amount
            &&& after[to] == t.balance(to) + amount - fee
            &&& fee > 0 ==> after[t.owner] == t.balance(t.owner) + fee
            &&& (if after.dom().contains(other) { after[other] as nat } else { 0 }) == t.balance(other)
            &&& (after[from] as nat) + (after[to] as nat) + (if fee > 0 { after[t.owner] as nat } else { t.balance(t.owner) })
                == t.balance(from) + t.balance(to) + t.balance(t.owner)
        }),
{
    lemma_fee_within_amount(amount, t.fee_percentage as nat);
    t.balances.lemma_amounts_le_total(from, to);
    t.balances.lemma_amounts_le_total(to, t.owner);
    t.balances.lemma_amounts_le_total(from, t.owner);
}

/// A successful free mint leaves the caller holding the minted tokens and recorded as
/// having claimed; no operation clears that record, so every later claim is refused.
pub proof fn lemma_public_mint_not_repeated(
    s0: LpToken,
    s1: LpToken,
    caller: Address,
    e: Option<LpTokenEvent>,
)
    requires
        s0.wf(),
        LpToken::mint_outcome(s0, LpToken { claimed: s0.claimed, ..s1 }, caller, PUBLIC_MINT_AMOUNT, Ok(e)),
        s1.claimed@ == s0.claimed@.insert(caller, true),
    ensures
        s1.balance(caller) >= PUBLIC_MINT_AMOUNT,
        s1.claimed_by(caller),
{
    s0.balances.lemma_amounts_le_total(caller, caller);
}

/// Minting an amount for an account and then burning the same amount from it restores
/// every balance and the total supply.
pub proof fn lemma_mint_then_burn_restores(
    s0: LpToken,
    s1: LpToken,
    s2: LpToken,
    to: Address,
    amount: u128,
    other: Address,
    e1: Option<LpTokenEvent>,
    e2: LpTokenEvent,
)
    requires
        s0.wf(),
        amount > 0,
        LpToken::mint_outcome(s0, s1, to, amount, Ok(e1)),
        LpToken::burn_outcome(s1, s2, to, amount, Ok(e2)),
    ensures
        s2.total_token_supply == s0.total_token_supply,
        s2.balance(other) == s0.balance(other),
{
    s0.balances.lemma_amounts_le_total(to, to);
}

} // verus!
