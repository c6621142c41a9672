//! Investors and the sharing of the interest earned among them.
use vstd::prelude::*;

use crate::address::Address;
use crate::loan_controller::{LoanController, LoanError, TokenId, Transfer};
use crate::math::{checked_mul_div, mul_div_floor};

verus! {

impl LoanController {
    /// Shares held by `investor` (zero when none).
    pub open spec fn shares_of(&self, investor: Address) -> nat {
        self.investor_shares.count_of(investor)
    }

    /// What `investor` receives from a distribution:
    /// `total_interest_earned * shares / total_investor_shares`.
    pub open spec fn payout_of(&self, investor: Address) -> nat {
        mul_div_floor(
            self.total_interest_earned as nat,
            self.shares_of(investor),
            self.total_investor_shares as nat,
        )
    }

    /// The investor at position `i` of the list was already listed before it.
    pub open spec fn listed_before(&self, i: int) -> bool {
        listed_earlier(self.investors@, i)
    }

    /// The shares are all held by listed investors: the shares of the distinct listed
    /// investors make up the total, and every investor holding shares is listed.
    pub open spec fn shares_all_listed(&self) -> bool {
        &&& distinct_listed_shares(self.investors@, self.investor_shares@, self.investors@.len())
            == self.total_investor_shares
        &&& forall|a: Address| #[trigger]
            self.investor_shares@.dom().contains(a) && self.investor_shares@[a] > 0
                ==> self.investors@.contains(a)
    }

    /// The transfers a distribution makes to the first `n` listed investors, in list
    /// order, paying each investor once (at its first listing) and skipping those whose
    /// payout is zero.
    pub open spec fn payout_transfers(&self, n: nat) -> Seq<Transfer>
        decreases n,
    {
        if n == 0 {
            Seq::empty()
        } else {
            let inv = self.investors@[n - 1];
            let prev = self.payout_transfers((n - 1) as nat);
            if !self.listed_before(n - 1) && self.payout_of(inv) > 0 {
                prev.push(Transfer { to: inv, token: TokenId::Egld, amount: self.payout_of(inv) as u128 })
            } else {
                prev
            }
        }
    }

    /// Some listed investor's payout would overflow 128 bits before the division.
    pub open spec fn payout_overflows(&self) -> bool {
        exists|i: int|
            0 <= i < self.investors@.len() && self.total_interest_earned * self.shares_of(
                #[trigger] self.investors@[i],
            ) > u128::MAX
    }

    /// Sum of the payouts to the distinct investors among the first `n` listed.
    pub open spec fn payout_sum(&self, n: nat) -> nat
        decreases n,
    {
        if n == 0 {
            0
        } else if self.listed_before(n - 1) {
            self.payout_sum((n - 1) as nat)
        } else {
            self.payout_sum((n - 1) as nat) + self.payout_of(self.investors@[n - 1])
        }
    }

    /// Sum of the shares of the distinct investors among the first `n` listed.
    pub open spec fn listed_shares(&self, n: nat) -> nat {
        distinct_listed_shares(self.investors@, self.investor_shares@, n)
    }

    /// Whether the investor at position `i` appears earlier in the list.
    fn is_listed_before(&self, i: usize) -> (r: bool)
        requires
            i < self.investors@.len(),
        ensures
            r == self.listed_before(i as int),
    {
        let mut j: usize = 0;
        while j < i
            invariant
                i < self.investors@.len(),
                j <= i,
                forall|k: int| 0 <= k < j ==> self.investors@[k] != self.investors@[i as int],
            decreases i - j,
        {
            if self.investors[j] == self.investors[i] {
                return true;
            }
            j = j + 1;
        }
        false
    }

    /// Gives `investor` `shares` more shares and lists it among the investors (listing it
    /// again if it was already listed); refused for the zero address and when the total
    /// would exceed 10000 basis points (100%).
    pub fn add_investor(&mut self, investor: Address, shares: u64) -> (r: Result<(), LoanError>)
        requires
            old(self).wf(),
        ensures
            final(self).wf(),
            investor == Address::spec_zero() ==> r == Err::<(), LoanError>(
                LoanError::InvalidInvestorAddress,
            ),
            investor != Address::spec_zero() && old(self).total_investor_shares + shares > 10000
                ==> r == Err::<(), LoanError>(LoanError::InvestorSharesAboveWhole),
            investor != Address::spec_zero() && old(self).total_investor_shares + shares <= 10000
                && old(self).shares_of(investor) + shares > u64::MAX ==> r == Err::<(), LoanError>(
                LoanError::ArithmeticOverflow,
            ),
            investor != Address::spec_zero() && old(self).total_investor_shares + shares <= 10000
                && old(self).shares_of(investor) + shares <= u64::MAX ==> r is Ok,
            r is Err ==> *final(self) == *old(self),
            r is Ok ==> {
                &&& investor != Address::spec_zero()
                &&& old(self).total_investor_shares + shares <= 10000
                &&& final(self).investor_shares@ == old(self).investor_shares@.insert(
                    investor,
                    (old(self).shares_of(investor) + shares) as u64,
                )
                &&& final(self).investors@ == old(self).investors@.push(investor)
                &&& *final(self) == (LoanController {
                    investor_shares: final(self).investor_shares,
                    investors: final(self).investors,
                    total_investor_shares: (old(self).total_investor_shares + shares) as u64,
                    ..*old(self)
                })
            },
    {
        if investor.is_zero() {
            return Err(LoanError::InvalidInvestorAddress);
        }
        if self.total_investor_shares > 10000 || shares > 10000 - self.total_investor_shares {
            return Err(LoanError::InvestorSharesAboveWhole);
        }
        let current_shares = self.investor_shares.count(&investor);
        if current_shares > u64::MAX - shares {
            return Err(LoanError::ArithmeticOverflow);
        }
        let ghost list = self.investors@;
        let ghost before = self.investor_shares@;
        self.investor_shares.insert(investor, current_shares + shares);
        self.total_investor_shares = self.total_investor_shares + shares;
        self.investors.push(investor);
        proof {
            let after = self.investor_shares@;
            lemma_listed_shares_update(list, before, investor, (current_shares + shares) as u64, list.len());
            lemma_listed_shares_push(list, after, investor);
            if list.contains(investor) {
                let j = choose|j: int| 0 <= j < list.len() && list[j] == investor;
                assert(occurs_within(list, investor, list.len() as int));
            } else {
                if occurs_within(list, investor, list.len() as int) {
                    let j = choose|j: int| 0 <= j < list.len() && list[j] == investor;
                    assert(list.contains(investor));
                }
                assert(share_in(before, investor) == 0);
            }
            assert forall|a: Address| #[trigger]
                after.dom().contains(a) && after[a] > 0 implies self.investors@.contains(a) by {
                if a == investor {
                    assert(self.investors@[list.len() as int] == a);
                } else {
                    assert(before.dom().contains(a) && before[a] > 0);
                    let j = choose|j: int| 0 <= j < list.len() && list[j] == a;
                    assert(self.investors@[j] == a);
                }
            }
        }
        Ok(())
    }

    /// Pays every listed investor its share of the interest earned, once however often it
    /// is listed (owner only), then resets the interest earned to zero.
    pub fn distribute_profits(&mut self, caller: Address) -> (r: Result<Vec<Transfer>, LoanError>)
        requires
            old(self).wf(),
        ensures
            final(self).wf(),
            caller != old(self).owner ==> r == Err::<Vec<Transfer>, LoanError>(LoanError::NotOwner),
            caller == old(self).owner && old(self).total_interest_earned == 0 ==> r == Err::<
                Vec<Transfer>,
                LoanError,
            >(LoanError::NoProfits),
            caller == old(self).owner && old(self).total_interest_earned > 0
                && old(self).total_investor_shares == 0 ==> r == Err::<Vec<Transfer>, LoanError>(
                LoanError::NoInvestors,
            ),
            caller == old(self).owner && old(self).total_interest_earned > 0
                && old(self).total_investor_shares > 0 && old(self).payout_overflows() ==> r
                == Err::<Vec<Transfer>, LoanError>(LoanError::ArithmeticOverflow),
            caller == old(self).owner && old(self).total_interest_earned > 0
                && old(self).total_investor_shares > 0 && !old(self).payout_overflows() ==> r is Ok,
            r is Err ==> *final(self) == *old(self),
            r is Ok ==> {
                &&& caller == old(self).owner
                &&& old(self).total_interest_earned > 0
                &&& old(self).total_investor_shares > 0
                &&& !old(self).payout_overflows()
                &&& r->Ok_0@ == old(self).payout_transfers(old(self).investors@.len())
                &&& *final(self) == (LoanController { total_interest_earned: 0, ..*old(self) })
            },
    {
        if caller != self.owner {
            return Err(LoanError::NotOwner);
        }
        let total_interest = self.total_interest_earned;
        if total_interest == 0 {
            return Err(LoanError::NoProfits);
        }
        let total_shares = self.total_investor_shares;
        if total_shares == 0 {
            return Err(LoanError::NoInvestors);
        }
        let ghost before = *self;
        let mut transfers: Vec<Transfer> = Vec::new();
        let mut i: usize = 0;
        while i < self.investors.len()
            invariant
                *self == before,
                caller == self.owner,
                total_interest > 0,
                self.wf(),
                total_interest == self.total_interest_earned,
                total_shares == self.total_investor_shares,
                total_shares > 0,
                i <= self.investors@.len(),
                transfers@ == self.payout_transfers(i as nat),
                forall|k: int|
                    0 <= k < i ==> total_interest * self.shares_of(#[trigger] self.investors@[k])
                        <= u128::MAX,
            decreases self.investors@.len() - i,
        {
            let investor = self.investors[i];
            let shares = self.investor_shares.count(&investor);
            let amount = match checked_mul_div(total_interest, shares as u128, total_shares as u128) {
                Some(a) => a,
                None => {
                    proof {
                        assert(self.investors@[i as int] == self.investors@[i as int]);
                    }
                    return Err(LoanError::ArithmeticOverflow);
                },
            };
            if amount > 0 && !self.is_listed_before(i) {
                transfers.push(Transfer { to: investor, token: TokenId::Egld, amount });
            }
            i = i + 1;
        }
        proof {
            assert(!self.payout_overflows());
        }
        self.total_interest_earned = 0;
        Ok(transfers)
    }

    /// Removes all shares of `investor` (owner only); it stays listed, with no shares.
    pub fn remove_investor(&mut self, caller: Address, investor: Address) -> (r: Result<
        (),
        LoanError,
    >)
        requires
            old(self).wf(),
        ensures
            final(self).wf(),
            caller != old(self).owner ==> r == Err::<(), LoanError>(LoanError::NotOwner),
            caller == old(self).owner && old(self).shares_of(investor) == 0 ==> r == Err::<
                (),
                LoanError,
            >(LoanError::InvestorNotFound),
            caller == old(self).owner && old(self).shares_of(investor) > 0 ==> r is Ok,
            r is Err ==> *final(self) == *old(self),
            r is Ok ==> {
                &&& caller == old(self).owner
                &&& 0 < old(self).shares_of(investor) <= old(self).total_investor_shares
                &&& final(self).investor_shares@ == old(self).investor_shares@.insert(investor, 0)
                &&& *final(self) == (LoanController {
                    investor_shares: final(self).investor_shares,
                    total_investor_shares: (old(self).total_investor_shares - old(self).shares_of(
                        investor,
                    )) as u64,
                    ..*old(self)
                })
            },
    {
        if caller != self.owner {
            return Err(LoanError::NotOwner);
        }
        let shares = self.investor_shares.count(&investor);
        if shares == 0 {
            return Err(LoanError::InvestorNotFound);
        }
        let ghost list = self.investors@;
        let ghost before = self.investor_shares@;
        proof {
            lemma_listed_shares_update(list, before, investor, 0, list.len());
            assert(list.contains(investor));
            let j = choose|j: int| 0 <= j < list.len() && list[j] == investor;
            assert(occurs_within(list, investor, list.len() as int));
        }
        self.investor_shares.insert(investor, 0);
        self.total_investor_shares = self.total_investor_shares - shares;
        Ok(())
    }

    /// Shares held by `investor`.
    pub fn get_investor_shares(&self, investor: Address) -> (r: u64)
        requires
            self.wf(),
        ensures
            r == self.shares_of(investor),
    {
        self.investor_shares.count(&investor)
    }

    /// Total shares held by all investors.
    pub fn get_total_investor_shares(&self) -> (r: u64)
        ensures
            r == self.total_investor_shares,
    {
        self.total_investor_shares
    }
}

/// Shares recorded for `a` in `shares` (zero when none).
pub open spec fn share_in(shares: Map<Address, u64>, a: Address) -> nat {
    if shares.dom().contains(a) {
        shares[a] as nat
    } else {
        0
    }
}

/// The entry at position `i` of `list` already occurs before position `i`.
pub open spec fn listed_earlier(list: Seq<Address>, i: int) -> bool {
    exists|j: int| 0 <= j < i && list[j] == list[i]
}

/// `a` occurs among the first `n` entries of `list`.
pub open spec fn occurs_within(list: Seq<Address>, a: Address, n: int) -> bool {
    exists|j: int| 0 <= j < n && list[j] == a
}

/// Sum of the shares of the distinct addresses among the first `n` entries of `list`.
pub open spec fn distinct_listed_shares(list: Seq<Address>, shares: Map<Address, u64>, n: nat) -> nat
    decreases n,
{
    if n == 0 {
        0
    } else if listed_earlier(list, n - 1) {
        distinct_listed_shares(list, shares, (n - 1) as nat)
    } else {
        distinct_listed_shares(list, shares, (n - 1) as nat) + share_in(shares, list[n - 1])
    }
}

/// Changing the shares of `a` to `v` changes the distinct listed shares by the
/// difference, when `a` is listed.
proof fn lemma_listed_shares_update(
    list: Seq<Address>,
    shares: Map<Address, u64>,
    a: Address,
    v: u64,
    n: nat,
)
    requires
        n <= list.len(),
    ensures
        occurs_within(list, a, n as int) ==> distinct_listed_shares(list, shares.insert(a, v), n)
            + share_in(shares, a) == distinct_listed_shares(list, shares, n) + v,
        !occurs_within(list, a, n as int) ==> distinct_listed_shares(list, shares.insert(a, v), n)
            == distinct_listed_shares(list, shares, n),
    decreases n,
{
    if n > 0 {
        let m = (n - 1) as nat;
        lemma_listed_shares_update(list, shares, a, v, m);
        let e = list[m as int];
        if occurs_within(list, a, n as int) && !occurs_within(list, a, m as int) {
            assert(e == a);
            assert(!listed_earlier(list, m as int));
        }
        if occurs_within(list, a, m as int) {
            assert(occurs_within(list, a, n as int));
        }
        if !occurs_within(list, a, n as int) {
            assert(e != a);
        }
    }
}

/// Appending an entry leaves the distinct listed shares of the earlier entries unchanged.
proof fn lemma_listed_shares_prefix(list: Seq<Address>, shares: Map<Address, u64>, a: Address, n: nat)
    requires
        n <= list.len(),
    ensures
        distinct_listed_shares(list.push(a), shares, n) == distinct_listed_shares(list, shares, n),
    decreases n,
{
    if n > 0 {
        let m = (n - 1) as nat;
        lemma_listed_shares_prefix(list, shares, a, m);
        let l2 = list.push(a);
        assert(l2[m as int] == list[m as int]);
        if listed_earlier(list, m as int) {
            let j = choose|j: int| 0 <= j < m && list[j] == list[m as int];
            assert(l2[j] == list[j]);
        }
        if listed_earlier(l2, m as int) {
            let j = choose|j: int| 0 <= j < m && l2[j] == l2[m as int];
            assert(l2[j] == list[j]);
        }
    }
}

/// Appending `a` adds its shares unless it is already listed.
proof fn lemma_listed_shares_push(list: Seq<Address>, shares: Map<Address, u64>, a: Address)
    ensures
        list.contains(a) ==> distinct_listed_shares(list.push(a), shares, list.len() + 1)
            == distinct_listed_shares(list, shares, list.len()),
        !list.contains(a) ==> distinct_listed_shares(list.push(a), shares, list.len() + 1)
            == distinct_listed_shares(list, shares, list.len()) + share_in(shares, a),
{
    let n = list.len();
    let l2 = list.push(a);
    lemma_listed_shares_prefix(list, shares, a, n);
    assert(l2[n as int] == a);
    if list.contains(a) {
        let j = choose|j: int| 0 <= j < list.len() && list[j] == a;
        assert(l2[j] == list[j]);
        assert(listed_earlier(l2, n as int));
    } else {
        if listed_earlier(l2, n as int) {
            let j = choose|j: int| 0 <= j < n && l2[j] == l2[n as int];
            assert(l2[j] == list[j]);
            assert(list.contains(a));
        }
    }
}

/// Total amount moved by a sequence of transfers.
pub open spec fn transfers_total(s: Seq<Transfer>) -> nat
    decreases s.len(),
{
    if s.len() == 0 {
        0
    } else {
        transfers_total(s.drop_last()) + s.last().amount as nat
    }
}

proof fn lemma_payout_scaled(c: LoanController, n: nat)
    requires
        c.total_investor_shares > 0,
        n <= c.investors@.len(),
        c.listed_shares(n) <= c.total_investor_shares,
    ensures
        c.payout_sum(n) * (c.total_investor_shares as nat) <= (c.total_interest_earned as nat)
            * c.listed_shares(n),
        transfers_total(c.payout_transfers(n)) == c.payout_sum(n),
    decreases n,
{
    if n > 0 && c.listed_before(n - 1) {
        lemma_payout_scaled(c, (n - 1) as nat);
        assert(c.payout_transfers(n) == c.payout_transfers((n - 1) as nat));
    } else if n > 0 {
        let inv = c.investors@[n - 1];
        let t = c.total_investor_shares as int;
        let i = c.total_interest_earned as int;
        let sh = c.shares_of(inv) as int;
        let x = i * sh;
        let p = c.payout_of(inv) as int;
        let ps = c.payout_sum((n - 1) as nat) as int;
        let ls = c.listed_shares((n - 1) as nat) as int;
        assert(c.listed_shares(n) == ls + sh);
        assert(c.payout_sum(n) == ps + p);
        lemma_payout_scaled(c, (n - 1) as nat);
        vstd::arithmetic::div_mod::lemma_fundamental_div_mod(x, t);
        assert(p == x / t);
        assert(p * t <= x) by (nonlinear_arith)
            requires
                p == x / t,
                x == t * (x / t) + x % t,
                0 <= x % t,
                t > 0,
        ;
        assert(p <= i) by (nonlinear_arith)
            requires
                p * t <= x,
                x == i * sh,
                sh <= t,
                t > 0,
                i >= 0,
        ;
        assert((ps + p) * t <= i * (ls + sh)) by (nonlinear_arith)
            requires
                ps * t <= i * ls,
                p * t <= x,
                x == i * sh,
        ;
        let prev = c.payout_transfers((n - 1) as nat);
        if c.payout_of(inv) > 0 {
            let tr = Transfer { to: inv, token: TokenId::Egld, amount: c.payout_of(inv) as u128 };
            assert(c.payout_transfers(n) == prev.push(tr));
            assert(prev.push(tr).drop_last() =~= prev);
        } else {
            assert(c.payout_transfers(n) == prev);
        }
        assert(c.payout_sum(n) * (c.total_investor_shares as nat) <= (c.total_interest_earned as nat)
            * c.listed_shares(n)) by (nonlinear_arith)
            requires
                (ps + p) * t <= i * (ls + sh),
                c.payout_sum(n) == ps + p,
                c.listed_shares(n) == ls + sh,
                t == c.total_investor_shares,
                i == c.total_interest_earned,
        ;
    } else {
        assert(c.payout_sum(0) == 0);
        assert(c.listed_shares(0) == 0);
        assert(0 * (c.total_investor_shares as nat) == 0) by (nonlinear_arith);
    }
}

/// A distribution never pays out more than the interest earned: what it transfers is
/// the sum of the payouts, and that sum is at most the interest earned.
pub proof fn lemma_distribution_within_interest(c: LoanController)
    requires
        c.wf(),
        c.total_investor_shares > 0,
    ensures
        transfers_total(c.payout_transfers(c.investors@.len())) == c.payout_sum(c.investors@.len()),
        c.payout_sum(c.investors@.len()) <= c.total_interest_earned,
{
    let n = c.investors@.len();
    lemma_payout_scaled(c, n);
    let t = c.total_investor_shares as int;
    let i = c.total_interest_earned as int;
    let ps = c.payout_sum(n) as int;
    let ls = c.listed_shares(n) as int;
    assert(ps <= i) by (nonlinear_arith)
        requires
            ps * t <= i * ls,
            ls <= t,
            t > 0,
            i >= 0,
            ps >= 0,
    ;
}

proof fn lemma_payout_rounding(c: LoanController, n: nat)
    requires
        c.total_investor_shares > 0,
        n <= c.investors@.len(),
    ensures
        (c.payout_sum(n) + n) * (c.total_investor_shares as nat) >= (c.total_interest_earned as nat)
            * c.listed_shares(n) + n,
    decreases n,
{
    if n > 0 && c.listed_before(n - 1) {
        lemma_payout_rounding(c, (n - 1) as nat);
        let t = c.total_investor_shares as int;
        let i = c.total_interest_earned as int;
        let ps = c.payout_sum((n - 1) as nat) as int;
        let ls = c.listed_shares((n - 1) as nat) as int;
        let m = (n - 1) as int;
        assert(c.payout_sum(n) == ps);
        assert(c.listed_shares(n) == ls);
        assert((ps + m + 1) * t >= i * ls + m + 1) by (nonlinear_arith)
            requires
                (ps + m) * t >= i * ls + m,
                t >= 1,
        ;
    } else if n > 0 {
        let inv = c.investors@[n - 1];
        let t = c.total_investor_shares as int;
        let i = c.total_interest_earned as int;
        let sh = c.shares_of(inv) as int;
        let x = i * sh;
        let p = c.payout_of(inv) as int;
        let ps = c.payout_sum((n - 1) as nat) as int;
        let ls = c.listed_shares((n - 1) as nat) as int;
        let m = (n - 1) as int;
        assert(c.listed_shares(n) == ls + sh);
        assert(c.payout_sum(n) == ps + p);
        lemma_payout_rounding(c, (n - 1) as nat);
        vstd::arithmetic::div_mod::lemma_fundamental_div_mod(x, t);
        assert(p == x / t);
        assert((p + 1) * t >= x + 1) by (nonlinear_arith)
            requires
                p == x / t,
                x == t * (x / t) + x % t,
                x % t < t,
                t > 0,
        ;
        assert((ps + p + m + 1) * t >= i * (ls + sh) + m + 1) by (nonlinear_arith)
            requires
                (ps + m) * t >= i * ls + m,
                (p + 1) * t >= x + 1,
                x == i * sh,
        ;
        assert((c.payout_sum(n) + n) * (c.total_investor_shares as nat) >= (
        c.total_interest_earned as nat) * c.listed_shares(n) + n) by (nonlinear_arith)
            requires
                (ps + p + m + 1) * t >= i * (ls + sh) + m + 1,
                c.payout_sum(n) == ps + p,
                c.listed_shares(n) == ls + sh,
                n == m + 1,
                t == c.total_investor_shares,
                i == c.total_interest_earned,
        ;
    } else {
        assert(c.payout_sum(0) == 0);
        assert(c.listed_shares(0) == 0);
        assert((0 + 0) * (c.total_investor_shares as nat) == 0) by (nonlinear_arith);
        assert((c.total_interest_earned as nat) * 0 == 0) by (nonlinear_arith);
    }
}

/// A distribution pays out the interest earned up to rounding: less than one unit is
/// kept back per listed investor.
pub proof fn lemma_distribution_rounding_loss(c: LoanController)
    requires
        c.wf(),
        c.total_investor_shares > 0,
    ensures
        c.total_interest_earned < c.payout_sum(c.investors@.len()) + c.investors@.len(),
        c.payout_sum(c.investors@.len()) <= c.total_interest_earned,
{
    let n = c.investors@.len();
    lemma_payout_rounding(c, n);
    lemma_distribution_within_interest(c);
    let t = c.total_investor_shares as int;
    let i = c.total_interest_earned as int;
    let ps = c.payout_sum(n) as int;
    if n == 0 {
        assert(c.listed_shares(0) == 0);
    }
    assert(i < ps + n) by (nonlinear_arith)
        requires
            (ps + n) * t >= i * t + n,
            n > 0,
            t > 0,
    ;
}

} // verus!
