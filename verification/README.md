# socialfi_credit

Verified logic of a reputation-based credit platform built from three MultiversX
smart contracts: a social reputation registry, a fee-charging liquidity-provider token
and a loan desk that lends against reputation (and optionally collateral).

Each contract is a state machine over plain values: amounts are `u128`, addresses are
four 64-bit words, storage is a struct of fields and keyed stores (`storage::KeyMap`,
whose view is a `Map`). An endpoint takes its caller, the block time and the payment it
received as arguments, returns the events it emits or the transfers it asks for, and
either changes the state as its contract states or refuses with an error and changes
nothing. Arithmetic that would leave the 64- or 128-bit range is refused as well; the
totals lent and owed over all loans stop at the largest 128-bit value instead.

Repayment after the due time owes a late fee of `late_fee_daily_rate` basis points of
the amount due per whole day late. The late fee is this flat daily rate: the
progressive-fee threshold and rate are kept as configuration only, and nothing reads
them. Loans expire once past their due time by the grace
period. Investor shares are always held by listed investors, so a profit distribution
never pays out more than the interest earned. The loan statistics (active, repaid and
overdue loans, amounts lent and owed) are computed over all recorded loans. The active-loan
count checked against the global loan limit grows with every loan opened and shrinks
when a loan is repaid or defaults. A dynamic interest rate follows the pool utilization
around a target.

The loan request that consults the reputation registry is a chain of asynchronous calls
on chain. Here each step is a function: it returns the next call to make
(`ReputationCall`) or the loan it opened, and takes the registry's answer as an argument.

## Layout

- `src/` — the library, verified with Verus:
  - `address.rs`, `storage.rs`, `math.rs`: addresses, keyed stores with their sums,
    basis-point arithmetic;
  - `reputation_score.rs`: the reputation registry;
  - `lp_token.rs`: the liquidity-provider token;
  - `loan_controller.rs` and the `loan_*.rs` modules: the loan desk (requests,
    repayment, collateral, investors, administration, views);
  - `basic_reputation_score.rs`, `basic_loan_controller.rs`: the minimal first versions
    of the registry and the desk.
- `tests/` — tests on concrete values.
- `app/` — codec-ready copies of the on-chain records and conversions between
  MultiversX managed values and the library's plain values.
