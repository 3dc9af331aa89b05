# tusdt

Verified core of the tUSDT protocol: the stablecoin ledger, the fee treasury, the price
oracle, the liquidation auction, the maintainer election, governance and the lending pool.

Each contract is a plain Rust value; each message is a method that takes what the chain would
supply (caller, block time, balances, oracle reading, stake records) as arguments and returns
its events and the outside effects the host must carry out. Every message states, in its
contract, the exact new state and result, and that a failed message leaves the state unchanged.
For the lending pool, `TusdtLendingPool::settle` is the step after the host carried out the
effects: a failed effect makes the message fail with that effect's error and puts the pool back.

Layout of `src/`:

- `types`, `ratio`, `voting`: shared units, 18-decimal fixed-point arithmetic, integer square
  root, quadratic voting power and the UTC calendar.
- `erc20`, `treasury`, `oracle`, `auction`, `election`, `governance`, `forward`: one module per
  contract (`forward` names the calls governance admits into the other contracts).
- `lending`: the lending pool, split into parameters, interest rates, risk, supply, borrowing,
  collateral, liquidation, administration and read-only views.

Laws that span several messages are public proof functions whose names start with `law_`.
