//! Verified core logic of the tUSDT protocol contracts: the stablecoin ledger, the fee treasury,
//! the price oracle, the liquidation auction, the maintainer election, governance proposals and
//! the lending pool. Every contract is modelled as a plain state value; each message is a
//! verified state transition whose contract states its result and its effect on the state.

pub mod types;
pub mod ratio;
pub mod treasury;
pub mod oracle;
pub mod erc20;
pub mod auction;
pub mod voting;
pub mod election;
pub mod lending;
pub mod governance;
pub mod forward;
