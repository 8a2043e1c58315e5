//! Handlers that turn Ethereum blocks and event logs into flat output records:
//! a JSON line per block header, and typed records for the events of a
//! Uniswap v3 ETH/USDC pool.

pub mod abi;
pub mod bigint;
pub mod block;
pub mod contract;
pub mod ethereum;
pub mod hex;
pub mod json;
pub mod pool;
pub mod time;
