//! The chain state that the `evm_*` handlers act on.

use vstd::prelude::*;

use crate::error::ProviderError;

verus! {

/// The store that owns block times, gas limits and mining. The handlers of
/// this crate hand their arguments to it and answer with what it returns;
/// what an operation does to the store is the store's own affair.
pub trait ChainState {
    /// What the store returns for a mined block.
    type MineBlockResult;

    /// Moves the time of the coming blocks forward by `increment` seconds,
    /// and returns the whole offset.
    fn increase_block_time(&mut self, increment: u64) -> (new_block_time: u64);

    /// Mines one block, at `timestamp` if there is one, and commits it.
    fn mine_and_commit_block(&mut self, timestamp: Option<u64>) -> (result: Result<
        Self::MineBlockResult,
        ProviderError,
    >);

    /// Switches automatic mining on or off.
    fn set_auto_mining(&mut self, enabled: bool);

    /// Sets the gas limit of the coming blocks, if the store accepts it.
    fn set_block_gas_limit(&mut self, gas_limit: u64) -> (result: Result<(), ProviderError>);

    /// Sets the timestamp of the next block, if the store accepts it, and
    /// returns it.
    fn set_next_block_timestamp(&mut self, timestamp: u64) -> (result: Result<u64, ProviderError>);
}

} // verus!
