//! Handlers of the `evm_*` requests.
//!
//! A handler hands its argument to the chain state and answers with what the
//! chain state returned. Its contract says so over the chain state's own
//! operation: the store after the handler, and the answer, are what one call
//! of that operation with the handler's argument gave. In the contracts this
//! one call is the reference `store`: it finds the chain state as the handler
//! found it, and leaves it as the handler leaves it.

use vstd::prelude::*;
use vstd::string::StringExecFns;

use crate::data::ChainState;
use crate::decimal::{decimal, u64_to_decimal};
use crate::error::{reported, ProviderError, Violation};
use crate::methods::U64OrUsize;

verus! {

/// The timestamp of a mine request as a number of seconds, if there is one.
pub open spec fn timestamp_seconds(timestamp: Option<U64OrUsize>) -> Option<u64> {
    match timestamp {
        Some(timestamp) => Some(timestamp.value()),
        None => None,
    }
}

/// Moves the block time forward by `increment` seconds, and answers with the
/// new offset as a decimal numeral.
pub fn handle_increase_time_request<D: ChainState>(data: &mut D, increment: U64OrUsize) -> (result:
    Result<String, ProviderError>)
    ensures
        exists|store: &mut D, new_block_time: u64|
            {
                &&& *store == *old(data)
                &&& *final(store) == *final(data)
                &&& #[trigger] call_ensures(
                    D::increase_block_time,
                    (store, increment.value()),
                    new_block_time,
                )
                &&& result matches Ok(text)
                &&& text@ == decimal(new_block_time as nat)
            },
{
    let new_block_time = data.increase_block_time(increment.value());
    Ok(u64_to_decimal(new_block_time))
}

/// Mines one block, at `timestamp` if there is one. The mined block has to be
/// logged before the handler may answer, and logging is not available: where
/// the chain state mined the block the handler fails with that, and where
/// mining failed it fails with the chain state's error.
pub fn handle_mine_request<D: ChainState>(data: &mut D, timestamp: Option<U64OrUsize>) -> (result:
    Result<String, ProviderError>)
    ensures
        exists|store: &mut D, mined: Result<D::MineBlockResult, ProviderError>|
            {
                &&& *store == *old(data)
                &&& *final(store) == *final(data)
                &&& #[trigger] call_ensures(
                    D::mine_and_commit_block,
                    (store, timestamp_seconds(timestamp)),
                    mined,
                )
                &&& match mined {
                    Ok(_) => reported(result) == Some(Violation::Unimplemented("log_block"@)),
                    Err(error) => result == Err::<String, ProviderError>(error),
                }
            },
{
    let timestamp: Option<u64> = match timestamp {
        Some(timestamp) => Some(timestamp.value()),
        None => None,
    };
    let mine_block_result = match data.mine_and_commit_block(timestamp) {
        Ok(mine_block_result) => mine_block_result,
        Err(error) => {
            return Err(error);
        },
    };
    mine_response(log_block(&mine_block_result))
}

/// The answer to a mine request whose block was mined, once the block has
/// been handed to the log: the literal `"0"` where it was logged, and the
/// error of the log where it was not.
pub fn mine_response(logged: Result<(), ProviderError>) -> (result: Result<String, ProviderError>)
    ensures
        match logged {
            Ok(_) => result matches Ok(text) && text@ == "0"@,
            Err(error) => result == Err::<String, ProviderError>(error),
        },
{
    match logged {
        Ok(()) => Ok(String::from_str("0")),
        Err(error) => Err(error),
    }
}

/// Switches automatic mining on or off, and answers `true`.
pub fn handle_set_automine_request<D: ChainState>(data: &mut D, automine: bool) -> (result: Result<
    bool,
    ProviderError,
>)
    ensures
        exists|store: &mut D|
            {
                &&& *store == *old(data)
                &&& *final(store) == *final(data)
                &&& #[trigger] call_ensures(D::set_auto_mining, (store, automine), ())
            },
        result == Ok::<bool, ProviderError>(true),
{
    data.set_auto_mining(automine);
    Ok(true)
}

/// Sets the gas limit of the coming blocks. Answers `true` where the chain
/// state accepted the limit, and fails with the chain state's error where it
/// did not.
pub fn handle_set_block_gas_limit_request<D: ChainState>(data: &mut D, gas_limit: u64) -> (result:
    Result<bool, ProviderError>)
    ensures
        exists|store: &mut D, outcome: Result<(), ProviderError>|
            {
                &&& *store == *old(data)
                &&& *final(store) == *final(data)
                &&& #[trigger] call_ensures(D::set_block_gas_limit, (store, gas_limit), outcome)
                &&& match outcome {
                    Ok(_) => result == Ok::<bool, ProviderError>(true),
                    Err(error) => result == Err::<bool, ProviderError>(error),
                }
            },
{
    match data.set_block_gas_limit(gas_limit) {
        Ok(()) => Ok(true),
        Err(error) => Err(error),
    }
}

/// Sets the timestamp of the next block. Answers with the new timestamp as a
/// decimal numeral where the chain state accepted it, and fails with the
/// chain state's error where it did not.
pub fn handle_set_next_block_timestamp_request<D: ChainState>(
    data: &mut D,
    timestamp: U64OrUsize,
) -> (result: Result<String, ProviderError>)
    ensures
        exists|store: &mut D, outcome: Result<u64, ProviderError>|
            {
                &&& *store == *old(data)
                &&& *final(store) == *final(data)
                &&& #[trigger] call_ensures(
                    D::set_next_block_timestamp,
                    (store, timestamp.value()),
                    outcome,
                )
                &&& match outcome {
                    Ok(new_timestamp) => result matches Ok(text) && text@ == decimal(
                        new_timestamp as nat,
                    ),
                    Err(error) => result == Err::<String, ProviderError>(error),
                }
            },
{
    match data.set_next_block_timestamp(timestamp.value()) {
        Ok(new_timestamp) => Ok(u64_to_decimal(new_timestamp)),
        Err(error) => Err(error),
    }
}

/// Logs a mined block. Logging is not available yet: the function fails, and
/// says so, for every block.
fn log_block<B>(_mine_block_result: &B) -> (result: Result<(), ProviderError>)
    ensures
        reported(result) == Some(Violation::Unimplemented("log_block"@)),
{
    Err(ProviderError::Unimplemented(String::from_str("log_block")))
}

} // verus!
