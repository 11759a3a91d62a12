//! Lifecycle manager for dynamically loaded automation-framework handles.
//!
//! The crate models the instance registry — a map from instance id to a
//! record owning up to four native handles — together with the binding
//! table of resolved native entry points, the version compatibility
//! check, the event bridge payloads, and the discovery caches. Native
//! calls themselves happen outside; the registry decides what to create,
//! what to tear down, and in which order.

pub mod binding;
pub mod bridge;
pub mod controller;
pub mod discovery;
pub mod registry;
pub mod screencap;
pub mod text;
pub mod types;
pub mod version;

use vstd::prelude::*;

verus! {

/// Confirms a native creation result: the native layer signals failure by
/// returning a null handle, which this library carries as zero.
pub fn confirm_handle(handle: u64, failure: types::MaaError) -> (r: Result<u64, types::MaaError>)
    ensures
        handle != 0 ==> r == Ok::<u64, types::MaaError>(handle),
        handle == 0 ==> r == Err::<u64, types::MaaError>(failure),
{
    if handle != 0 {
        Ok(handle)
    } else {
        Err(failure)
    }
}

/// Gates a task post on the tasker's own answer: one that does not report
/// itself initialized takes no posts.
pub fn confirm_tasker_inited(inited: bool) -> (r: Result<(), types::MaaError>)
    ensures
        inited ==> r == Ok::<(), types::MaaError>(()),
        !inited ==> r == Err::<(), types::MaaError>(types::MaaError::TaskerNotInited),
{
    if inited {
        Ok(())
    } else {
        Err(types::MaaError::TaskerNotInited)
    }
}

/// Confirms a posted request id: the native layer signals a rejected post
/// by returning the invalid id, zero.
pub fn confirm_post_id(post_id: i64, failure: types::MaaError) -> (r: Result<i64, types::MaaError>)
    ensures
        post_id != types::MAA_INVALID_ID ==> r == Ok::<i64, types::MaaError>(post_id),
        post_id == types::MAA_INVALID_ID ==> r == Err::<i64, types::MaaError>(failure),
{
    if post_id != types::MAA_INVALID_ID {
        Ok(post_id)
    } else {
        Err(failure)
    }
}

} // verus!
