//! The slot that holds the live engine's host once it is installed.

use crate::error::Error;
use vstd::prelude::*;

verus! {

/// Installs the host. The first one stays: a second call is ignored.
pub fn set_global_host<H>(slot: &mut Option<H>, host: H)
    ensures
        *final(slot) == Some(
            match *old(slot) {
                Some(first) => first,
                None => host,
            },
        ),
{
    if slot.is_none() {
        *slot = Some(host);
    }
}

/// The installed host, or a failure where none was installed.
pub fn host<H>(slot: &Option<H>) -> (installed: Result<&H, Error>)
    ensures
        match *slot {
            Some(h) => installed matches Ok(found) && *found == h,
            None => installed matches Err(error) && error@ == "recipes host not initialized"@,
        },
{
    match slot {
        Some(h) => Ok(h),
        None => Err(Error::new("recipes host not initialized")),
    }
}

} // verus!
