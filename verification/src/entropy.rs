//! Access to the operating system's entropy source.

use rand::rngs::OsRng;
use rand::RngCore;
use vstd::prelude::*;

verus! {

/// Trusted: `rand::rngs::OsRng` through `RngCore::try_fill_bytes`.
///
/// Returns `N` bytes drawn from the operating system's generator, or `None`
/// where the generator reports an error. Nothing is claimed of the bytes:
/// two calls may return anything.
#[verifier::external_body]
pub(crate) fn os_random<const N: usize>() -> (res: Option<[u8; N]>) {
    let mut buf = [0u8; N];
    match OsRng.try_fill_bytes(&mut buf) {
        Ok(()) => Some(buf),
        Err(_) => None,
    }
}

} // verus!
