use std::sync::atomic::{AtomicU32, Ordering};
use vstd::prelude::*;

use crate::error::ErrorKind;
use crate::user_buffer::{written, UserBuffer, VALUE_SIZE};

verus! {

/// The one control request code that the device answers: a read of a 4-byte
/// value, as the host ABI encodes it for type `'|'` and number `0x81`.
pub const RESPOND: u32 = 0x8004_7c81;

/// One open handle on the device, holding its own counter.
///
/// Any number of callers may share one instance and issue requests on it at
/// once: the counter is a single atomic word, advanced by fetch-and-add, so
/// every request takes a value of its own and none is lost. A counter at
/// `u32::MAX` wraps to 0. Since another caller may advance the counter at
/// any moment, the contracts below fix what is done with the value a request
/// takes, not which value that is.
pub struct DeviceInstance {
    counter: AtomicU32,
}

impl DeviceInstance {
    /// A new instance whose counter starts at 0.
    pub fn open() -> (r: DeviceInstance) {
        DeviceInstance { counter: AtomicU32::new(0) }
    }

    /// Answers one control request.
    ///
    /// An unrecognised code fails with `UnsupportedRequest` and touches
    /// neither the counter nor `out`. Otherwise the counter is advanced
    /// first, unconditionally, and its previous value is copied to `out`:
    /// a region shorter than four bytes fails with `BufferTooSmall`, keeps
    /// its bytes, and the value taken is consumed.
    pub fn handle_request(&self, request_code: u32, out: &mut UserBuffer) -> (r: Result<
        (),
        ErrorKind,
    >)
        ensures
            request_code != RESPOND ==> r == Err::<(), ErrorKind>(ErrorKind::UnsupportedRequest)
                && final(out)@ == old(out)@,
            request_code == RESPOND && old(out)@.len() < VALUE_SIZE ==> r == Err::<(), ErrorKind>(
                ErrorKind::BufferTooSmall,
            ) && final(out)@ == old(out)@,
            request_code == RESPOND && old(out)@.len() >= VALUE_SIZE ==> r is Ok && exists|n: u32|
                final(out)@ == #[trigger] written(old(out)@, n),
    {
        if request_code != RESPOND {
            return Err(ErrorKind::UnsupportedRequest);
        }
        match self.respond(out) {
            Ok(_) => Ok(()),
            Err(e) => Err(e),
        }
    }

    /// Advances the counter and copies the value it held to `out`; on
    /// success, returns that value.
    pub fn respond(&self, out: &mut UserBuffer) -> (r: Result<u32, ErrorKind>)
        ensures
            old(out)@.len() < VALUE_SIZE ==> r == Err::<u32, ErrorKind>(ErrorKind::BufferTooSmall)
                && final(out)@ == old(out)@,
            old(out)@.len() >= VALUE_SIZE ==> r is Ok && final(out)@ == written(
                old(out)@,
                r->Ok_0,
            ),
    {
        let n = self.counter.fetch_add(1, Ordering::Relaxed);
        match out.write_value(n) {
            Ok(()) => Ok(n),
            Err(e) => Err(e),
        }
    }

    /// Releases the instance; its counter goes with it.
    pub fn close(self) {
    }
}

} // verus!
