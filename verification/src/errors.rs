//! The machine's error taxonomy. Errors are values carrying the offending
//! word; they propagate through `Result`-returning operations and are never
//! thrown.

use vstd::prelude::*;

verus! {

/// A fault raised by the bus, the decoder or a device.
///
/// `AddressNotPopulated` is raised when no static region and no device
/// claims an address; `DeviceError` folds a device's own failure into the
/// machine's taxonomy. `IllegalInstruction` and `IllegalInstructionSpeed`
/// are reserved by the decoder: the current three-bit class encoding and
/// two-bit speed encoding are total, so neither is reachable. The other
/// variants are kept for forward compatibility.
#[derive(Debug)]
pub enum CpuError<T> {
    IllegalState(T),
    IllegalInstruction(T),
    IllegalInstructionSpeed(T),
    DeviceError(T),
    AddressNotPopulated(T),
    TooManyDevices(T),
}

} // verus!
