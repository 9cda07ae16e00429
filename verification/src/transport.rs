//! Trusted boundary to the Modbus TCP transport, and the verified
//! interpretation of what a read hands back.
//!
//! The wire protocol itself (framing, transaction ids, the socket) is the
//! modbus crate's business; this module only states, per call, what that
//! crate's source shows about the values that cross the boundary.

use crate::errors::DeviceError;
use vstd::prelude::*;

verus! {

/// Declares the modbus crate's connected TCP transport handle; opaque here.
#[verifier::external_type_specification]
#[verifier::external_body]
pub struct ExTransport(modbus::tcp::Transport);

/// Declares the modbus crate's error type; opaque here, carried through
/// unchanged inside [`DeviceError::Transport`].
#[verifier::external_type_specification]
#[verifier::external_body]
pub struct ExModbusError(modbus::Error);

/// Declares the standard I/O error a failed connect comes back with; opaque
/// here, mapped to `ConfigError::ConnectFailed` by verified code.
#[verifier::external_type_specification]
#[verifier::external_body]
pub struct ExIoError(std::io::Error);

/// Relies on modbus::tcp::Transport::new_with_cfg: opens a TCP connection to
/// `address` on the default Modbus port, giving up after `timeout_ms`
/// milliseconds. Whether it succeeds depends on the network, so nothing is
/// promised of the outcome.
#[verifier::external_body]
pub(crate) fn connect_coupler(address: &str, timeout_ms: u64) -> Result<
    modbus::tcp::Transport,
    std::io::Error,
> {
    let mut cfg = modbus::tcp::Config::default();
    cfg.tcp_connect_timeout = Some(std::time::Duration::from_millis(timeout_ms));
    modbus::tcp::Transport::new_with_cfg(address, cfg)
}

/// Relies on modbus::Client::read_discrete_inputs for tcp::Transport: reads
/// `count` discrete inputs starting at address `addr`. Its source unpacks the
/// reply into exactly `count` coils, in address order (`binary::unpack_bits`
/// pushes one coil per requested bit), so a successful reply here holds
/// exactly `count` values; `Coil::On` becomes `true`, `Coil::Off` becomes
/// `false`. The values themselves depend on the device, so nothing is
/// promised of them.
#[verifier::external_body]
pub(crate) fn read_discrete_inputs(client: &mut modbus::tcp::Transport, addr: u16, count: u16) -> (r:
    Result<Vec<bool>, modbus::Error>)
    ensures
        r matches Ok(bits) ==> bits@.len() == count as nat,
{
    match modbus::Client::read_discrete_inputs(client, addr, count) {
        Ok(coils) => Ok(
            coils.iter().map(
                |c| match c {
                    modbus::Coil::On => true,
                    modbus::Coil::Off => false,
                },
            ).collect(),
        ),
        Err(e) => Err(e),
    }
}

/// The status a reply's bit sequence stands for: the last bit, or `false`
/// when the reply is empty.
pub open spec fn spec_bits_value(bits: Seq<bool>) -> bool {
    bits.len() > 0 && bits.last()
}

/// Folds a reply's bits into one status value: each bit in turn overwrites
/// the result, so the last bit wins; an empty reply reads as `false`.
pub fn bits_value(bits: &Vec<bool>) -> (r: bool)
    ensures
        r == spec_bits_value(bits@),
{
    let mut retval: bool = false;
    let n = bits.len();
    for i in 0..n
        invariant
            n == bits@.len(),
            retval == (i > 0 && bits@[i - 1]),
    {
        retval = bits[i];
    }
    retval
}

/// Reads the single discrete input at `addr` and reports its on/off state,
/// without touching any cached status. A transport fault is returned as
/// [`DeviceError::Transport`]; this function itself never fails.
pub fn get_signal_status(client: &mut modbus::tcp::Transport, addr: u16) -> (r: Result<
    bool,
    DeviceError,
>)
    ensures
        r matches Err(e) ==> e is Transport,
{
    match read_discrete_inputs(client, addr, 1) {
        Ok(bits) => Ok(bits_value(&bits)),
        Err(e) => Err(DeviceError::Transport(e)),
    }
}

} // verus!
