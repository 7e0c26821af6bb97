//! Authenticated requests to the kernel driver: IOCTL codes as the driver
//! header defines them, and the protect-process request, whose process id
//! and fresh nonce are signed with HMAC-SHA256 under a key shared with the
//! driver. Opening the device and issuing the IOCTLs stay outside this
//! library.

use crate::primitives::{hmac_sha256, hmac_sha256_tag, random_nonce16};
use crate::wire::{append_bytes, u32_le, u32_to_le_bytes};
use vstd::prelude::*;

verus! {

/// The Windows `CTL_CODE` macro.
pub open spec fn ctl_code_spec(device_type: u32, function: u32, method: u32, access: u32) -> u32 {
    (device_type << 16u32) | (access << 14u32) | (function << 2u32) | method
}

/// `CTL_CODE(0x8000, 0x800, METHOD_BUFFERED, FILE_ANY_ACCESS)`.
pub const IOCTL_PROTECT_PROCESS: u32 = 0x80002000;

/// `CTL_CODE(0x8000, 0x801, METHOD_BUFFERED, FILE_ANY_ACCESS)`.
pub const IOCTL_QUERY_INTEGRITY: u32 = 0x80002004;

/// Size in bytes of the protect-process request: the process id, the
/// 16-byte nonce and the 32-byte tag, laid out as the driver's C struct.
pub const PROTECT_REQUEST_LEN: usize = 52;

/// Builds an IOCTL code the way the Windows `CTL_CODE` macro does.
pub fn ctl_code(device_type: u32, function: u32, method: u32, access: u32) -> (r: u32)
    ensures
        r == ctl_code_spec(device_type, function, method, access),
{
    (device_type << 16u32) | (access << 14u32) | (function << 2u32) | method
}

/// The IOCTL codes are the ones the driver header derives with `CTL_CODE`.
pub proof fn lemma_ioctl_codes()
    ensures
        IOCTL_PROTECT_PROCESS == ctl_code_spec(0x8000, 0x800, 0, 0),
        IOCTL_QUERY_INTEGRITY == ctl_code_spec(0x8000, 0x801, 0, 0),
{
    assert(0x80002000u32 == ((0x8000u32 << 16u32) | (0u32 << 14u32) | (0x800u32 << 2u32) | 0u32))
        by (bit_vector);
    assert(0x80002004u32 == ((0x8000u32 << 16u32) | (0u32 << 14u32) | (0x801u32 << 2u32) | 0u32))
        by (bit_vector);
}

/// The bytes the tag covers: the process id (little-endian) then the nonce.
pub open spec fn protect_mac_input(pid: u32, nonce: Seq<u8>) -> Seq<u8> {
    u32_le(pid) + nonce
}

/// A protect-process request.
#[derive(Debug, Clone, Copy, PartialEq, Eq)]
pub struct ProtectProcessRequest {
    pub pid: u32,
    pub nonce: [u8; 16],
    pub hmac: [u8; 32],
}

/// The request as the driver reads it: process id (little-endian), nonce,
/// tag.
pub open spec fn protect_request_bytes(req: ProtectProcessRequest) -> Seq<u8> {
    u32_le(req.pid) + req.nonce@ + req.hmac@
}

impl ProtectProcessRequest {
    /// The request's bytes in the layout of the driver's C struct on a
    /// little-endian machine.
    pub fn to_bytes(&self) -> (r: Vec<u8>)
        ensures
            r@ == protect_request_bytes(*self),
            r@.len() == PROTECT_REQUEST_LEN,
    {
        let mut out: Vec<u8> = Vec::new();
        let pid = u32_to_le_bytes(self.pid);
        append_bytes(&mut out, &pid);
        append_bytes(&mut out, &self.nonce);
        append_bytes(&mut out, &self.hmac);
        out
    }
}

/// The signing side of the driver bridge.
pub struct DriverComm {
    hmac_key: [u8; 32],
}

impl View for DriverComm {
    type V = Seq<u8>;

    /// The key shared with the driver.
    closed spec fn view(&self) -> Seq<u8> {
        self.hmac_key@
    }
}

/// A 32-bit answer from the driver means yes when it is 1.
pub fn driver_flag_set(value: u32) -> (r: bool)
    ensures
        r == (value == 1),
{
    value == 1
}

impl DriverComm {
    /// A bridge that signs with `hmac_key`, a key shared with the driver
    /// over a separate secure channel.
    pub fn new(hmac_key: [u8; 32]) -> (r: Self)
        ensures
            r@ == hmac_key@,
    {
        DriverComm { hmac_key }
    }

    /// Signs a protect-process request for `pid` with the given nonce.
    pub fn sign_protect_request(&self, pid: u32, nonce: [u8; 16]) -> (r: ProtectProcessRequest)
        ensures
            r.pid == pid,
            r.nonce == nonce,
            r.hmac@ == hmac_sha256(self@, protect_mac_input(pid, nonce@)),
    {
        let mut data: Vec<u8> = Vec::new();
        let pid_bytes = u32_to_le_bytes(pid);
        append_bytes(&mut data, &pid_bytes);
        append_bytes(&mut data, &nonce);
        let hmac = hmac_sha256_tag(&self.hmac_key, data.as_slice());
        ProtectProcessRequest { pid, nonce, hmac }
    }

    /// Builds the request that asks the driver to protect `pid`: a fresh
    /// random nonce, signed together with the process id.
    pub fn protect_process_request(&self, pid: u32) -> (r: ProtectProcessRequest)
        ensures
            r.pid == pid,
            r.hmac@ == hmac_sha256(self@, protect_mac_input(pid, r.nonce@)),
    {
        let nonce = random_nonce16();
        self.sign_protect_request(pid, nonce)
    }
}

} // verus!
