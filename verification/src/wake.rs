//! The wake signal: the magic packet for a hardware address.
//!
//! The address is text such as `01:02:03:04:05:06`. This module checks its
//! outline and has the `wakey` crate read the hexadecimal bytes and lay out
//! the packet; broadcasting the packet is the caller's part.

use vstd::prelude::*;
use vstd::string::StringSliceAdditionalSpecFns;

verus! {

/// The character between the bytes of a hardware address.
pub const SEPARATOR: char = ':';

/// The length of a hardware address in text: six bytes of two digits each
/// and five separators.
pub const ADDRESS_LEN: usize = 17;

/// The separators in a hardware address.
pub const SEPARATORS: usize = 5;

/// The length of a magic packet: six bytes of `0xFF` and the hardware
/// address sixteen times.
pub const PACKET_LEN: usize = 102;

/// Why a hardware address gives no packet.
#[derive(Debug, Clone, Copy, PartialEq, Eq, Structural)]
pub enum WakeFault {
    /// The text has not the length of a hardware address.
    InvalidLength,
    /// The text is not six hexadecimal bytes with separators between them.
    InvalidFormat,
}

/// The packet that `wakey::WolPacket::from_string` makes of an address and
/// a separator, or `None` where it returns an error.
pub uninterp spec fn wol_packet(address: Seq<char>, separator: char) -> Option<Seq<u8>>;

/// The separators among the first `n` bytes.
pub open spec fn separators_in(bytes: Seq<u8>, n: int) -> nat
    decreases n,
{
    if n <= 0 || n > bytes.len() {
        0
    } else {
        separators_in(bytes, n - 1) + if bytes[n - 1] == 0x3A {
            1nat
        } else {
            0nat
        }
    }
}

/// The outline of a hardware address: the right length, and five
/// separators, so that six parts stand between them.
pub open spec fn outline_fault(bytes: Seq<u8>) -> Option<WakeFault> {
    if bytes.len() != ADDRESS_LEN {
        Some(WakeFault::InvalidLength)
    } else if separators_in(bytes, bytes.len() as int) != SEPARATORS {
        Some(WakeFault::InvalidFormat)
    } else {
        None
    }
}

/// The layout of a magic packet: `PACKET_LEN` bytes, the first six `0xFF`,
/// then six bytes of address, which every later byte repeats at a distance
/// of six.
pub open spec fn is_magic_packet(packet: Seq<u8>) -> bool {
    &&& packet.len() == PACKET_LEN
    &&& forall|i: int| 0 <= i < 6 ==> #[trigger] packet[i] == 0xFF
    &&& forall|i: int| 12 <= i < PACKET_LEN ==> #[trigger] packet[i] == packet[i - 6]
}

/// The packet for an address, or the reason why there is none: a fault of
/// the outline first, else what `wakey` makes of the text.
pub open spec fn packet_for(address: &str) -> Result<Seq<u8>, WakeFault> {
    match outline_fault(address.spec_bytes()) {
        Some(fault) => Err(fault),
        None => match wol_packet(address@, SEPARATOR) {
            Some(packet) => Ok(packet),
            None => Err(WakeFault::InvalidFormat),
        },
    }
}

/// Calls `wakey::WolPacket::from_string` and hands out the packet's bytes.
///
/// Believed of it: the result is `wol_packet` of the arguments, and a packet
/// that comes back has the layout of `is_magic_packet`. It is called only on
/// text of the right length with five separators: on other text of that
/// length `wakey` may overrun its fixed buffers and panic.
#[verifier::external_body]
fn wol_from_string(address: &str, separator: char) -> (packet: Option<Vec<u8>>)
    requires
        separator == SEPARATOR,
        outline_fault(address.spec_bytes()) is None,
    ensures
        packet is Some <==> wol_packet(address@, separator) is Some,
        packet matches Some(p) ==> wol_packet(address@, separator) == Some(p@) && is_magic_packet(
            p@,
        ),
{
    match wakey::WolPacket::from_string(address, separator) {
        Ok(packet) => Some(packet.into_inner().to_vec()),
        Err(_) => None,
    }
}

/// Checks the outline of a hardware address: its length and the number of
/// its separators.
pub fn check_outline(address: &str) -> (res: Result<(), WakeFault>)
    ensures
        res == (match outline_fault(address.spec_bytes()) {
            Some(fault) => Err::<(), WakeFault>(fault),
            None => Ok::<(), WakeFault>(()),
        }),
{
    let bytes = address.as_bytes();
    let n = bytes.len();
    if n != ADDRESS_LEN {
        return Err(WakeFault::InvalidLength);
    }
    let mut count: usize = 0;
    let mut i: usize = 0;
    while i < n
        invariant
            n == bytes@.len(),
            i <= n,
            count == separators_in(bytes@, i as int),
            count <= i,
        decreases n - i,
    {
        if bytes[i] == 0x3A {
            count = count + 1;
        }
        i = i + 1;
    }
    if count != SEPARATORS {
        return Err(WakeFault::InvalidFormat);
    }
    Ok(())
}

/// Makes the magic packet for a hardware address.
///
/// Succeeds exactly where the outline is right and `wakey` reads six bytes
/// from the text; the packet then has the layout of `is_magic_packet`.
pub fn magic_packet(address: &str) -> (res: Result<Vec<u8>, WakeFault>)
    ensures
        match res {
            Ok(packet) => packet_for(address) == Ok::<Seq<u8>, WakeFault>(packet@)
                && is_magic_packet(packet@),
            Err(fault) => packet_for(address) == Err::<Seq<u8>, WakeFault>(fault),
        },
{
    match check_outline(address) {
        Err(fault) => Err(fault),
        Ok(()) => match wol_from_string(address, SEPARATOR) {
            Some(packet) => Ok(packet),
            None => Err(WakeFault::InvalidFormat),
        },
    }
}

} // verus!
