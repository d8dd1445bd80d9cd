//! Packets of the MOD007B. This module only defines packets; it sends nothing.

use crate::protocol::{generic_packet, PACKET_SIZE};
use vstd::prelude::*;

verus! {

/// Packet definitions for the Akko MOD007B.
pub struct Mod007bPackets;

impl Mod007bPackets {
    /// The packet that opens communication with the keyboard: opcode 0x8F at
    /// offset 0 and its checksum 0x70 at offset 7.
    pub fn handshake() -> (packet: [u8; PACKET_SIZE])
        ensures
            packet@ == generic_packet(0x8F, 0, 0),
            packet@[0] == 143,
            packet@[7] == 112,
    {
        let mut packet = [0u8; PACKET_SIZE];
        packet[0] = 0x8F;
        packet[7] = 0x70;
        assert(packet@ =~= generic_packet(0x8F, 0, 0));
        packet
    }
}

} // verus!
