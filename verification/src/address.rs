//! The Bluetooth address of the keyboard.

use vstd::prelude::*;

verus! {

/// The two top bits of an address; a random static address has both set.
pub const STATIC_ADDRESS_BITS: u64 = 0x0000_c000_0000_0000;

/// The random static address made from the chip's two device id words, lowest
/// byte first: the four bytes of word 0, then the two low bytes of word 1, with
/// the two top bits set.
pub open spec fn static_address(device_id_0: u32, device_id_1: u32) -> Seq<u8> {
    seq![
        (device_id_0 % 0x100) as u8,
        (device_id_0 / 0x100 % 0x100) as u8,
        (device_id_0 / 0x1_0000 % 0x100) as u8,
        (device_id_0 / 0x100_0000 % 0x100) as u8,
        (device_id_1 % 0x100) as u8,
        (0xc0 + device_id_1 / 0x100 % 0x40) as u8,
    ]
}

/// The address under which the keyboard is found, lowest byte first.
pub fn ble_addr(device_id_0: u32, device_id_1: u32) -> (addr: [u8; 6])
    ensures
        addr@ == static_address(device_id_0, device_id_1),
{
    let high = device_id_1 as u64;
    let bits = high << 32u64 | device_id_0 as u64;
    let bits = bits | STATIC_ADDRESS_BITS;
    let addr = [
        (bits & 0xff) as u8,
        (bits >> 8u64 & 0xff) as u8,
        (bits >> 16u64 & 0xff) as u8,
        (bits >> 24u64 & 0xff) as u8,
        (bits >> 32u64 & 0xff) as u8,
        (bits >> 40u64 & 0xff) as u8,
    ];
    proof {
        lemma_bits_of_address(device_id_0, device_id_1, bits);
        assert(addr@ =~= static_address(device_id_0, device_id_1));
    }
    addr
}

/// Each byte of the address, found in its bits.
proof fn lemma_bits_of_address(device_id_0: u32, device_id_1: u32, bits: u64)
    requires
        bits == (((device_id_1 as u64) << 32u64) | device_id_0 as u64) | 0x0000_c000_0000_0000u64,
    ensures
        bits & 0xff == device_id_0 % 0x100,
        bits >> 8u64 & 0xff == device_id_0 / 0x100 % 0x100,
        bits >> 16u64 & 0xff == device_id_0 / 0x1_0000 % 0x100,
        bits >> 24u64 & 0xff == device_id_0 / 0x100_0000 % 0x100,
        bits >> 32u64 & 0xff == device_id_1 % 0x100,
        bits >> 40u64 & 0xff == 0xc0 + device_id_1 / 0x100 % 0x40,
{
    assert(bits & 0xff == device_id_0 % 0x100 && bits >> 8u64 & 0xff == device_id_0 / 0x100 % 0x100
        && bits >> 16u64 & 0xff == device_id_0 / 0x1_0000 % 0x100 && bits >> 24u64 & 0xff
        == device_id_0 / 0x100_0000 % 0x100 && bits >> 32u64 & 0xff == device_id_1 % 0x100 && bits
        >> 40u64 & 0xff == 0xc0 + device_id_1 / 0x100 % 0x40) by (bit_vector)
        requires
            bits == (((device_id_1 as u64) << 32u64) | device_id_0 as u64)
                | 0x0000_c000_0000_0000u64,
    ;
}

/// Read as a number, lowest byte first, the address is the low 46 bits of the
/// device id, word 0 below word 1, plus the two top bits.
pub proof fn law_address_as_a_number(device_id_0: u32, device_id_1: u32)
    ensures
        ({
            let a = static_address(device_id_0, device_id_1);
            &&& a.len() == 6
            &&& a[0] + 0x100 * a[1] + 0x1_0000 * a[2] + 0x100_0000 * a[3] + 0x1_0000_0000 * a[4]
                + 0x100_0000_0000 * a[5] == device_id_0 + 0x1_0000_0000 * (device_id_1 % 0x4000)
                + 0xc000_0000_0000
        }),
{
    let (w, v) = (device_id_0, device_id_1);
    assert(w == w % 0x100 + 0x100 * (w / 0x100 % 0x100) + 0x1_0000 * (w / 0x1_0000 % 0x100)
        + 0x100_0000 * (w / 0x100_0000 % 0x100) && v % 0x4000 == v % 0x100 + 0x100 * (v / 0x100
        % 0x40) && v / 0x100 % 0x40 < 0x40) by (bit_vector);
}

/// The address is a random static one: its two top bits are set.
pub proof fn law_address_is_static(device_id_0: u32, device_id_1: u32)
    ensures
        static_address(device_id_0, device_id_1)[5] >= 0xc0,
{
}

/// Chips whose device ids differ in their low 46 bits have different addresses.
pub proof fn law_address_tells_chips_apart(a_0: u32, a_1: u32, b_0: u32, b_1: u32)
    requires
        static_address(a_0, a_1) == static_address(b_0, b_1),
    ensures
        a_0 == b_0,
        a_1 % 0x4000 == b_1 % 0x4000,
{
    law_address_as_a_number(a_0, a_1);
    law_address_as_a_number(b_0, b_1);
}

} // verus!
