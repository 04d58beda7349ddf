use vstd::prelude::*;

verus! {

/// The reflected CRC-32 polynomial (CRC-32/ISO-HDLC, as used by zlib and PNG).
pub const CRC32_POLY: u32 = 0xedb8_8320;

/// One bit step of the reflected CRC-32 register.
pub open spec fn crc_bit_step(crc: u32) -> u32 {
    if crc & 1 == 1 {
        (crc >> 1u32) ^ CRC32_POLY
    } else {
        crc >> 1u32
    }
}

/// `n` bit steps of the register.
pub open spec fn crc_bit_steps(crc: u32, n: nat) -> u32
    decreases n,
{
    if n == 0 {
        crc
    } else {
        crc_bit_steps(crc_bit_step(crc), (n - 1) as nat)
    }
}

/// The register after absorbing one byte.
pub open spec fn crc_byte_step(crc: u32, byte: u8) -> u32 {
    crc_bit_steps(crc ^ (byte as u32), 8)
}

/// The register after absorbing every byte of `bytes`, starting from `init`.
pub open spec fn crc_register(init: u32, bytes: Seq<u8>) -> u32
    decreases bytes.len(),
{
    if bytes.len() == 0 {
        init
    } else {
        crc_byte_step(crc_register(init, bytes.drop_last()), bytes.last())
    }
}

/// CRC-32 (reflected, initial value and final xor `0xffffffff`).
pub open spec fn spec_crc32(bytes: Seq<u8>) -> u32 {
    !crc_register(0xffff_ffffu32, bytes)
}

fn bit_step(crc: u32) -> (r: u32)
    ensures
        r == crc_bit_step(crc),
{
    let mask = 0u32.wrapping_sub(crc & 1);
    let r = (crc >> 1) ^ (CRC32_POLY & mask);
    assert(r == crc_bit_step(crc)) by (bit_vector)
        requires
            mask == 0u32.wrapping_sub(crc & 1),
            r == (crc >> 1) ^ (0xedb8_8320u32 & mask),
    ;
    r
}

/// CRC-32 of `bytes`, as stored in the payload header.
pub fn crc32(bytes: &[u8]) -> (r: u32)
    ensures
        r == spec_crc32(bytes@),
{
    let mut crc: u32 = 0xffff_ffff;
    let mut i: usize = 0;
    while i < bytes.len()
        invariant
            i <= bytes.len(),
            crc == crc_register(0xffff_ffffu32, bytes@.take(i as int)),
        decreases bytes.len() - i,
    {
        let byte = bytes[i];
        let ghost start = crc ^ (byte as u32);
        crc = crc ^ (byte as u32);
        let mut k: u32 = 0;
        while k < 8
            invariant
                k <= 8,
                crc_bit_steps(start, 8) == crc_bit_steps(crc, (8 - k) as nat),
            decreases 8 - k,
        {
            crc = bit_step(crc);
            k = k + 1;
        }
        assert(bytes@.take(i + 1).drop_last() =~= bytes@.take(i as int));
        i = i + 1;
    }
    assert(bytes@.take(bytes.len() as int) =~= bytes@);
    !crc
}

} // verus!
