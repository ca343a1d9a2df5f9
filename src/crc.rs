use vstd::prelude::*;

verus! {

/// Generator polynomial of the sensor's CRC-8 (x^8 + x^5 + x^4 + 1).
pub const CRC8_POLYNOMIAL: u8 = 0x31;

/// One bit of the CRC register update: shift left, folding in the
/// polynomial when the top bit falls out.
pub open spec fn crc_step(crc: u8) -> u8 {
    if crc & 0x80 > 0 {
        ((crc << 1u8) ^ CRC8_POLYNOMIAL) as u8
    } else {
        (crc << 1u8) as u8
    }
}

/// `n` bit steps applied to the register.
pub open spec fn crc_shift(crc: u8, n: nat) -> u8
    decreases n,
{
    if n == 0 {
        crc
    } else {
        crc_step(crc_shift(crc, (n - 1) as nat))
    }
}

/// The register after feeding one byte, most significant bit first.
pub open spec fn crc_byte(crc: u8, byte: u8) -> u8 {
    crc_shift(crc ^ byte, 8)
}

/// CRC-8 of `data`: polynomial 0x31, initial value 0xFF, no reflection and
/// no final XOR.
pub open spec fn crc8_spec(data: Seq<u8>) -> u8
    decreases data.len(),
{
    if data.len() == 0 {
        0xFF
    } else {
        crc_byte(crc8_spec(data.drop_last()), data.last())
    }
}

/// Computes the CRC-8 of `data` bit by bit.
pub fn crc8(data: &[u8]) -> (r: u8)
    ensures
        r == crc8_spec(data@),
{
    let mut crc: u8 = 0xFF;
    let mut i: usize = 0;
    while i < data.len()
        invariant
            i <= data@.len(),
            crc == crc8_spec(data@.subrange(0, i as int)),
        decreases data@.len() - i,
    {
        let start: u8 = crc ^ data[i];
        crc = start;
        let mut bit: u8 = 0;
        while bit < 8
            invariant
                bit <= 8,
                crc == crc_shift(start, bit as nat),
            decreases 8 - bit,
        {
            if (crc & 0x80) > 0 {
                crc = (crc << 1u8) ^ CRC8_POLYNOMIAL;
            } else {
                crc = crc << 1u8;
            }
            bit = bit + 1;
        }
        proof {
            let prefix = data@.subrange(0, i + 1);
            assert(prefix.drop_last() =~= data@.subrange(0, i as int));
        }
        i = i + 1;
    }
    proof {
        assert(data@.subrange(0, i as int) =~= data@);
    }
    crc
}

/// A byte sequence followed by a check byte has CRC-8 zero exactly when the
/// check byte is the CRC-8 of the sequence: a correct group always passes,
/// and a group with any other check byte fails.
pub proof fn lemma_checksum_check(data: Seq<u8>, check: u8)
    ensures
        crc8_spec(data.push(check)) == 0 <==> check == crc8_spec(data),
{
    let c = crc8_spec(data);
    assert(data.push(check).drop_last() =~= data);
    lemma_zero_register_stays_zero(8);
    lemma_shift_zero_only_from_zero(c ^ check, 8);
    assert(c ^ check == 0 <==> check == c) by (bit_vector);
}

/// A zero register stays zero under any number of bit steps.
proof fn lemma_zero_register_stays_zero(n: nat)
    ensures
        crc_shift(0, n) == 0,
    decreases n,
{
    if n > 0 {
        lemma_zero_register_stays_zero((n - 1) as nat);
        let z: u8 = 0;
        assert(z & 0x80 == 0 && ((z << 1u8) as u8) == 0) by (bit_vector)
            requires
                z == 0,
        ;
    }
}

/// Only a zero register reaches zero: the bit step loses no information.
proof fn lemma_shift_zero_only_from_zero(crc: u8, n: nat)
    ensures
        crc_shift(crc, n) == 0 ==> crc == 0,
    decreases n,
{
    if n > 0 {
        lemma_shift_zero_only_from_zero(crc, (n - 1) as nat);
        let v = crc_shift(crc, (n - 1) as nat);
        assert(crc_step(v) == 0 ==> v == 0) by {
            assert((v & 0x80 > 0 ==> ((v << 1u8) ^ 0x31u8) as u8 != 0) && (v & 0x80 == 0
                && ((v << 1u8) as u8) == 0 ==> v == 0)) by (bit_vector);
        }
    }
}

} // verus!
