//! DVB-S2 CRC-8 as used by the CRSF protocol.
use vstd::prelude::*;

verus! {

/// One bit step of the DVB-S2 CRC register: shift left, and xor in the polynomial
/// when the bit shifted out was set.
pub open spec fn crc_bit_step(x: u8) -> u8 {
    if x & 0x80u8 != 0 {
        ((x << 1u8) ^ 0xD5u8) as u8
    } else {
        (x << 1u8) as u8
    }
}

/// `n` bit steps of the CRC register starting from `x`.
pub open spec fn crc_bit_steps(x: u8, n: nat) -> u8
    decreases n,
{
    if n == 0 {
        x
    } else {
        crc_bit_steps(crc_bit_step(x), (n - 1) as nat)
    }
}

/// The lookup-table entry for `x`: the register after eight bit steps from `x`.
pub open spec fn crc_table_entry_spec(x: u8) -> u8 {
    crc_bit_steps(x, 8)
}

/// The 256-entry lookup table.
pub open spec fn crc_table_spec() -> Seq<u8> {
    Seq::new(256, |i: int| crc_table_entry_spec(i as u8))
}

/// CRC of `data` computed bit by bit: each byte is xored into the register, followed by
/// eight bit steps. Initial value 0, no reflection, no final xor.
pub open spec fn crc_bitwise_spec(data: Seq<u8>) -> u8
    decreases data.len(),
{
    if data.len() == 0 {
        0
    } else {
        crc_bit_steps(crc_bitwise_spec(data.drop_last()) ^ data.last(), 8)
    }
}

/// CRC of `data` computed with the lookup table, one table lookup per byte.
pub open spec fn crc_table_driven_spec(data: Seq<u8>) -> u8
    decreases data.len(),
{
    if data.len() == 0 {
        0
    } else {
        crc_table_spec()[(crc_table_driven_spec(data.drop_last()) ^ data.last()) as int]
    }
}

/// DVB-S2 CRC-8.
///
/// Polynomial:      0xD5
/// Initial value:   0x00
/// Input reflected: false
/// Result reflected:false
/// `XorOut`:        0x00.
#[derive(Clone, Copy, Debug, Default, PartialEq, Eq)]
pub struct CrcDvbS2;

impl CrcDvbS2 {
    /// DVB-S2 polynomial.
    pub const POLYNOMIAL: u8 = 0xD5;

    /// Table-driven CRC of `data`.
    #[must_use]
    pub fn calculate(data: &[u8]) -> (r: u8)
        ensures
            r == crc_table_driven_spec(data@),
            r == crc_bitwise_spec(data@),
    {
        let table = Self::make_table();
        let mut crc: u8 = 0;
        let mut i: usize = 0;
        while i < data.len()
            invariant
                i <= data.len(),
                table@ == crc_table_spec(),
                crc == crc_table_driven_spec(data@.take(i as int)),
            decreases data.len() - i,
        {
            let byte = data[i];
            proof {
                assert(data@.take(i + 1).drop_last() =~= data@.take(i as int));
            }
            crc = table[(crc ^ byte) as usize];
            i += 1;
        }
        proof {
            assert(data@.take(data.len() as int) =~= data@);
            lemma_table_crc_matches_bitwise_crc(data@);
        }
        crc
    }

    /// The register after eight bit steps from `byte`.
    fn table_entry(byte: u8) -> (r: u8)
        ensures
            r == crc_table_entry_spec(byte),
    {
        let mut byte = byte;
        let ghost orig = byte;
        let mut ii: u8 = 0;
        while ii < 8
            invariant
                ii <= 8,
                crc_bit_steps(byte, (8 - ii) as nat) == crc_bit_steps(orig, 8),
            decreases 8 - ii,
        {
            let ghost before = byte;
            if byte & 0x80 != 0 {
                byte = (byte << 1) ^ Self::POLYNOMIAL;
            } else {
                byte = byte << 1;
            }
            assert(byte == crc_bit_step(before));
            ii += 1;
        }
        byte
    }

    /// Builds the 256-entry lookup table.
    fn make_table() -> (t: [u8; 256])
        ensures
            t@ == crc_table_spec(),
    {
        let mut table = [0u8; 256];
        let mut ii: usize = 0;
        while ii < 256
            invariant
                ii <= 256,
                table@.len() == 256,
                forall|j: int| 0 <= j < ii ==> table@[j] == crc_table_entry_spec(j as u8),
            decreases 256 - ii,
        {
            table[ii] = Self::table_entry(ii as u8);
            ii += 1;
        }
        assert(table@ =~= crc_table_spec());
        table
    }

    /// Bit-by-bit CRC of `data`.
    #[must_use]
    pub fn calculate_naive(data: &[u8]) -> (r: u8)
        ensures
            r == crc_bitwise_spec(data@),
    {
        let mut crc: u8 = 0;
        let mut i: usize = 0;
        while i < data.len()
            invariant
                i <= data.len(),
                crc == crc_bitwise_spec(data@.take(i as int)),
            decreases data.len() - i,
        {
            let byte = data[i];
            proof {
                assert(data@.take(i + 1).drop_last() =~= data@.take(i as int));
            }
            crc = crc ^ byte;
            let ghost start = crc;
            let mut k: u8 = 0;
            while k < 8
                invariant
                    k <= 8,
                    crc_bit_steps(crc, (8 - k) as nat) == crc_bit_steps(start, 8),
                decreases 8 - k,
            {
                let ghost before = crc;
                if (crc & 0x80) == 0 {
                    crc = crc << 1;
                } else {
                    crc = (crc << 1) ^ Self::POLYNOMIAL;
                }
                assert(crc == crc_bit_step(before));
                k += 1;
            }
            i += 1;
        }
        proof {
            assert(data@.take(data.len() as int) =~= data@);
        }
        crc
    }
}

/// The table-driven CRC equals the bit-by-bit CRC on every input.
pub proof fn lemma_table_crc_matches_bitwise_crc(data: Seq<u8>)
    ensures
        crc_table_driven_spec(data) == crc_bitwise_spec(data),
    decreases data.len(),
{
    if data.len() > 0 {
        lemma_table_crc_matches_bitwise_crc(data.drop_last());
    }
}

/// Eight bit steps from a zero register leave it zero.
proof fn lemma_crc_steps_from_zero(n: nat)
    ensures
        crc_bit_steps(0u8, n) == 0u8,
    decreases n,
{
    assert(crc_bit_step(0u8) == 0u8) by (bit_vector);
    if n > 0 {
        lemma_crc_steps_from_zero((n - 1) as nat);
    }
}

/// Appending its own CRC to a message leaves a zero CRC (remainder), on every message.
pub proof fn lemma_crc_of_message_with_its_crc_is_zero(data: Seq<u8>)
    ensures
        crc_bitwise_spec(data.push(crc_bitwise_spec(data))) == 0,
{
    let c = crc_bitwise_spec(data);
    let msg = data.push(c);
    assert(msg.drop_last() =~= data);
    assert(c ^ c == 0u8) by (bit_vector);
    lemma_crc_steps_from_zero(8);
}

/// Eight bit steps of the CRC register, written out.
spec fn crc_byte_steps(x: u8) -> u8 {
    crc_bit_step(crc_bit_step(crc_bit_step(crc_bit_step(crc_bit_step(crc_bit_step(crc_bit_step(crc_bit_step(x))))))))
}

proof fn lemma_eight_steps(x: u8)
    ensures
        crc_bit_steps(x, 8) == crc_byte_steps(x),
{
    reveal_with_fuel(crc_bit_steps, 9);
}

/// The register after each byte of the ASCII digits "123456789".
proof fn lemma_check_value_steps()
    by (bit_vector)
    ensures
        crc_byte_steps(0x00u8 ^ 0x31u8) == 0x23u8,
        crc_byte_steps(0x23u8 ^ 0x32u8) == 0x87u8,
        crc_byte_steps(0x87u8 ^ 0x33u8) == 0xE7u8,
        crc_byte_steps(0xE7u8 ^ 0x34u8) == 0x8Au8,
        crc_byte_steps(0x8Au8 ^ 0x35u8) == 0x64u8,
        crc_byte_steps(0x64u8 ^ 0x36u8) == 0xB0u8,
        crc_byte_steps(0xB0u8 ^ 0x37u8) == 0xBBu8,
        crc_byte_steps(0xBBu8 ^ 0x38u8) == 0x45u8,
        crc_byte_steps(0x45u8 ^ 0x39u8) == 0xBCu8,
{
}

/// The CRC of no bytes is 0, and the check value of CRC-8/DVB-S2 (the CRC of the ASCII
/// digits "123456789") is 0xBC.
pub proof fn lemma_crc_check_value()
    ensures
        crc_bitwise_spec(Seq::<u8>::empty()) == 0,
        crc_bitwise_spec(seq![0x31u8, 0x32, 0x33, 0x34, 0x35, 0x36, 0x37, 0x38, 0x39]) == 0xBC,
{
    let digits = seq![0x31u8, 0x32, 0x33, 0x34, 0x35, 0x36, 0x37, 0x38, 0x39];
    lemma_check_value_steps();
    assert(digits.take(0) =~= Seq::<u8>::empty());
    assert(digits.take(1).drop_last() =~= digits.take(0));
    lemma_eight_steps(crc_bitwise_spec(digits.take(0)) ^ digits.take(1).last());
    assert(crc_bitwise_spec(digits.take(1)) == 0x23u8);
    assert(digits.take(2).drop_last() =~= digits.take(1));
    lemma_eight_steps(crc_bitwise_spec(digits.take(1)) ^ digits.take(2).last());
    assert(crc_bitwise_spec(digits.take(2)) == 0x87u8);
    assert(digits.take(3).drop_last() =~= digits.take(2));
    lemma_eight_steps(crc_bitwise_spec(digits.take(2)) ^ digits.take(3).last());
    assert(crc_bitwise_spec(digits.take(3)) == 0xE7u8);
    assert(digits.take(4).drop_last() =~= digits.take(3));
    lemma_eight_steps(crc_bitwise_spec(digits.take(3)) ^ digits.take(4).last());
    assert(crc_bitwise_spec(digits.take(4)) == 0x8Au8);
    assert(digits.take(5).drop_last() =~= digits.take(4));
    lemma_eight_steps(crc_bitwise_spec(digits.take(4)) ^ digits.take(5).last());
    assert(crc_bitwise_spec(digits.take(5)) == 0x64u8);
    assert(digits.take(6).drop_last() =~= digits.take(5));
    lemma_eight_steps(crc_bitwise_spec(digits.take(5)) ^ digits.take(6).last());
    assert(crc_bitwise_spec(digits.take(6)) == 0xB0u8);
    assert(digits.take(7).drop_last() =~= digits.take(6));
    lemma_eight_steps(crc_bitwise_spec(digits.take(6)) ^ digits.take(7).last());
    assert(crc_bitwise_spec(digits.take(7)) == 0xBBu8);
    assert(digits.take(8).drop_last() =~= digits.take(7));
    lemma_eight_steps(crc_bitwise_spec(digits.take(7)) ^ digits.take(8).last());
    assert(crc_bitwise_spec(digits.take(8)) == 0x45u8);
    assert(digits.take(9).drop_last() =~= digits.take(8));
    lemma_eight_steps(crc_bitwise_spec(digits.take(8)) ^ digits.take(9).last());
    assert(crc_bitwise_spec(digits.take(9)) == 0xBCu8);
    assert(digits.take(9) =~= digits);
}
} // verus!
