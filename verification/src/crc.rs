use crc::{Crc, CRC_8_NRSC_5};
use vstd::prelude::*;

use crate::error::Error;

verus! {

/// One bit step of the CRC-8 shift register with polynomial 0x31: shift
/// left, and add the polynomial when the bit shifted out was set.
pub open spec fn crc8_shift(c: u8) -> u8 {
    if c & 0x80 != 0 {
        ((c << 1u8) ^ 0x31u8) as u8
    } else {
        (c << 1u8) as u8
    }
}

/// The register after `n` bit steps.
pub open spec fn crc8_shifts(c: u8, n: nat) -> u8
    decreases n,
{
    if n == 0 {
        c
    } else {
        crc8_shift(crc8_shifts(c, (n - 1) as nat))
    }
}

/// The CRC-8/NRSC-5 checksum of `data` (width 8, polynomial 0x31, initial
/// value 0xff, no reflection, no final xor): the checksum that the sensor
/// appends to every 16-bit word it sends.
pub open spec fn crc8_nrsc5(data: Seq<u8>) -> u8
    decreases data.len(),
{
    if data.len() == 0 {
        0xff
    } else {
        crc8_shifts(crc8_nrsc5(data.drop_last()) ^ data.last(), 8)
    }
}

/// Computes the CRC-8/NRSC-5 checksum of a 16-bit word through
/// `crc::Crc::<u8>::digest`, `Digest::update` and `Digest::finalize`.
///
/// Trusted: the result is claimed to be `crc8_nrsc5` of the two bytes, the
/// bitwise definition of the catalogue's CRC-8/NRSC-5 algorithm, which the
/// `crc` crate computes through a lookup table.
#[verifier::external_body]
pub(crate) fn calc_crc(data: &[u8; 2]) -> (crc: u8)
    ensures
        crc == crc8_nrsc5(data@),
{
    let crc = Crc::<u8>::new(&CRC_8_NRSC_5);
    let mut digest = crc.digest();
    digest.update(data);
    digest.finalize()
}

/// Compares a computed checksum with the one the sensor sent.
pub fn crc_verdict<E>(computed_crc: u8, expected_crc: u8) -> (res: Result<(), Error<E>>)
    ensures
        computed_crc == expected_crc ==> res is Ok,
        computed_crc != expected_crc ==> res matches Err(Error::BadCrc),
{
    if computed_crc != expected_crc {
        Err(Error::BadCrc)
    } else {
        Ok(())
    }
}

/// Checks the checksum that the sensor sent after a 16-bit word.
pub fn check_crc<E>(data: &[u8; 2], expected_crc: u8) -> (res: Result<(), Error<E>>)
    ensures
        crc8_nrsc5(data@) == expected_crc ==> res is Ok,
        crc8_nrsc5(data@) != expected_crc ==> res matches Err(Error::BadCrc),
{
    crc_verdict(calc_crc(data), expected_crc)
}

} // verus!
