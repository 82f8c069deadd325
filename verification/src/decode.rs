use vstd::prelude::*;

use crate::crc::{calc_crc, crc8_nrsc5, crc_verdict};
use crate::error::Error;
use crate::status::Status;

verus! {

/// The unsigned 16-bit number whose big-endian bytes are `hi` and `lo`.
pub open spec fn be_u16(hi: u8, lo: u8) -> u16 {
    (hi as int * 256 + lo as int) as u16
}

/// Whether the checksum byte that follows the word `hi`, `lo` in a reply of
/// the sensor is the CRC-8/NRSC-5 checksum of that word.
pub open spec fn word_intact(hi: u8, lo: u8, crc: u8) -> bool {
    crc8_nrsc5(seq![hi, lo]) == crc
}

/// A big-endian word holds its high byte as the quotient by 256 and its low
/// byte as the remainder.
pub proof fn lemma_be_u16_bytes(hi: u8, lo: u8)
    ensures
        be_u16(hi, lo) / 256 == hi,
        be_u16(hi, lo) % 256 == lo,
{
    let w = hi as int * 256 + lo as int;
    assert(0 <= w < 0x10000);
    assert(w / 256 == hi as int && w % 256 == lo as int) by (nonlinear_arith)
        requires
            w == hi as int * 256 + lo as int,
            0 <= lo < 256,
            0 <= hi < 256,
    ;
}

/// Reads a big-endian 16-bit word.
pub fn get_u16_value(data: &[u8; 2]) -> (value: u16)
    ensures
        value == be_u16(data[0], data[1]),
        value / 256 == data[0],
        value % 256 == data[1],
{
    proof {
        lemma_be_u16_bytes(data[0], data[1]);
    }
    let hi = data[0];
    let lo = data[1];
    assert(((hi as u16) << 8u16 | (lo as u16)) == hi as int * 256 + lo as int) by (bit_vector);
    (hi as u16) << 8 | (lo as u16)
}

/// The raw result of a single-shot measurement, as the sensor sent it.
///
/// The temperature in °C is `-45 + 175 * temperature / 65535` and the
/// relative humidity in % is `100 * humidity / 65535`.
#[derive(Debug, Clone, Copy, PartialEq, Eq, Structural)]
pub struct RawMeasurement {
    /// The temperature word.
    pub temperature: u16,
    /// The relative humidity word.
    pub humidity: u16,
}

/// Interprets the three bytes read after the get-status command, given the
/// checksum computed over its first two bytes.
pub fn status_from_reply<E>(data: &[u8; 3], computed_crc: u8) -> (res: Result<Status, Error<E>>)
    ensures
        computed_crc == data[2] ==> (res matches Ok(status) && status@ == be_u16(data[0], data[1])),
        computed_crc != data[2] ==> res matches Err(Error::BadCrc),
{
    crc_verdict(computed_crc, data[2])?;
    let word: [u8; 2] = [data[0], data[1]];
    Ok(Status::from_bits_retain(get_u16_value(&word)))
}

/// Decodes the three bytes read after the get-status command: the status
/// word, big-endian, then its checksum.
pub fn decode_status<E>(data: &[u8; 3]) -> (res: Result<Status, Error<E>>)
    ensures
        word_intact(data[0], data[1], data[2]) ==> (res matches Ok(status) && status@ == be_u16(
            data[0],
            data[1],
        )),
        !word_intact(data[0], data[1], data[2]) ==> res matches Err(Error::BadCrc),
        res matches Ok(status) ==> status@ / 256 == data[0] && status@ % 256 == data[1],
{
    proof {
        lemma_be_u16_bytes(data[0], data[1]);
    }
    let word: [u8; 2] = [data[0], data[1]];
    assert(word@ =~= seq![data[0], data[1]]);
    let computed_crc = calc_crc(&word);
    status_from_reply(data, computed_crc)
}

/// Interprets the six bytes read after a measurement command, given the
/// checksums computed over the temperature word and over the humidity word.
/// The temperature word is checked first.
pub fn measurement_from_reply<E>(data: &[u8; 6], temperature_crc: u8, humidity_crc: u8) -> (res:
    Result<RawMeasurement, Error<E>>)
    ensures
        temperature_crc == data[2] && humidity_crc == data[5] ==> res == Ok::<
            RawMeasurement,
            Error<E>,
        >(RawMeasurement { temperature: be_u16(data[0], data[1]), humidity: be_u16(data[3], data[4]) }),
        temperature_crc != data[2] || humidity_crc != data[5] ==> res matches Err(Error::BadCrc),
{
    crc_verdict(temperature_crc, data[2])?;
    crc_verdict(humidity_crc, data[5])?;
    let temperature: [u8; 2] = [data[0], data[1]];
    let humidity: [u8; 2] = [data[3], data[4]];
    Ok(
        RawMeasurement {
            temperature: get_u16_value(&temperature),
            humidity: get_u16_value(&humidity),
        },
    )
}

/// Decodes the six bytes read after a measurement command: the temperature
/// word and its checksum, then the humidity word and its checksum.
pub fn decode_measurement<E>(data: &[u8; 6]) -> (res: Result<RawMeasurement, Error<E>>)
    ensures
        word_intact(data[0], data[1], data[2]) && word_intact(data[3], data[4], data[5]) ==> res
            == Ok::<RawMeasurement, Error<E>>(
            RawMeasurement { temperature: be_u16(data[0], data[1]), humidity: be_u16(data[3], data[4]) },
        ),
        !word_intact(data[0], data[1], data[2]) || !word_intact(data[3], data[4], data[5])
            ==> res matches Err(Error::BadCrc),
        res matches Ok(m) ==> m.temperature / 256 == data[0] && m.temperature % 256 == data[1]
            && m.humidity / 256 == data[3] && m.humidity % 256 == data[4],
{
    proof {
        lemma_be_u16_bytes(data[0], data[1]);
        lemma_be_u16_bytes(data[3], data[4]);
    }
    let temperature: [u8; 2] = [data[0], data[1]];
    let humidity: [u8; 2] = [data[3], data[4]];
    assert(temperature@ =~= seq![data[0], data[1]]);
    assert(humidity@ =~= seq![data[3], data[4]]);
    let temperature_crc = calc_crc(&temperature);
    let humidity_crc = calc_crc(&humidity);
    measurement_from_reply(data, temperature_crc, humidity_crc)
}

} // verus!
