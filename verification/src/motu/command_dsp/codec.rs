//! Coefficients and single-coefficient records of the command protocol.
//!
//! A record with one coefficient addresses its parameter by an identifier of
//! four bytes: the channel, then the third, the second and the first level.
//! A byte coefficient stands before the identifier, a quadlet coefficient
//! behind it.

use vstd::prelude::*;
use crate::float32::{lemma_bytes_then_quadlet, Float32};

verus! {

/// Tag of the report of DSP resource usage.
pub const CMD_RESOURCE: u8 = 0x23;

/// Tag of a record with several byte coefficients.
pub const CMD_BYTE_MULTIPLE: u8 = 0x49;

/// Tag of a record with several quadlet coefficients.
pub const CMD_QUADLET_MULTIPLE: u8 = 0x46;

/// Tag of the marker that drains the commands before it.
pub const CMD_DRAIN: u8 = 0x62;

/// Tag of the marker that ends a stream.
pub const CMD_END: u8 = 0x65;

/// Tag of a record with one byte coefficient.
pub const CMD_BYTE_SINGLE: u8 = 0x69;

/// Tag of a record with one quadlet coefficient.
pub const CMD_QUADLET_SINGLE: u8 = 0x66;

pub const CMD_RESOURCE_LENGTH: usize = 6;

pub const CMD_BYTE_SINGLE_LENGTH: usize = 6;

pub const CMD_QUADLET_SINGLE_LENGTH: usize = 9;

/// The lowest byte of a channel number.
pub open spec fn channel_byte(ch: usize) -> u8 {
    (ch % 0x100) as u8
}

pub open spec fn spec_to_bool(raw: Seq<u8>) -> bool {
    raw[0] > 0
}

pub open spec fn spec_to_usize(raw: Seq<u8>) -> usize {
    raw[0] as usize
}

/// The quadlet coefficient as a number.
pub open spec fn spec_to_f32(raw: Seq<u8>) -> Float32 {
    Float32::spec_from_le_bytes(raw)
}

/// The quadlet coefficient, a number, as a signed integer.
pub open spec fn spec_to_i32(raw: Seq<u8>) -> i32 {
    Float32::spec_from_le_bytes(raw).spec_to_i32()
}

/// The quadlet coefficient, a number, as an unsigned integer.
pub open spec fn spec_to_u32(raw: Seq<u8>) -> u32 {
    Float32::spec_from_le_bytes(raw).spec_to_u32()
}

/// The byte that stands for a flag.
pub open spec fn flag_byte(val: bool) -> u8 {
    if val {
        1
    } else {
        0
    }
}

/// The record of a byte coefficient.
pub open spec fn byte_record(
    first_level: u8,
    second_level: u8,
    third_level: u8,
    ch: usize,
    val: u8,
) -> Seq<u8> {
    seq![CMD_BYTE_SINGLE, val, channel_byte(ch), third_level, second_level, first_level]
}

/// The record of a quadlet coefficient.
pub open spec fn quadlet_record(
    first_level: u8,
    second_level: u8,
    third_level: u8,
    ch: usize,
    val: Float32,
) -> Seq<u8> {
    seq![CMD_QUADLET_SINGLE, channel_byte(ch), third_level, second_level, first_level]
        + val.spec_to_le_bytes()
}

/// The record of a coefficient given as bytes: a quadlet record where there
/// are four of them, else a byte record.
pub open spec fn data_record(identifier: Seq<u8>, vals: Seq<u8>) -> Seq<u8> {
    if vals.len() == 4 {
        seq![CMD_QUADLET_SINGLE] + identifier + vals
    } else {
        seq![CMD_BYTE_SINGLE] + vals + identifier
    }
}

pub fn to_bool(raw: &[u8]) -> (val: bool)
    requires
        raw@.len() == 1,
    ensures
        val == spec_to_bool(raw@),
{
    raw[0] > 0
}

pub fn to_usize(raw: &[u8]) -> (val: usize)
    requires
        raw@.len() == 1,
    ensures
        val == spec_to_usize(raw@),
{
    raw[0] as usize
}

pub fn to_i32(raw: &[u8]) -> (val: i32)
    requires
        raw@.len() == 4,
    ensures
        val == spec_to_i32(raw@),
{
    to_f32(raw).to_i32()
}

pub fn to_f32(raw: &[u8]) -> (val: Float32)
    requires
        raw@.len() == 4,
    ensures
        val == spec_to_f32(raw@),
{
    Float32::from_le_bytes(raw)
}

pub fn to_u32(raw: &[u8]) -> (val: u32)
    requires
        raw@.len() == 4,
    ensures
        val == spec_to_u32(raw@),
{
    to_f32(raw).to_u32()
}

/// The byte that stands for a flag.
pub fn bool_to_u8(val: bool) -> (byte: u8)
    ensures
        byte == flag_byte(val),
{
    if val {
        1
    } else {
        0
    }
}

pub fn append_data(raw: &mut Vec<u8>, identifier: &[u8], vals: &[u8])
    ensures
        final(raw)@ == old(raw)@ + data_record(identifier@, vals@),
{
    if vals.len() == 4 {
        raw.push(CMD_QUADLET_SINGLE);
        raw.extend_from_slice(identifier);
        raw.extend_from_slice(vals);
    } else {
        raw.push(CMD_BYTE_SINGLE);
        raw.extend_from_slice(vals);
        raw.extend_from_slice(identifier);
    }
    assert(raw@ =~= old(raw)@ + data_record(identifier@, vals@));
}

pub fn append_u8(
    raw: &mut Vec<u8>,
    first_level: u8,
    second_level: u8,
    third_level: u8,
    ch: usize,
    val: u8,
)
    ensures
        final(raw)@ == old(raw)@ + byte_record(first_level, second_level, third_level, ch, val),
{
    raw.push(CMD_BYTE_SINGLE);
    raw.push(val);
    raw.push((ch % 0x100) as u8);
    raw.push(third_level);
    raw.push(second_level);
    raw.push(first_level);
    assert(raw@ =~= old(raw)@ + byte_record(first_level, second_level, third_level, ch, val));
}

pub fn append_i32(
    raw: &mut Vec<u8>,
    first_level: u8,
    second_level: u8,
    third_level: u8,
    ch: usize,
    val: i32,
)
    ensures
        final(raw)@ == old(raw)@ + quadlet_record(
            first_level,
            second_level,
            third_level,
            ch,
            Float32::spec_from_i32(val),
        ),
{
    append_f32(raw, first_level, second_level, third_level, ch, Float32::from_i32(val))
}

pub fn append_f32(
    raw: &mut Vec<u8>,
    first_level: u8,
    second_level: u8,
    third_level: u8,
    ch: usize,
    val: Float32,
)
    ensures
        final(raw)@ == old(raw)@ + quadlet_record(first_level, second_level, third_level, ch, val),
{
    raw.push(CMD_QUADLET_SINGLE);
    raw.push((ch % 0x100) as u8);
    raw.push(third_level);
    raw.push(second_level);
    raw.push(first_level);
    val.append_le_bytes(raw);
    assert(raw@ =~= old(raw)@ + quadlet_record(first_level, second_level, third_level, ch, val));
}

pub fn append_u32(
    raw: &mut Vec<u8>,
    first_level: u8,
    second_level: u8,
    third_level: u8,
    ch: usize,
    val: u32,
)
    ensures
        final(raw)@ == old(raw)@ + quadlet_record(
            first_level,
            second_level,
            third_level,
            ch,
            Float32::spec_from_u32(val),
        ),
{
    append_f32(raw, first_level, second_level, third_level, ch, Float32::from_u32(val))
}

/// The record of the report of DSP resource usage.
pub open spec fn resource_record(usage: Float32, flag: u8) -> Seq<u8> {
    seq![CMD_RESOURCE] + usage.spec_to_le_bytes() + seq![flag]
}

pub fn append_resource(raw: &mut Vec<u8>, usage: Float32, flag: u8)
    ensures
        final(raw)@ == old(raw)@ + resource_record(usage, flag),
{
    raw.push(CMD_RESOURCE);
    usage.append_le_bytes(raw);
    raw.push(flag);
    assert(raw@ =~= old(raw)@ + resource_record(usage, flag));
}


/// One coefficient of a record: a byte, or a quadlet that holds a number.
#[derive(Debug, Copy, Clone, Eq, PartialEq, Structural)]
pub enum Coefficient {
    Byte(u8),
    Quadlet(Float32),
}

impl Coefficient {
    /// The bytes of the coefficient as they stand in a record.
    pub open spec fn bytes(self) -> Seq<u8> {
        match self {
            Coefficient::Byte(val) => seq![val],
            Coefficient::Quadlet(val) => val.spec_to_le_bytes(),
        }
    }
}

/// The record of one coefficient.
pub open spec fn coefficient_record(
    first_level: u8,
    second_level: u8,
    third_level: u8,
    ch: usize,
    coef: Coefficient,
) -> Seq<u8> {
    match coef {
        Coefficient::Byte(val) => byte_record(first_level, second_level, third_level, ch, val),
        Coefficient::Quadlet(val) => quadlet_record(
            first_level,
            second_level,
            third_level,
            ch,
            val,
        ),
    }
}

pub fn append_coefficient(
    raw: &mut Vec<u8>,
    first_level: u8,
    second_level: u8,
    third_level: u8,
    ch: usize,
    coef: Coefficient,
)
    ensures
        final(raw)@ == old(raw)@ + coefficient_record(
            first_level,
            second_level,
            third_level,
            ch,
            coef,
        ),
{
    match coef {
        Coefficient::Byte(val) => append_u8(raw, first_level, second_level, third_level, ch, val),
        Coefficient::Quadlet(val) => append_f32(
            raw,
            first_level,
            second_level,
            third_level,
            ch,
            val,
        ),
    }
}

/// Whether `raw` is exactly one record of one coefficient.
pub open spec fn is_single_record(raw: Seq<u8>) -> bool {
    (raw.len() == CMD_BYTE_SINGLE_LENGTH && raw[0] == CMD_BYTE_SINGLE) || (raw.len()
        == CMD_QUADLET_SINGLE_LENGTH && raw[0] == CMD_QUADLET_SINGLE)
}

/// The identifier in a record of one coefficient.
pub open spec fn single_identifier(raw: Seq<u8>) -> Seq<u8> {
    if raw[0] == CMD_QUADLET_SINGLE {
        raw.subrange(1, 5)
    } else {
        raw.subrange(2, 6)
    }
}

/// The coefficient in a record of one coefficient.
pub open spec fn single_vals(raw: Seq<u8>) -> Seq<u8> {
    if raw[0] == CMD_QUADLET_SINGLE {
        raw.subrange(5, 9)
    } else {
        raw.subrange(1, 2)
    }
}

/// The record of one coefficient holds the identifier and the coefficient it
/// was made of.
pub proof fn lemma_coefficient_record(
    first_level: u8,
    second_level: u8,
    third_level: u8,
    ch: usize,
    coef: Coefficient,
)
    ensures
        is_single_record(coefficient_record(first_level, second_level, third_level, ch, coef)),
        single_identifier(coefficient_record(first_level, second_level, third_level, ch, coef))
            == seq![channel_byte(ch), third_level, second_level, first_level],
        single_vals(coefficient_record(first_level, second_level, third_level, ch, coef))
            == coef.bytes(),
{
    let record = coefficient_record(first_level, second_level, third_level, ch, coef);
    if let Coefficient::Quadlet(val) = coef {
        lemma_bytes_then_quadlet(val.bits);
    }
    assert(single_identifier(record) =~= seq![
        channel_byte(ch),
        third_level,
        second_level,
        first_level,
    ]);
    assert(single_vals(record) =~= coef.bytes());
}

/// The record made of an identifier of four bytes and a coefficient of one or
/// four bytes holds both.
pub proof fn lemma_data_record(identifier: Seq<u8>, vals: Seq<u8>)
    requires
        identifier.len() == 4,
        vals.len() == 1 || vals.len() == 4,
    ensures
        is_single_record(data_record(identifier, vals)),
        single_identifier(data_record(identifier, vals)) == identifier,
        single_vals(data_record(identifier, vals)) == vals,
{
    let record = data_record(identifier, vals);
    assert(single_identifier(record) =~= identifier);
    assert(single_vals(record) =~= vals);
}

/// What a command of one section is, seen apart from how its bytes are held:
/// either a command of a documented parameter, or the identifier and the
/// coefficient of one that is not.
pub enum CmdView<T> {
    Typed(T),
    Reserved(Seq<u8>, Seq<u8>),
}

/// Whether two runs of bytes are the same.
pub fn same_bytes(a: &[u8], b: &[u8]) -> (same: bool)
    ensures
        same == (a@ == b@),
{
    if a.len() != b.len() {
        return false;
    }
    let mut i: usize = 0;
    while i < a.len()
        invariant
            i <= a@.len(),
            a@.len() == b@.len(),
            forall|j: int| 0 <= j < i ==> a@[j] == b@[j],
        decreases a@.len() - i,
    {
        if a[i] != b[i] {
            return false;
        }
        i += 1;
    }
    assert(a@ =~= b@);
    true
}

/// A vector with the bytes of `raw`.
pub fn bytes_to_vec(raw: &[u8]) -> (v: Vec<u8>)
    ensures
        v@ == raw@,
{
    let mut v = Vec::new();
    v.extend_from_slice(raw);
    assert(v@ =~= raw@);
    v
}

} // verus!
