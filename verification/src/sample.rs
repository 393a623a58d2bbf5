//! Normalisation of device-native samples to signed 16-bit PCM.

use vstd::prelude::*;

verus! {

/// The sample encodings a capture device may deliver.
#[derive(Clone, Copy, Debug, PartialEq, Eq, Structural)]
pub enum NativeFormat {
    I8,
    I16,
    I32,
    I64,
    U8,
    U16,
    U32,
    U64,
    F32,
    F64,
    /// An encoding this engine has no name for.
    Other,
}

/// How one native sample becomes a signed 16-bit sample.
#[derive(Clone, Copy, Debug, PartialEq, Eq, Structural)]
pub enum Conversion {
    /// Signed 16-bit input is kept bit for bit.
    PassThrough,
    /// Unsigned 16-bit input is shifted down by the unsigned midpoint.
    OffsetBinary,
    /// Single-precision input is clamped to [-1, 1], scaled by 32767 and
    /// truncated toward zero.
    FloatScale,
}

/// The device delivers an encoding that the converter does not handle.
#[derive(Clone, Copy, Debug, PartialEq, Eq, Structural)]
pub struct UnsupportedFormat {
    pub format: NativeFormat,
}

/// The midpoint of the unsigned 16-bit range.
pub const U16_MIDPOINT: u16 = 32768;

/// The conversion for a native encoding, where there is one.
pub open spec fn conversion_of(format: NativeFormat) -> Option<Conversion> {
    match format {
        NativeFormat::I16 => Some(Conversion::PassThrough),
        NativeFormat::U16 => Some(Conversion::OffsetBinary),
        NativeFormat::F32 => Some(Conversion::FloatScale),
        _ => None,
    }
}

/// An offset-binary sample as two's complement.
pub open spec fn offset_to_signed(sample: u16) -> i16 {
    (sample - 32768) as i16
}

/// A chunk of offset-binary samples as two's complement, in order.
pub open spec fn offset_chunk(data: Seq<u16>) -> Seq<i16> {
    Seq::new(data.len(), |i: int| offset_to_signed(data[i]))
}

/// Picks the conversion for a device's native encoding, or fails for an
/// encoding that would otherwise be recorded as garbage.
pub fn select_conversion(format: NativeFormat) -> (r: Result<Conversion, UnsupportedFormat>)
    ensures
        match conversion_of(format) {
            Some(conversion) => r == Ok::<Conversion, UnsupportedFormat>(conversion),
            None => r == Err::<Conversion, UnsupportedFormat>(UnsupportedFormat { format }),
        },
{
    match format {
        NativeFormat::I16 => Ok(Conversion::PassThrough),
        NativeFormat::U16 => Ok(Conversion::OffsetBinary),
        NativeFormat::F32 => Ok(Conversion::FloatScale),
        _ => Err(UnsupportedFormat { format }),
    }
}

/// Signed 16-bit input passes through unchanged.
pub fn convert_i16(sample: i16) -> (out: i16)
    ensures
        out == sample,
{
    sample
}

/// Unsigned 16-bit input is moved from offset binary to two's complement.
pub fn convert_u16(sample: u16) -> (out: i16)
    ensures
        out == offset_to_signed(sample),
        out as int == sample as int - 32768,
{
    let wide: i32 = sample as i32 - 32768;
    wide as i16
}

/// Appends a chunk of signed 16-bit samples to a buffer.
pub fn extend_with_i16(buffer: &mut Vec<i16>, data: &[i16])
    ensures
        final(buffer)@ == old(buffer)@ + data@,
{
    let ghost before = buffer@;
    let mut at: usize = 0;
    while at < data.len()
        invariant
            at <= data.len(),
            buffer@ == before + data@.take(at as int),
        decreases data.len() - at,
    {
        buffer.push(convert_i16(data[at]));
        at = at + 1;
        assert(buffer@ =~= before + data@.take(at as int));
    }
    assert(data@.take(at as int) =~= data@);
}

/// Appends a chunk of unsigned 16-bit samples to a buffer, converted.
pub fn extend_with_u16(buffer: &mut Vec<i16>, data: &[u16])
    ensures
        final(buffer)@ == old(buffer)@ + offset_chunk(data@),
{
    let ghost before = buffer@;
    let mut at: usize = 0;
    while at < data.len()
        invariant
            at <= data.len(),
            buffer@ == before + offset_chunk(data@.take(at as int)),
        decreases data.len() - at,
    {
        buffer.push(convert_u16(data[at]));
        at = at + 1;
        assert(buffer@ =~= before + offset_chunk(data@.take(at as int)));
    }
    assert(data@.take(at as int) =~= data@);
}

/// The conversion of unsigned samples keeps their order: a larger input
/// gives a larger output, so no two inputs share an output.
pub proof fn lemma_offset_keeps_order(a: u16, b: u16)
    ensures
        a < b <==> offset_to_signed(a) < offset_to_signed(b),
        a == b <==> offset_to_signed(a) == offset_to_signed(b),
{
}

} // verus!
