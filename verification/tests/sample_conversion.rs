use voice_recorder::sample::{
    convert_i16, convert_u16, extend_with_i16, extend_with_u16, select_conversion, Conversion,
    NativeFormat, UnsupportedFormat, U16_MIDPOINT,
};

#[test]
fn unsigned_zero_becomes_the_signed_minimum() {
    assert_eq!(convert_u16(0), -32768);
}

#[test]
fn unsigned_maximum_becomes_the_signed_maximum() {
    assert_eq!(convert_u16(65535), 32767);
}

#[test]
fn unsigned_midpoint_becomes_zero() {
    assert_eq!(U16_MIDPOINT, 32768);
    assert_eq!(convert_u16(U16_MIDPOINT), 0);
    assert_eq!(convert_u16(32767), -1);
    assert_eq!(convert_u16(32769), 1);
}

#[test]
fn unsigned_conversion_matches_the_offset_for_every_input() {
    for sample in 0..=u16::MAX {
        assert_eq!(convert_u16(sample) as i32, sample as i32 - 32768);
    }
}

#[test]
fn signed_input_passes_through() {
    for sample in [i16::MIN, -1, 0, 1, 12345, i16::MAX] {
        assert_eq!(convert_i16(sample), sample);
    }
}

#[test]
fn conversions_exist_for_the_three_handled_encodings() {
    assert_eq!(select_conversion(NativeFormat::I16), Ok(Conversion::PassThrough));
    assert_eq!(select_conversion(NativeFormat::U16), Ok(Conversion::OffsetBinary));
    assert_eq!(select_conversion(NativeFormat::F32), Ok(Conversion::FloatScale));
}

#[test]
fn every_other_encoding_is_unsupported() {
    for format in [
        NativeFormat::I8,
        NativeFormat::I32,
        NativeFormat::I64,
        NativeFormat::U8,
        NativeFormat::U32,
        NativeFormat::U64,
        NativeFormat::F64,
        NativeFormat::Other,
    ] {
        assert_eq!(select_conversion(format), Err(UnsupportedFormat { format }));
    }
}

#[test]
fn signed_chunks_are_appended_in_order() {
    let mut buffer = vec![7i16, 8];
    extend_with_i16(&mut buffer, &[1, -2, 3]);
    assert_eq!(buffer, vec![7, 8, 1, -2, 3]);
    extend_with_i16(&mut buffer, &[]);
    assert_eq!(buffer, vec![7, 8, 1, -2, 3]);
}

#[test]
fn unsigned_chunks_are_converted_and_appended_in_order() {
    let mut buffer = vec![5i16];
    extend_with_u16(&mut buffer, &[0, 32768, 65535, 1]);
    assert_eq!(buffer, vec![5, -32768, 0, 32767, -32767]);
}
