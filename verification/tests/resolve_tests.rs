use n2k_codegen::resolve::{
    decode_float_type_for_bit_length, decode_int_type_for_bit_length, lookup_table_type,
    resolve_type, CodegenError,
};

#[test]
fn integer_width_table_is_exact_at_every_boundary() {
    assert_eq!(decode_int_type_for_bit_length(1), "bool");
    assert_eq!(decode_int_type_for_bit_length(2), "u8");
    assert_eq!(decode_int_type_for_bit_length(8), "u8");
    assert_eq!(decode_int_type_for_bit_length(9), "u16");
    assert_eq!(decode_int_type_for_bit_length(16), "u16");
    assert_eq!(decode_int_type_for_bit_length(17), "u32");
    assert_eq!(decode_int_type_for_bit_length(32), "u32");
    assert_eq!(decode_int_type_for_bit_length(33), "u64");
    assert_eq!(decode_int_type_for_bit_length(64), "u64");
    assert_eq!(decode_int_type_for_bit_length(65), "Vec<u8>");
    assert_eq!(decode_int_type_for_bit_length(0), "Vec<u8>");
}

#[test]
fn float_width_table_is_exact_at_every_boundary() {
    assert_eq!(decode_float_type_for_bit_length(7), "f8");
    assert_eq!(decode_float_type_for_bit_length(8), "f16");
    assert_eq!(decode_float_type_for_bit_length(16), "f16");
    assert_eq!(decode_float_type_for_bit_length(17), "f32");
    assert_eq!(decode_float_type_for_bit_length(32), "f32");
    assert_eq!(decode_float_type_for_bit_length(33), "Vec<u8>");
}

#[test]
fn empty_tag_uses_the_integer_width_table_at_every_boundary() {
    for (bits, ty) in [
        (1u64, "bool"),
        (2, "u8"),
        (7, "u8"),
        (8, "u8"),
        (9, "u16"),
        (16, "u16"),
        (17, "u32"),
        (32, "u32"),
        (33, "u64"),
        (64, "u64"),
        (65, "Vec<u8>"),
    ] {
        assert_eq!(resolve_type("f", "", bits, "").unwrap(), ty);
    }
}

#[test]
fn every_supported_tag_resolves_from_the_table_never_to_the_marker() {
    let cases = [
        ("Binary data", 16u64, "u16"),
        ("Lookup table", 8, "Dummy"),
        ("Manufacturer code", 11, "u16"),
        ("Temperature", 16, "N2kTemperature"),
        ("ASCII text", 64, "String"),
        ("Date", 16, "N2kData"),
        ("Time", 32, "N2kTime"),
        ("Latitude", 32, "N2kLatitude"),
        ("Longitude", 32, "N2kLongitude"),
        ("Pressure", 16, "N2kPressure"),
        ("Pressure (hires)", 32, "N2kPressureHighRes"),
        ("Temperature (hires)", 24, "N2kTemperatureHighRes"),
        (
            "ASCII or UNICODE string starting with length and control byte",
            64,
            "String",
        ),
        ("ASCII string starting with length byte", 64, "String"),
        ("String with start/stop byte", 64, "String"),
        ("Bitfield", 8, "Bitfield"),
        ("IEEE Float", 32, "f32"),
        ("Decimal encoded number", 32, "u32"),
        ("", 4, "u8"),
        ("Integer", 16, "u16"),
    ];
    for (tag, bits, expected) in cases {
        let got = resolve_type("f", tag, bits, "1").unwrap();
        assert_eq!(got, expected);
        assert_ne!(got, "UNKNOWN");
    }
}

#[test]
fn unrecognized_tag_resolves_to_the_visible_marker() {
    assert_eq!(resolve_type("f", "Flux density", 16, "").unwrap(), "UNKNOWN");
}

#[test]
fn integer_with_unit_resolution_resolves() {
    assert_eq!(resolve_type("f", "Integer", 16, "1.0").unwrap(), "u16");
    assert_eq!(resolve_type("f", "Integer", 1, "1").unwrap(), "bool");
}

#[test]
fn integer_with_non_unit_resolution_is_unsupported_scaling() {
    assert_eq!(
        resolve_type("f", "Integer", 16, "0.1"),
        Err(CodegenError::UnsupportedScaling)
    );
    assert_eq!(
        resolve_type("f", "Integer", 16, ""),
        Err(CodegenError::UnsupportedScaling)
    );
}

#[test]
fn lookup_table_placeholder_ignores_the_field_name() {
    assert_eq!(lookup_table_type("anything"), "Dummy");
    assert_eq!(lookup_table_type(""), "Dummy");
}
