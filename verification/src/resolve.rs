//! Type resolver: maps a field's semantic-type tag, declared bit width
//! and resolution to the name of the storage type that represents its
//! decoded value. The dispatch is an exact string match on the tag, with
//! bit-length-driven defaults when the tag is empty. A plain integer
//! field with a non-unit scale factor is the one fatal condition: scaled
//! integers are not supported, and the whole run is aborted rather than
//! emitting an incorrect type.

use vstd::prelude::*;

use crate::numbers::{is_unit_res, is_unit_resolution};
use crate::strutil::str_eq;

verus! {

/// Why a generation run was aborted.
#[derive(Clone, Copy, Debug, PartialEq, Eq, Structural)]
pub enum CodegenError {
    /// A plain integer field declared a scale factor other than one.
    UnsupportedScaling,
}

/// Integer width table: the unsigned storage type for a bit width.
pub open spec fn spec_int_type(bits: nat) -> Seq<char> {
    if bits == 1 {
        "bool"@
    } else if 2 <= bits && bits <= 8 {
        "u8"@
    } else if 9 <= bits && bits <= 16 {
        "u16"@
    } else if 17 <= bits && bits <= 32 {
        "u32"@
    } else if 33 <= bits && bits <= 64 {
        "u64"@
    } else {
        "Vec<u8>"@
    }
}

/// Float width table: the floating storage type for a bit width.
pub open spec fn spec_float_type(bits: nat) -> Seq<char> {
    if 17 <= bits && bits <= 32 {
        "f32"@
    } else if 8 <= bits && bits <= 16 {
        "f16"@
    } else if bits < 8 {
        "f8"@
    } else {
        "Vec<u8>"@
    }
}

/// The resolver's dispatch table over the semantic-type tag. An
/// unrecognized tag resolves, non-fatally, to the visible `UNKNOWN`
/// marker; a plain `Integer` tag with a non-unit resolution is the fatal
/// unsupported-scaling condition.
pub open spec fn spec_resolve_type(n2k_type: Seq<char>, bits: nat, resolution: Seq<char>) -> Result<
    Seq<char>,
    CodegenError,
> {
    if n2k_type == "Binary data"@ {
        Ok(spec_int_type(bits))
    } else if n2k_type == "Lookup table"@ {
        Ok("Dummy"@)
    } else if n2k_type == "Manufacturer code"@ {
        Ok("u16"@)
    } else if n2k_type == "Temperature"@ {
        Ok("N2kTemperature"@)
    } else if n2k_type == "ASCII text"@ {
        Ok("String"@)
    } else if n2k_type == "Date"@ {
        Ok("N2kData"@)
    } else if n2k_type == "Time"@ {
        Ok("N2kTime"@)
    } else if n2k_type == "Latitude"@ {
        Ok("N2kLatitude"@)
    } else if n2k_type == "Longitude"@ {
        Ok("N2kLongitude"@)
    } else if n2k_type == "Pressure"@ {
        Ok("N2kPressure"@)
    } else if n2k_type == "Pressure (hires)"@ {
        Ok("N2kPressureHighRes"@)
    } else if n2k_type == "Temperature (hires)"@ {
        Ok("N2kTemperatureHighRes"@)
    } else if n2k_type == "ASCII or UNICODE string starting with length and control byte"@ {
        Ok("String"@)
    } else if n2k_type == "ASCII string starting with length byte"@ {
        Ok("String"@)
    } else if n2k_type == "String with start/stop byte"@ {
        Ok("String"@)
    } else if n2k_type == "Bitfield"@ {
        Ok("Bitfield"@)
    } else if n2k_type == "IEEE Float"@ {
        Ok(spec_float_type(bits))
    } else if n2k_type == "Decimal encoded number"@ {
        Ok(spec_int_type(bits))
    } else if n2k_type == ""@ {
        Ok(spec_int_type(bits))
    } else if n2k_type == "Integer"@ {
        if is_unit_res(resolution) {
            Ok(spec_int_type(bits))
        } else {
            Err(CodegenError::UnsupportedScaling)
        }
    } else {
        Ok("UNKNOWN"@)
    }
}

/// The tags the dispatch table recognizes, the empty tag included.
pub open spec fn is_supported_tag(tag: Seq<char>) -> bool {
    ||| tag == "Binary data"@
    ||| tag == "Lookup table"@
    ||| tag == "Manufacturer code"@
    ||| tag == "Temperature"@
    ||| tag == "ASCII text"@
    ||| tag == "Date"@
    ||| tag == "Time"@
    ||| tag == "Latitude"@
    ||| tag == "Longitude"@
    ||| tag == "Pressure"@
    ||| tag == "Pressure (hires)"@
    ||| tag == "Temperature (hires)"@
    ||| tag == "ASCII or UNICODE string starting with length and control byte"@
    ||| tag == "ASCII string starting with length byte"@
    ||| tag == "String with start/stop byte"@
    ||| tag == "Bitfield"@
    ||| tag == "IEEE Float"@
    ||| tag == "Decimal encoded number"@
    ||| tag == ""@
    ||| tag == "Integer"@
}

proof fn reveal_tag_literals()
    ensures
        "Binary data"@.len() == 11,
        "Lookup table"@.len() == 12,
        "Manufacturer code"@.len() == 17,
        "Temperature"@.len() == 11,
        "ASCII text"@.len() == 10,
        "Date"@.len() == 4,
        "Time"@.len() == 4,
        "Latitude"@.len() == 8,
        "Longitude"@.len() == 9,
        "Pressure"@.len() == 8,
        "Pressure (hires)"@.len() == 16,
        "Temperature (hires)"@.len() == 19,
        "ASCII or UNICODE string starting with length and control byte"@.len() == 61,
        "ASCII string starting with length byte"@.len() == 38,
        "String with start/stop byte"@.len() == 27,
        "Bitfield"@.len() == 8,
        "IEEE Float"@.len() == 10,
        "Decimal encoded number"@.len() == 22,
        ""@.len() == 0,
        "Integer"@.len() == 7,
        "Binary data"@[0] == 'B',
        "Temperature"@[0] == 'T',
        "Date"@[0] == 'D',
        "Time"@[0] == 'T',
        "Latitude"@[0] == 'L',
        "Pressure"@[0] == 'P',
        "Bitfield"@[0] == 'B',
        "ASCII text"@[0] == 'A',
        "IEEE Float"@[0] == 'I',
{
    reveal_strlit("Binary data");
    reveal_strlit("Lookup table");
    reveal_strlit("Manufacturer code");
    reveal_strlit("Temperature");
    reveal_strlit("ASCII text");
    reveal_strlit("Date");
    reveal_strlit("Time");
    reveal_strlit("Latitude");
    reveal_strlit("Longitude");
    reveal_strlit("Pressure");
    reveal_strlit("Pressure (hires)");
    reveal_strlit("Temperature (hires)");
    reveal_strlit("ASCII or UNICODE string starting with length and control byte");
    reveal_strlit("ASCII string starting with length byte");
    reveal_strlit("String with start/stop byte");
    reveal_strlit("Bitfield");
    reveal_strlit("IEEE Float");
    reveal_strlit("Decimal encoded number");
    reveal_strlit("");
    reveal_strlit("Integer");
}

proof fn reveal_type_literals()
    ensures
        "bool"@.len() == 4,
        "u8"@.len() == 2,
        "u16"@.len() == 3,
        "u32"@.len() == 3,
        "u64"@.len() == 3,
        "Vec<u8>"@.len() == 7,
        "Vec<u8>"@[0] == 'V',
        "Dummy"@.len() == 5,
        "String"@.len() == 6,
        "String"@[0] == 'S',
        "N2kTemperature"@.len() == 14,
        "N2kData"@.len() == 7,
        "N2kData"@[0] == 'N',
        "N2kTime"@.len() == 7,
        "N2kTime"@[0] == 'N',
        "N2kLatitude"@.len() == 11,
        "N2kLongitude"@.len() == 12,
        "N2kPressure"@.len() == 11,
        "N2kPressureHighRes"@.len() == 18,
        "N2kTemperatureHighRes"@.len() == 21,
        "Bitfield"@.len() == 8,
        "Bitfield"@[0] == 'B',
        "f32"@.len() == 3,
        "f16"@.len() == 3,
        "f8"@.len() == 2,
        "u16"@[0] == 'u',
        "u32"@[0] == 'u',
        "f32"@[0] == 'f',
        "f16"@[0] == 'f',
        "UNKNOWN"@.len() == 7,
        "UNKNOWN"@[0] == 'U',
{
    reveal_strlit("bool");
    reveal_strlit("u8");
    reveal_strlit("u16");
    reveal_strlit("u32");
    reveal_strlit("u64");
    reveal_strlit("Vec<u8>");
    reveal_strlit("Dummy");
    reveal_strlit("String");
    reveal_strlit("N2kTemperature");
    reveal_strlit("N2kData");
    reveal_strlit("N2kTime");
    reveal_strlit("N2kLatitude");
    reveal_strlit("N2kLongitude");
    reveal_strlit("N2kPressure");
    reveal_strlit("N2kPressureHighRes");
    reveal_strlit("N2kTemperatureHighRes");
    reveal_strlit("Bitfield");
    reveal_strlit("f32");
    reveal_strlit("f16");
    reveal_strlit("f8");
    reveal_strlit("UNKNOWN");
}

/// Every supported tag resolves to a type of the documented dispatch
/// table and never to the visible `UNKNOWN` marker. The one input left
/// out is the fatal unsupported-scaling condition itself: an `Integer`
/// tag with a non-unit resolution, which resolves to no type at all.
pub proof fn lemma_supported_tag_resolves(tag: Seq<char>, bits: nat, resolution: Seq<char>)
    requires
        is_supported_tag(tag),
        tag == "Integer"@ ==> is_unit_res(resolution),
    ensures
        spec_resolve_type(tag, bits, resolution) is Ok,
        spec_resolve_type(tag, bits, resolution)->Ok_0 != "UNKNOWN"@,
{
    reveal_tag_literals();
    reveal_type_literals();
}

/// With an empty semantic-type tag the integer width table is respected
/// exactly, at every bit length and so at every boundary: one bit is the
/// boolean, 2 to 8 bits the 8-bit type, 9 to 16 the 16-bit type, 17 to 32
/// the 32-bit type, 33 to 64 the 64-bit type, and past 64 the
/// variable-length byte sequence.
pub proof fn lemma_empty_tag_width_table(bits: nat, resolution: Seq<char>)
    ensures
        spec_resolve_type(""@, bits, resolution) == Ok::<Seq<char>, CodegenError>(
            spec_int_type(bits),
        ),
        bits == 1 ==> spec_int_type(bits) == "bool"@,
        2 <= bits <= 8 ==> spec_int_type(bits) == "u8"@,
        9 <= bits <= 16 ==> spec_int_type(bits) == "u16"@,
        17 <= bits <= 32 ==> spec_int_type(bits) == "u32"@,
        33 <= bits <= 64 ==> spec_int_type(bits) == "u64"@,
        bits > 64 ==> spec_int_type(bits) == "Vec<u8>"@,
{
    reveal_tag_literals();
}

/// A plain `Integer` field resolves successfully exactly when its
/// resolution is one; any other scale factor, an absent or an unparsable
/// one included, is the fatal unsupported-scaling condition.
pub proof fn lemma_integer_scaling(bits: nat, resolution: Seq<char>)
    ensures
        is_unit_res(resolution) ==> spec_resolve_type("Integer"@, bits, resolution) == Ok::<
            Seq<char>,
            CodegenError,
        >(spec_int_type(bits)),
        !is_unit_res(resolution) ==> spec_resolve_type("Integer"@, bits, resolution) == Err::<
            Seq<char>,
            CodegenError,
        >(CodegenError::UnsupportedScaling),
{
    reveal_tag_literals();
}

/// The storage type for an integer field of the given bit width.
pub fn decode_int_type_for_bit_length(bit_length: u64) -> (r: String)
    ensures
        r@ == spec_int_type(bit_length as nat),
{
    if bit_length == 1 {
        String::from_str("bool")
    } else if 2 <= bit_length && bit_length <= 8 {
        String::from_str("u8")
    } else if 9 <= bit_length && bit_length <= 16 {
        String::from_str("u16")
    } else if 17 <= bit_length && bit_length <= 32 {
        String::from_str("u32")
    } else if 33 <= bit_length && bit_length <= 64 {
        String::from_str("u64")
    } else {
        String::from_str("Vec<u8>")
    }
}

/// The storage type for a floating-point field of the given bit width.
pub fn decode_float_type_for_bit_length(bit_length: u64) -> (r: String)
    ensures
        r@ == spec_float_type(bit_length as nat),
{
    if 17 <= bit_length && bit_length <= 32 {
        String::from_str("f32")
    } else if 8 <= bit_length && bit_length <= 16 {
        String::from_str("f16")
    } else if bit_length < 8 {
        String::from_str("f8")
    } else {
        String::from_str("Vec<u8>")
    }
}

/// The placeholder type name for a lookup-table field; no richer mapping
/// exists yet, so the field identifier is not consulted.
pub fn lookup_table_type(_field_name: &str) -> (r: String)
    ensures
        r@ == "Dummy"@,
{
    String::from_str("Dummy")
}

/// Resolves a field to its storage-type name according to the dispatch
/// table. Fails exactly on a plain `Integer` field whose resolution is
/// not one.
pub fn resolve_type(field_name: &str, n2k_type: &str, bit_length: u64, resolution: &str) -> (r:
    Result<String, CodegenError>)
    ensures
        ({
            let s = spec_resolve_type(n2k_type@, bit_length as nat, resolution@);
            match r {
                Ok(t) => s is Ok && t@ == s->Ok_0,
                Err(e) => s is Err && e == s->Err_0,
            }
        }),
{
    if str_eq(n2k_type, "Binary data") {
        Ok(decode_int_type_for_bit_length(bit_length))
    } else if str_eq(n2k_type, "Lookup table") {
        Ok(lookup_table_type(field_name))
    } else if str_eq(n2k_type, "Manufacturer code") {
        Ok(String::from_str("u16"))
    } else if str_eq(n2k_type, "Temperature") {
        Ok(String::from_str("N2kTemperature"))
    } else if str_eq(n2k_type, "ASCII text") {
        Ok(String::from_str("String"))
    } else if str_eq(n2k_type, "Date") {
        Ok(String::from_str("N2kData"))
    } else if str_eq(n2k_type, "Time") {
        Ok(String::from_str("N2kTime"))
    } else if str_eq(n2k_type, "Latitude") {
        Ok(String::from_str("N2kLatitude"))
    } else if str_eq(n2k_type, "Longitude") {
        Ok(String::from_str("N2kLongitude"))
    } else if str_eq(n2k_type, "Pressure") {
        Ok(String::from_str("N2kPressure"))
    } else if str_eq(n2k_type, "Pressure (hires)") {
        Ok(String::from_str("N2kPressureHighRes"))
    } else if str_eq(n2k_type, "Temperature (hires)") {
        Ok(String::from_str("N2kTemperatureHighRes"))
    } else if str_eq(n2k_type, "ASCII or UNICODE string starting with length and control byte") {
        Ok(String::from_str("String"))
    } else if str_eq(n2k_type, "ASCII string starting with length byte") {
        Ok(String::from_str("String"))
    } else if str_eq(n2k_type, "String with start/stop byte") {
        Ok(String::from_str("String"))
    } else if str_eq(n2k_type, "Bitfield") {
        Ok(String::from_str("Bitfield"))
    } else if str_eq(n2k_type, "IEEE Float") {
        Ok(decode_float_type_for_bit_length(bit_length))
    } else if str_eq(n2k_type, "Decimal encoded number") {
        Ok(decode_int_type_for_bit_length(bit_length))
    } else if str_eq(n2k_type, "") {
        Ok(decode_int_type_for_bit_length(bit_length))
    } else if str_eq(n2k_type, "Integer") {
        if is_unit_resolution(resolution) {
            Ok(decode_int_type_for_bit_length(bit_length))
        } else {
            Err(CodegenError::UnsupportedScaling)
        }
    } else {
        Ok(String::from_str("UNKNOWN"))
    }
}

} // verus!
