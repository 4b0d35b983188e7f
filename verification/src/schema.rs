//! Schema model: passive data structures representing the parsed registry.
//! Numeric-looking attributes (order, bit length, resolution) are kept as
//! raw text and parsed lazily by downstream consumers, so a malformed
//! numeric field surfaces at resolve time, not at parse time.

use vstd::prelude::*;

use crate::numbers::{all_digits, dec_value, parse_u64};

verus! {

/// One bit-packed field within a message definition.
pub struct Field {
    /// Declared position among the fields, one-based, kept as text.
    pub order: String,
    /// Identifier the generated member and binding names derive from.
    pub id: String,
    /// Human-readable display name; carried along, never interpreted.
    pub name: String,
    /// Declared width in bits, kept as text.
    pub bit_length: String,
    /// Offset in bits; empty means contiguous after the previous field.
    pub bit_offset: String,
    /// Semantic-type tag such as `Temperature`; empty means plain integer.
    pub n2k_type: String,
    /// Numeric scale factor; empty or unparsable means not applicable.
    pub resolution: String,
}

/// The ordered field list of one message definition.
pub struct Fields {
    pub fields: Vec<Field>,
}

/// One parameter-group schema entry.
pub struct PGNInfo {
    /// Numeric group id, kept as text.
    pub pgn: String,
    /// Identifier the type and module names derive from.
    pub id: String,
    /// Declared total bit length of the message, kept as text.
    pub length: String,
    pub fields: Fields,
}

/// The message list container of the registry document.
pub struct PGNS {
    pub pgn_infos: Vec<PGNInfo>,
}

/// The root of the registry document.
pub struct PGNsFile {
    pub comment: String,
    pub creator_code: String,
    pub license: String,
    pub pgns: PGNS,
}

/// A field the generator can work on: its declared bit length is a
/// numeral that fits the machine word the width tables are keyed by.
pub open spec fn field_wf(f: Field) -> bool {
    &&& f.bit_length@.len() > 0
    &&& all_digits(f.bit_length@)
    &&& dec_value(f.bit_length@) <= u64::MAX
}

/// A message the generator can work on: a non-empty identifier (needed
/// for the type-name derivation) and well-formed fields. A malformed bit
/// length in a selected message is treated as a fault of the registry and
/// fails the whole run up front, rather than only that field's
/// generation: a bit length is invariantly present and numeric, so its
/// absence is corruption, not an unsupported feature.
pub open spec fn msg_wf(m: PGNInfo) -> bool {
    &&& m.id@.len() > 0
    &&& forall|i: int| 0 <= i < m.fields.fields@.len() ==> field_wf(#[trigger] m.fields.fields@[i])
}

/// Decides `field_wf` at run time.
pub fn check_field_wf(f: &Field) -> (r: bool)
    ensures
        r == field_wf(*f),
{
    match parse_u64(f.bit_length.as_str()) {
        Some(_) => true,
        None => false,
    }
}

/// Decides `msg_wf` at run time.
pub fn check_msg_wf(m: &PGNInfo) -> (r: bool)
    ensures
        r == msg_wf(*m),
{
    if m.id.as_str().unicode_len() == 0 {
        return false;
    }
    let n = m.fields.fields.len();
    let mut i: usize = 0;
    while i < n
        invariant
            i <= n,
            n == m.fields.fields@.len(),
            m.id@.len() > 0,
            forall|j: int| 0 <= j < i ==> field_wf(#[trigger] m.fields.fields@[j]),
        decreases n - i,
    {
        if !check_field_wf(&m.fields.fields[i]) {
            return false;
        }
        i = i + 1;
    }
    true
}

} // verus!
