//! Source emitter: walks a message definition and produces the text of
//! its generated source file — a type declaration with one member per
//! non-reserved field, a decode routine stub, an encode routine stub —
//! together with the module registration lines that wire the message into
//! the generated library.

use vstd::prelude::*;

use crate::ident::{snake_name, snake_of, upper_first, first_char_to_upper};
use crate::numbers::{dec_str_of, dec_value, parse_u64, u64_to_string};
use crate::resolve::{resolve_type, spec_resolve_type, CodegenError};
use crate::schema::{field_wf, msg_wf, Field, PGNInfo};
use crate::strutil::str_eq;

verus! {

/// The generated member or binding name of a field.
pub open spec fn field_snake(f: Field) -> Seq<char> {
    snake_of(f.id@)
}

/// The declared bit width of a field, read from its textual attribute.
pub open spec fn field_bits(f: Field) -> nat {
    dec_value(f.bit_length@)
}

/// The storage-type name the resolver gives the field.
pub open spec fn field_type(f: Field) -> Seq<char> {
    spec_resolve_type(f.n2k_type@, field_bits(f), f.resolution@)->Ok_0
}

/// The field resolves to a type: it is not the fatal unsupported-scaling
/// condition.
pub open spec fn field_scaling_ok(f: Field) -> bool {
    spec_resolve_type(f.n2k_type@, field_bits(f), f.resolution@) is Ok
}

/// Every field of the list resolves to a type.
pub open spec fn all_scaling_ok(fs: Seq<Field>) -> bool {
    forall|i: int| 0 <= i < fs.len() ==> field_scaling_ok(#[trigger] fs[i])
}

/// A reserved field: its transformed identifier is exactly `reserved`.
/// It is omitted from the type's members and only noted in a comment.
pub open spec fn is_reserved(f: Field) -> bool {
    field_snake(f) == "reserved"@
}

/// The generated type name of a message.
pub open spec fn msg_struct_name(m: PGNInfo) -> Seq<char> {
    upper_first(m.id@)
}

/// The generated module and file name of a message.
pub open spec fn msg_module_name(m: PGNInfo) -> Seq<char> {
    snake_of(m.id@)
}

/// One field's line in the type declaration: a member, or for a reserved
/// field a comment accounting for the skipped bit width.
pub open spec fn spec_member_line(f: Field) -> Seq<char> {
    if is_reserved(f) {
        "\t// reserved field, length = "@ + dec_str_of(field_bits(f)) + " bits\n"@
    } else {
        "\tpub "@ + field_snake(f) + ": "@ + field_type(f) + ",\n"@
    }
}

/// The member lines of a field list, in declared order.
pub open spec fn spec_member_lines(fs: Seq<Field>) -> Seq<char>
    decreases fs.len(),
{
    if fs.len() == 0 {
        Seq::empty()
    } else {
        spec_member_lines(fs.drop_last()) + spec_member_line(fs.last())
    }
}

/// One field's line in the decode stub: a placeholder-default binding,
/// or for a reserved field a comment.
pub open spec fn spec_let_line(f: Field) -> Seq<char> {
    if is_reserved(f) {
        "\t\t// not decoding reserved field with "@ + dec_str_of(field_bits(f)) + " bits\n"@
    } else {
        "\t\tlet "@ + field_snake(f) + " = "@ + field_type(f) + "::default(); // placeholder\n"@
    }
}

/// The binding lines of the decode stub, in declared order.
pub open spec fn spec_let_lines(fs: Seq<Field>) -> Seq<char>
    decreases fs.len(),
{
    if fs.len() == 0 {
        Seq::empty()
    } else {
        spec_let_lines(fs.drop_last()) + spec_let_line(fs.last())
    }
}

/// One field's line in the constructed instance: its name, or nothing
/// for a reserved field.
pub open spec fn spec_ctor_line(f: Field) -> Seq<char> {
    if is_reserved(f) {
        Seq::empty()
    } else {
        "\t\t\t"@ + field_snake(f) + ",\n"@
    }
}

/// The constructor lines of the decode stub, in declared order.
pub open spec fn spec_ctor_lines(fs: Seq<Field>) -> Seq<char>
    decreases fs.len(),
{
    if fs.len() == 0 {
        Seq::empty()
    } else {
        spec_ctor_lines(fs.drop_last()) + spec_ctor_line(fs.last())
    }
}

/// The decode routine stub: one placeholder binding per non-reserved
/// field, then an instance built from those bindings in declared order.
pub open spec fn spec_decode_text(m: PGNInfo) -> Seq<char> {
    "\tpub fn decode(/* placeholder */) -> "@ + msg_struct_name(m) + " {\n"@ + spec_let_lines(
        m.fields.fields@,
    ) + "\t\t"@ + msg_struct_name(m) + " {\n"@ + spec_ctor_lines(m.fields.fields@)
        + "\t\t}\n\t}\n"@
}

/// The encode routine stub: an explicit placeholder with no logic.
pub open spec fn spec_encode_text() -> Seq<char> {
    "\tpub fn encode(&self) -> Vec<u8> {\n\t\tpanic!(\"placeholder\");\n\t}\n"@
}

/// The whole generated source file of one message.
pub open spec fn spec_message_text(m: PGNInfo) -> Seq<char> {
    "use ::generated::enums::*;\nuse ::types::*;\npub struct "@ + msg_struct_name(m) + " {\n"@
        + spec_member_lines(m.fields.fields@) + "}\n"@ + "impl "@ + msg_struct_name(m) + " {\n"@
        + spec_decode_text(m) + spec_encode_text() + "}\n"@
}

/// The message's line in the generated module aggregator.
pub open spec fn spec_mod_line(m: PGNInfo) -> Seq<char> {
    "pub mod "@ + msg_module_name(m) + ";\n"@
}

/// The message's re-export line in the generated entry point.
pub open spec fn spec_use_line(m: PGNInfo) -> Seq<char> {
    "pub use generated::structs::"@ + msg_module_name(m) + "::"@ + msg_struct_name(m) + ";\n"@
}

proof fn lemma_member_lines_step(fs: Seq<Field>, i: int)
    requires
        0 <= i < fs.len(),
    ensures
        spec_member_lines(fs.take(i + 1)) == spec_member_lines(fs.take(i)) + spec_member_line(
            fs[i],
        ),
{
    let t = fs.take(i + 1);
    assert(t.drop_last() =~= fs.take(i));
    assert(t.last() == fs[i]);
}

proof fn lemma_let_lines_step(fs: Seq<Field>, i: int)
    requires
        0 <= i < fs.len(),
    ensures
        spec_let_lines(fs.take(i + 1)) == spec_let_lines(fs.take(i)) + spec_let_line(fs[i]),
{
    let t = fs.take(i + 1);
    assert(t.drop_last() =~= fs.take(i));
    assert(t.last() == fs[i]);
}

proof fn lemma_ctor_lines_step(fs: Seq<Field>, i: int)
    requires
        0 <= i < fs.len(),
    ensures
        spec_ctor_lines(fs.take(i + 1)) == spec_ctor_lines(fs.take(i)) + spec_ctor_line(fs[i]),
{
    let t = fs.take(i + 1);
    assert(t.drop_last() =~= fs.take(i));
    assert(t.last() == fs[i]);
}

/// Emits the member, binding and constructor line of one field, or fails
/// on the unsupported-scaling condition.
fn emit_field_lines(f: &Field) -> (r: Result<(String, String, String), CodegenError>)
    requires
        field_wf(*f),
    ensures
        r is Ok <==> field_scaling_ok(*f),
        r is Ok ==> r->Ok_0.0@ == spec_member_line(*f),
        r is Ok ==> r->Ok_0.1@ == spec_let_line(*f),
        r is Ok ==> r->Ok_0.2@ == spec_ctor_line(*f),
        r is Err ==> r->Err_0 == CodegenError::UnsupportedScaling,
{
    let bits = parse_u64(f.bit_length.as_str()).unwrap();
    let name = snake_name(f.id.as_str());
    let ty = match resolve_type(f.id.as_str(), f.n2k_type.as_str(), bits, f.resolution.as_str()) {
        Ok(t) => t,
        Err(e) => {
            return Err(e);
        },
    };
    if str_eq(name.as_str(), "reserved") {
        let bits_text = u64_to_string(bits);
        let mut member = String::from_str("\t// reserved field, length = ");
        member.append(bits_text.as_str());
        member.append(" bits\n");
        let mut letl = String::from_str("\t\t// not decoding reserved field with ");
        letl.append(bits_text.as_str());
        letl.append(" bits\n");
        let ctor = String::new();
        proof {
            assert(member@ =~= spec_member_line(*f));
            assert(letl@ =~= spec_let_line(*f));
            assert(ctor@ =~= spec_ctor_line(*f));
        }
        Ok((member, letl, ctor))
    } else {
        let mut member = String::from_str("\tpub ");
        member.append(name.as_str());
        member.append(": ");
        member.append(ty.as_str());
        member.append(",\n");
        let mut letl = String::from_str("\t\tlet ");
        letl.append(name.as_str());
        letl.append(" = ");
        letl.append(ty.as_str());
        letl.append("::default(); // placeholder\n");
        let mut ctor = String::from_str("\t\t\t");
        ctor.append(name.as_str());
        ctor.append(",\n");
        proof {
            assert(member@ =~= spec_member_line(*f));
            assert(letl@ =~= spec_let_line(*f));
            assert(ctor@ =~= spec_ctor_line(*f));
        }
        Ok((member, letl, ctor))
    }
}

/// Emits the whole generated source file of one message: the type
/// declaration, the decode stub and the encode stub. Fails exactly when
/// some field is the unsupported-scaling condition.
pub fn emit_message(m: &PGNInfo) -> (r: Result<String, CodegenError>)
    requires
        msg_wf(*m),
    ensures
        r is Ok <==> all_scaling_ok(m.fields.fields@),
        r is Ok ==> r->Ok_0@ == spec_message_text(*m),
        r is Err ==> r->Err_0 == CodegenError::UnsupportedScaling,
{
    let struct_name = first_char_to_upper(m.id.as_str());
    let n = m.fields.fields.len();
    let mut members = String::new();
    let mut lets = String::new();
    let mut ctors = String::new();
    let mut i: usize = 0;
    proof {
        let empty = m.fields.fields@.take(0);
        assert(empty =~= Seq::<Field>::empty());
        assert(members@ =~= spec_member_lines(empty));
        assert(lets@ =~= spec_let_lines(empty));
        assert(ctors@ =~= spec_ctor_lines(empty));
    }
    while i < n
        invariant
            i <= n,
            n == m.fields.fields@.len(),
            msg_wf(*m),
            members@ == spec_member_lines(m.fields.fields@.take(i as int)),
            lets@ == spec_let_lines(m.fields.fields@.take(i as int)),
            ctors@ == spec_ctor_lines(m.fields.fields@.take(i as int)),
            forall|j: int| 0 <= j < i ==> field_scaling_ok(#[trigger] m.fields.fields@[j]),
        decreases n - i,
    {
        let f = &m.fields.fields[i];
        match emit_field_lines(f) {
            Ok((member, letl, ctor)) => {
                members.append(member.as_str());
                lets.append(letl.as_str());
                ctors.append(ctor.as_str());
            },
            Err(e) => {
                proof {
                    assert(!field_scaling_ok(m.fields.fields@[i as int]));
                }
                return Err(e);
            },
        }
        proof {
            lemma_member_lines_step(m.fields.fields@, i as int);
            lemma_let_lines_step(m.fields.fields@, i as int);
            lemma_ctor_lines_step(m.fields.fields@, i as int);
        }
        i = i + 1;
    }
    proof {
        assert(m.fields.fields@.take(n as int) =~= m.fields.fields@);
    }
    let mut out = String::from_str("use ::generated::enums::*;\nuse ::types::*;\npub struct ");
    out.append(struct_name.as_str());
    out.append(" {\n");
    out.append(members.as_str());
    out.append("}\n");
    out.append("impl ");
    out.append(struct_name.as_str());
    out.append(" {\n");
    out.append("\tpub fn decode(/* placeholder */) -> ");
    out.append(struct_name.as_str());
    out.append(" {\n");
    out.append(lets.as_str());
    out.append("\t\t");
    out.append(struct_name.as_str());
    out.append(" {\n");
    out.append(ctors.as_str());
    out.append("\t\t}\n\t}\n");
    out.append("\tpub fn encode(&self) -> Vec<u8> {\n\t\tpanic!(\"placeholder\");\n\t}\n");
    out.append("}\n");
    proof {
        assert(out@ =~= spec_message_text(*m));
    }
    Ok(out)
}

/// Emits the message's line in the generated module aggregator.
pub fn emit_mod_line(m: &PGNInfo) -> (r: String)
    ensures
        r@ == spec_mod_line(*m),
{
    let mut out = String::from_str("pub mod ");
    let module = snake_name(m.id.as_str());
    out.append(module.as_str());
    out.append(";\n");
    proof {
        assert(out@ =~= spec_mod_line(*m));
    }
    out
}

/// Emits the message's re-export line in the generated entry point.
pub fn emit_use_line(m: &PGNInfo) -> (r: String)
    requires
        m.id@.len() > 0,
    ensures
        r@ == spec_use_line(*m),
{
    let mut out = String::from_str("pub use generated::structs::");
    let module = snake_name(m.id.as_str());
    out.append(module.as_str());
    out.append("::");
    let struct_name = first_char_to_upper(m.id.as_str());
    out.append(struct_name.as_str());
    out.append(";\n");
    proof {
        assert(out@ =~= spec_use_line(*m));
    }
    out
}

} // verus!
