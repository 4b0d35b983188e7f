//! Driver: selects which message definitions to generate by an explicit
//! id allow-list and assembles the full output of one generation run —
//! the entry file, the module aggregator, and one source file per
//! selected message. Writing the files to disk is the caller's part.

use vstd::prelude::*;

use crate::emit::{all_scaling_ok, emit_message, emit_mod_line, emit_use_line, msg_module_name,
    spec_message_text, spec_mod_line, spec_use_line};
use crate::ident::snake_name;
use crate::resolve::CodegenError;
use crate::schema::{msg_wf, PGNInfo, PGNsFile};
use crate::strutil::str_eq;

verus! {

/// The build-time allow-list: a message is generated when its group id
/// is one of these.
pub open spec fn is_selected(m: PGNInfo) -> bool {
    m.pgn@ == "60928"@ || m.pgn@ == "59904"@
}

/// The selected messages of the registry, in document order.
pub open spec fn selected_msgs(ms: Seq<PGNInfo>) -> Seq<PGNInfo>
    decreases ms.len(),
{
    if ms.len() == 0 {
        Seq::empty()
    } else {
        selected_msgs(ms.drop_last()) + (if is_selected(ms.last()) {
            seq![ms.last()]
        } else {
            Seq::empty()
        })
    }
}

/// The generated source file of one message, paired with the module (and
/// file) name it registers under.
pub struct GeneratedMessage {
    pub module_name: String,
    pub contents: String,
}

/// Everything one generation run produces: the entry file's text, the
/// module aggregator's text, and one file per selected message.
pub struct GenOutput {
    pub lib_text: String,
    pub structs_mod_text: String,
    pub messages: Vec<GeneratedMessage>,
}

/// The fixed head of the generated entry file.
pub open spec fn spec_lib_head() -> Seq<char> {
    "mod generated;\nmod types;\n"@
}

/// The re-export lines of the selected messages, in order.
pub open spec fn spec_use_lines(ms: Seq<PGNInfo>) -> Seq<char>
    decreases ms.len(),
{
    if ms.len() == 0 {
        Seq::empty()
    } else {
        spec_use_lines(ms.drop_last()) + spec_use_line(ms.last())
    }
}

/// The aggregator lines of the selected messages, in order.
pub open spec fn spec_mod_lines(ms: Seq<PGNInfo>) -> Seq<char>
    decreases ms.len(),
{
    if ms.len() == 0 {
        Seq::empty()
    } else {
        spec_mod_lines(ms.drop_last()) + spec_mod_line(ms.last())
    }
}

/// Every selected message of the registry is one the generator can work
/// on; the messages outside the allow-list are never touched.
pub open spec fn registry_wf(file: PGNsFile) -> bool {
    forall|i: int|
        0 <= i < file.pgns.pgn_infos@.len() && is_selected(#[trigger] file.pgns.pgn_infos@[i])
            ==> msg_wf(file.pgns.pgn_infos@[i])
}

/// No selected message holds the fatal unsupported-scaling condition.
pub open spec fn registry_scaling_ok(file: PGNsFile) -> bool {
    forall|i: int|
        0 <= i < file.pgns.pgn_infos@.len() && is_selected(#[trigger] file.pgns.pgn_infos@[i])
            ==> all_scaling_ok(file.pgns.pgn_infos@[i].fields.fields@)
}

/// Decides `registry_wf` at run time.
pub fn check_registry_wf(file: &PGNsFile) -> (r: bool)
    ensures
        r == registry_wf(*file),
{
    let n = file.pgns.pgn_infos.len();
    let mut i: usize = 0;
    while i < n
        invariant
            i <= n,
            n == file.pgns.pgn_infos@.len(),
            forall|j: int|
                0 <= j < i && is_selected(#[trigger] file.pgns.pgn_infos@[j]) ==> msg_wf(
                    file.pgns.pgn_infos@[j],
                ),
        decreases n - i,
    {
        let m = &file.pgns.pgn_infos[i];
        if str_eq(m.pgn.as_str(), "60928") || str_eq(m.pgn.as_str(), "59904") {
            if !crate::schema::check_msg_wf(m) {
                return false;
            }
        }
        i = i + 1;
    }
    true
}

proof fn lemma_selected_msgs_step(ms: Seq<PGNInfo>, i: int)
    requires
        0 <= i < ms.len(),
    ensures
        is_selected(ms[i]) ==> selected_msgs(ms.take(i + 1)) == selected_msgs(ms.take(i)).push(
            ms[i],
        ),
        !is_selected(ms[i]) ==> selected_msgs(ms.take(i + 1)) == selected_msgs(ms.take(i)),
{
    let t = ms.take(i + 1);
    assert(t.drop_last() =~= ms.take(i));
    assert(t.last() == ms[i]);
    if is_selected(ms[i]) {
        assert(selected_msgs(ms.take(i)) + seq![ms[i]] =~= selected_msgs(ms.take(i)).push(ms[i]));
    } else {
        assert(selected_msgs(ms.take(i)) + Seq::<PGNInfo>::empty() =~= selected_msgs(ms.take(i)));
    }
}

proof fn lemma_use_lines_push(ms: Seq<PGNInfo>, m: PGNInfo)
    ensures
        spec_use_lines(ms.push(m)) == spec_use_lines(ms) + spec_use_line(m),
        spec_mod_lines(ms.push(m)) == spec_mod_lines(ms) + spec_mod_line(m),
{
    assert(ms.push(m).drop_last() =~= ms);
    assert(ms.push(m).last() == m);
}

/// One generation run: parses nothing and writes nothing, only computes.
/// Given the registry, it filters the messages by the allow-list and
/// produces the complete text of every output file, or aborts the whole
/// run on the first unsupported-scaling condition, producing nothing.
pub fn n2k_codegen(file: &PGNsFile) -> (r: Result<GenOutput, CodegenError>)
    requires
        registry_wf(*file),
    ensures
        r is Ok <==> registry_scaling_ok(*file),
        r is Ok ==> ({
            let sel = selected_msgs(file.pgns.pgn_infos@);
            let out = r->Ok_0;
            &&& out.lib_text@ == spec_lib_head() + spec_use_lines(sel)
            &&& out.structs_mod_text@ == spec_mod_lines(sel)
            &&& out.messages@.len() == sel.len()
            &&& forall|i: int|
                0 <= i < sel.len() ==> (#[trigger] out.messages@[i]).module_name@
                    == msg_module_name(sel[i])
            &&& forall|i: int|
                0 <= i < sel.len() ==> (#[trigger] out.messages@[i]).contents@
                    == spec_message_text(sel[i])
        }),
        r is Err ==> r->Err_0 == CodegenError::UnsupportedScaling,
{
    let ms = &file.pgns.pgn_infos;
    let n = ms.len();
    let mut lib_text = String::from_str("mod generated;\nmod types;\n");
    let mut mod_text = String::new();
    let mut messages: Vec<GeneratedMessage> = Vec::new();
    let mut i: usize = 0;
    proof {
        assert(ms@.take(0) =~= Seq::<PGNInfo>::empty());
        assert(lib_text@ =~= spec_lib_head() + spec_use_lines(selected_msgs(ms@.take(0))));
        assert(mod_text@ =~= spec_mod_lines(selected_msgs(ms@.take(0))));
    }
    while i < n
        invariant
            i <= n,
            n == ms@.len(),
            ms@ == file.pgns.pgn_infos@,
            registry_wf(*file),
            lib_text@ == spec_lib_head() + spec_use_lines(selected_msgs(ms@.take(i as int))),
            mod_text@ == spec_mod_lines(selected_msgs(ms@.take(i as int))),
            messages@.len() == selected_msgs(ms@.take(i as int)).len(),
            forall|j: int|
                0 <= j < messages@.len() ==> (#[trigger] messages@[j]).module_name@
                    == msg_module_name(selected_msgs(ms@.take(i as int))[j]),
            forall|j: int|
                0 <= j < messages@.len() ==> (#[trigger] messages@[j]).contents@
                    == spec_message_text(selected_msgs(ms@.take(i as int))[j]),
            forall|j: int|
                0 <= j < i && is_selected(#[trigger] ms@[j]) ==> all_scaling_ok(
                    ms@[j].fields.fields@,
                ),
        decreases n - i,
    {
        let m = &ms[i];
        let selected = str_eq(m.pgn.as_str(), "60928") || str_eq(m.pgn.as_str(), "59904");
        proof {
            lemma_selected_msgs_step(ms@, i as int);
        }
        if selected {
            let module_name = snake_name(m.id.as_str());
            let use_line = emit_use_line(m);
            let mod_line = emit_mod_line(m);
            let contents = match emit_message(m) {
                Ok(t) => t,
                Err(e) => {
                    proof {
                        assert(!all_scaling_ok(ms@[i as int].fields.fields@));
                        assert(!registry_scaling_ok(*file));
                    }
                    return Err(e);
                },
            };
            lib_text.append(use_line.as_str());
            mod_text.append(mod_line.as_str());
            messages.push(GeneratedMessage { module_name, contents });
            proof {
                lemma_use_lines_push(selected_msgs(ms@.take(i as int)), ms@[i as int]);
            }
        }
        i = i + 1;
    }
    proof {
        assert(ms@.take(n as int) =~= ms@);
    }
    Ok(GenOutput { lib_text, structs_mod_text: mod_text, messages })
}

} // verus!
