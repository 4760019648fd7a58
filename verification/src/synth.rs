//! Entry-point synthesis: validates the three metadata literals and the
//! decorated item, mangles the five fixed logical export names, and emits
//! the source text of the five exported functions.
use vstd::prelude::*;

use crate::literal::escape_literal;
use crate::literal::escape_seq;
use crate::mangle::mangle;
use crate::mangle::mangle_spec;
use crate::parse::is_fn_item;
use crate::parse::parse_fn_item;
use crate::parse::parse_str_lit_args;
use crate::parse::parsed_str_lit_args;

verus! {

/// Why generation was refused; each failure is diagnosed at generation
/// time and no output text is produced.
#[derive(Clone, Copy, Debug, PartialEq, Eq, Structural)]
pub enum SynthesisError {
    /// The attribute arguments are not a comma-separated list of string
    /// literals.
    ArgumentsNotStringLiterals,
    /// The attribute arguments are string literals, but not exactly three
    /// of them.
    WrongArgumentCount { found: usize },
    /// The decorated item is not a function definition.
    NotAFunction,
}

/// One emitted getter: a function under the mangled export symbol that
/// returns a pointer to a read-only, null-terminated buffer holding the
/// metadata literal.
pub open spec fn getter_def(sym: Seq<char>, local_name: Seq<char>, lit: Seq<char>) -> Seq<char> {
    "#[export_name = \""@ + sym + "\"]\npub extern \"C\" fn "@ + local_name
        + "() -> *const u8 {\n    concat!(\""@ + escape_seq(lit)
        + "\", \"\\0\").as_ptr()\n}\n\n"@
}

/// The emitted context setter: forwards one opaque pointer, unchanged, to
/// the GUI library's install call.
pub open spec fn setter_def(sym: Seq<char>) -> Seq<char> {
    "#[export_name = \""@ + sym
        + "\"]\npub unsafe extern \"C\" fn set_imgui_context(context: *mut ::hex::imgui::sys::ImGuiContext) {\n    ::hex::imgui::sys::igSetCurrentContext(context);\n}\n\n"@
}

/// The emitted initialization export: the author's function, verbatim,
/// bound to the mangled export symbol.
pub open spec fn init_def(sym: Seq<char>, item: Seq<char>) -> Seq<char> {
    "#[export_name = \""@ + sym + "\"]\npub extern \"C\" "@ + item + "\n"@
}

/// The whole output text: the five export definitions, in the fixed
/// order, each bound to the mangled symbol for its logical name.
pub open spec fn render_spec(
    pkg: Seq<char>,
    name: Seq<char>,
    author: Seq<char>,
    description: Seq<char>,
    item: Seq<char>,
) -> Seq<char> {
    getter_def(mangle_spec(pkg, "getPluginName"@), "plugin_name"@, name) + getter_def(
        mangle_spec(pkg, "getPluginAuthor"@),
        "plugin_author"@,
        author,
    ) + getter_def(mangle_spec(pkg, "getPluginDescription"@), "plugin_description"@, description)
        + setter_def(mangle_spec(pkg, "setImGuiContext"@)) + init_def(
        mangle_spec(pkg, "initializePlugin"@),
        item,
    )
}

/// The synthesizer's outcome on given source text: the rendered output
/// when the attribute is exactly three string literals and the item is a
/// function, `None` otherwise.
pub open spec fn synth_output(pkg: Seq<char>, attr: Seq<char>, item: Seq<char>) -> Option<
    Seq<char>,
> {
    match parsed_str_lit_args(attr) {
        Some(args) => if args.len() == 3 && is_fn_item(item) {
            Some(render_spec(pkg, args[0], args[1], args[2], item))
        } else {
            None
        },
        None => None,
    }
}

/// The diagnostic reported for given source text: unparsable arguments are
/// reported first, then a wrong argument count, then a malformed item.
pub open spec fn synth_error(attr: Seq<char>, item: Seq<char>) -> SynthesisError {
    match parsed_str_lit_args(attr) {
        None => SynthesisError::ArgumentsNotStringLiterals,
        Some(args) => if args.len() != 3 {
            SynthesisError::WrongArgumentCount { found: args.len() as usize }
        } else {
            SynthesisError::NotAFunction
        },
    }
}

fn append_getter(out: &mut String, sym: &str, local_name: &str, lit: &str)
    ensures
        final(out)@ == old(out)@ + getter_def(sym@, local_name@, lit@),
{
    out.append("#[export_name = \"");
    out.append(sym);
    out.append("\"]\npub extern \"C\" fn ");
    out.append(local_name);
    out.append("() -> *const u8 {\n    concat!(\"");
    let esc = escape_literal(lit);
    out.append(esc.as_str());
    out.append("\", \"\\0\").as_ptr()\n}\n\n");
    assert(out@ =~= old(out)@ + getter_def(sym@, local_name@, lit@));
}

fn append_setter(out: &mut String, sym: &str)
    ensures
        final(out)@ == old(out)@ + setter_def(sym@),
{
    out.append("#[export_name = \"");
    out.append(sym);
    out.append(
        "\"]\npub unsafe extern \"C\" fn set_imgui_context(context: *mut ::hex::imgui::sys::ImGuiContext) {\n    ::hex::imgui::sys::igSetCurrentContext(context);\n}\n\n",
    );
    assert(out@ =~= old(out)@ + setter_def(sym@));
}

fn append_init(out: &mut String, sym: &str, item: &str)
    ensures
        final(out)@ == old(out)@ + init_def(sym@, item@),
{
    out.append("#[export_name = \"");
    out.append(sym);
    out.append("\"]\npub extern \"C\" ");
    out.append(item);
    out.append("\n");
    assert(out@ =~= old(out)@ + init_def(sym@, item@));
}

/// Renders the five export definitions from already validated inputs: the
/// three metadata literals and the text of the author's function item,
/// kept verbatim.
pub fn generate(pkg: &str, name: &str, author: &str, description: &str, init_item: &str) -> (r:
    String)
    requires
        pkg@.len() > 0,
    ensures
        r@ == render_spec(pkg@, name@, author@, description@, init_item@),
{
    proof {
        reveal_strlit("getPluginName");
        reveal_strlit("getPluginAuthor");
        reveal_strlit("getPluginDescription");
        reveal_strlit("setImGuiContext");
        reveal_strlit("initializePlugin");
    }
    let mut out = String::new();
    let sym_name = mangle(pkg, "getPluginName");
    append_getter(&mut out, sym_name.as_str(), "plugin_name", name);
    let sym_author = mangle(pkg, "getPluginAuthor");
    append_getter(&mut out, sym_author.as_str(), "plugin_author", author);
    let sym_description = mangle(pkg, "getPluginDescription");
    append_getter(&mut out, sym_description.as_str(), "plugin_description", description);
    let sym_context = mangle(pkg, "setImGuiContext");
    append_setter(&mut out, sym_context.as_str());
    let sym_init = mangle(pkg, "initializePlugin");
    append_init(&mut out, sym_init.as_str(), init_item);
    assert(out@ =~= render_spec(pkg@, name@, author@, description@, init_item@));
    out
}

/// The whole generation step on source text: validates that the attribute
/// holds exactly three string literals and that the decorated item is a
/// function, then renders the five export definitions; on failure reports
/// a diagnostic and produces no output text.
pub fn plugin_setup(pkg: &str, attr: &str, item: &str) -> (r: Result<String, SynthesisError>)
    requires
        pkg@.len() > 0,
    ensures
        r is Ok <==> synth_output(pkg@, attr@, item@) is Some,
        r matches Ok(out) ==> Some(out@) == synth_output(pkg@, attr@, item@),
        r matches Err(e) ==> e == synth_error(attr@, item@),
{
    let args = match parse_str_lit_args(attr) {
        Some(v) => v,
        None => {
            return Err(SynthesisError::ArgumentsNotStringLiterals);
        },
    };
    if args.len() != 3 {
        return Err(SynthesisError::WrongArgumentCount { found: args.len() });
    }
    if !parse_fn_item(item) {
        return Err(SynthesisError::NotAFunction);
    }
    proof {
        let m = parsed_str_lit_args(attr@).unwrap();
        assert(m =~= args@.map_values(|x: String| x@));
        assert(m[0] == args@[0]@);
        assert(m[1] == args@[1]@);
        assert(m[2] == args@[2]@);
    }
    let out = generate(pkg, args[0].as_str(), args[1].as_str(), args[2].as_str(), item);
    Ok(out)
}

/// Determinism: two generation runs on identical source text produce
/// byte-identical output.
pub proof fn lemma_generation_deterministic(
    pkg: Seq<char>,
    attr: Seq<char>,
    item: Seq<char>,
    out1: Seq<char>,
    out2: Seq<char>,
)
    requires
        synth_output(pkg, attr, item) == Some(out1),
        synth_output(pkg, attr, item) == Some(out2),
    ensures
        out1 == out2,
{
}

} // verus!
