use plugin_codegen::literal::escape_literal;
use plugin_codegen::literal::read_null_terminated;
use plugin_codegen::literal::unescape_literal;
use plugin_codegen::mangle::mangle;
use plugin_codegen::synth::generate;
use plugin_codegen::synth::plugin_setup;
use plugin_codegen::synth::SynthesisError;

#[test]
fn mangle_myplugin_get_plugin_name() {
    assert_eq!(
        mangle("myplugin", "getPluginName"),
        "_ZN3hex6plugin8myplugin8internal13getPluginNameEv"
    );
}

#[test]
fn mangle_one_char_package_initialize_plugin() {
    assert_eq!(
        mangle("a", "initializePlugin"),
        "_ZN3hex6plugin1a8internal16initializePluginEv"
    );
}

#[test]
fn mangle_all_five_logical_names() {
    let cases = [
        ("getPluginName", "_ZN3hex6plugin8myplugin8internal13getPluginNameEv"),
        ("getPluginAuthor", "_ZN3hex6plugin8myplugin8internal15getPluginAuthorEv"),
        (
            "getPluginDescription",
            "_ZN3hex6plugin8myplugin8internal20getPluginDescriptionEv",
        ),
        ("setImGuiContext", "_ZN3hex6plugin8myplugin8internal15setImGuiContextEv"),
        ("initializePlugin", "_ZN3hex6plugin8myplugin8internal16initializePluginEv"),
    ];
    for (logical, expected) in cases {
        assert_eq!(mangle("myplugin", logical), expected);
    }
}

#[test]
fn mangle_length_prefix_is_decimal_of_length() {
    assert_eq!(
        mangle("0123456789ab", "getPluginName"),
        "_ZN3hex6plugin120123456789ab8internal13getPluginNameEv"
    );
}

#[test]
fn generation_emits_the_full_template() {
    let out = plugin_setup(
        "myplugin",
        r#""My Plugin", "Me", "Does things""#,
        "fn init() {}",
    )
    .unwrap();
    let expected = r#"#[export_name = "_ZN3hex6plugin8myplugin8internal13getPluginNameEv"]
pub extern "C" fn plugin_name() -> *const u8 {
    concat!("My Plugin", "\0").as_ptr()
}

#[export_name = "_ZN3hex6plugin8myplugin8internal15getPluginAuthorEv"]
pub extern "C" fn plugin_author() -> *const u8 {
    concat!("Me", "\0").as_ptr()
}

#[export_name = "_ZN3hex6plugin8myplugin8internal20getPluginDescriptionEv"]
pub extern "C" fn plugin_description() -> *const u8 {
    concat!("Does things", "\0").as_ptr()
}

#[export_name = "_ZN3hex6plugin8myplugin8internal15setImGuiContextEv"]
pub unsafe extern "C" fn set_imgui_context(context: *mut ::hex::imgui::sys::ImGuiContext) {
    ::hex::imgui::sys::igSetCurrentContext(context);
}

#[export_name = "_ZN3hex6plugin8myplugin8internal16initializePluginEv"]
pub extern "C" fn init() {}
"#;
    assert_eq!(out, expected);
}

#[test]
fn generation_is_deterministic() {
    let attr = r#""My Plugin", "Me", "Does things""#;
    let item = "fn init() { do_things(); }";
    let first = plugin_setup("myplugin", attr, item).unwrap();
    let second = plugin_setup("myplugin", attr, item).unwrap();
    assert_eq!(first, second);
}

#[test]
fn generation_matches_direct_rendering() {
    let out = plugin_setup("p", r#""N", "A", "D""#, "fn init() {}").unwrap();
    assert_eq!(out, generate("p", "N", "A", "D", "fn init() {}"));
}

#[test]
fn two_arguments_are_refused() {
    let r = plugin_setup("myplugin", r#""My Plugin", "Me""#, "fn init() {}");
    assert_eq!(r, Err(SynthesisError::WrongArgumentCount { found: 2 }));
}

#[test]
fn four_arguments_are_refused() {
    let r = plugin_setup("myplugin", r#""a", "b", "c", "d""#, "fn init() {}");
    assert_eq!(r, Err(SynthesisError::WrongArgumentCount { found: 4 }));
}

#[test]
fn empty_argument_list_is_refused() {
    let r = plugin_setup("myplugin", "", "fn init() {}");
    assert_eq!(r, Err(SynthesisError::WrongArgumentCount { found: 0 }));
}

#[test]
fn non_literal_arguments_are_refused() {
    let r = plugin_setup("myplugin", r#""My Plugin", "Me", 3 + 4"#, "fn init() {}");
    assert_eq!(r, Err(SynthesisError::ArgumentsNotStringLiterals));
}

#[test]
fn non_function_item_is_refused() {
    let r = plugin_setup(
        "myplugin",
        r#""My Plugin", "Me", "Does things""#,
        "struct NotAFunction;",
    );
    assert_eq!(r, Err(SynthesisError::NotAFunction));
}

#[test]
fn trailing_comma_is_accepted() {
    let r = plugin_setup("myplugin", r#""N", "A", "D","#, "fn init() {}");
    assert!(r.is_ok());
}

#[test]
fn metadata_with_quotes_is_reescaped() {
    let out = plugin_setup("p", r#""A\"B", "x", "y""#, "fn init() {}").unwrap();
    assert!(out.contains(r#"concat!("A\"B", "\0").as_ptr()"#));
}

#[test]
fn empty_metadata_literal_is_kept_empty() {
    let out = plugin_setup("p", r#""", "x", "y""#, "fn init() {}").unwrap();
    assert!(out.contains(r#"concat!("", "\0").as_ptr()"#));
}

#[test]
fn escape_handles_quotes_backslashes_and_controls() {
    assert_eq!(escape_literal(r#"a"b"#), r#"a\"b"#);
    assert_eq!(escape_literal("a\\b"), r#"a\\b"#);
    assert_eq!(escape_literal("a\nb\tc\rd"), r#"a\nb\tc\rd"#);
    assert_eq!(escape_literal("plain text"), "plain text");
}

#[test]
fn escaped_literal_reads_back_unchanged() {
    let original = "A \"quoted\" name, a \\ backslash,\nand a newline";
    let escaped = escape_literal(original);
    assert_eq!(unescape_literal(&escaped), Some(original.to_string()));
}

#[test]
fn malformed_literal_bodies_are_refused() {
    assert_eq!(unescape_literal("trailing\\"), None);
    assert_eq!(unescape_literal("bad\\qescape"), None);
    assert_eq!(unescape_literal("bare\"quote"), None);
}

#[test]
fn null_terminated_read_returns_the_literal() {
    assert_eq!(read_null_terminated("My Plugin\0"), "My Plugin");
    assert_eq!(read_null_terminated("My Plugin\0trailing junk"), "My Plugin");
    assert_eq!(read_null_terminated("no terminator"), "no terminator");
    assert_eq!(read_null_terminated("\0"), "");
}
