use simple_codegen::{
    Doc, File, Formatter, Library, LibraryCodegenError, Lint, Scope, Variant, Vis,
};

#[test]
fn formatter_indents_nested_blocks_by_four() {
    let mut f = Formatter::new();
    f.write_str("level zero");
    f.open_block();
    f.write_str("level one");
    f.open_block();
    f.write_str("level two\n");
    f.close_block();
    f.write_str("\n");
    f.close_block();
    f.write_str("\n");
    let out = f.finish();
    let expect = "level zero {\n    level one {\n        level two\n    }\n}";
    assert_eq!(out, expect);
}

#[test]
fn formatter_blank_lines_carry_no_indentation() {
    let mut f = Formatter::new();
    f.open_block();
    f.write_str("a\n\nb\n");
    f.close_block();
    f.write_str("\n");
    let out = f.finish();
    assert_eq!(out, "{\n    a\n\n    b\n}");
}

#[test]
fn formatter_tracks_line_starts() {
    let mut f = Formatter::new();
    assert!(f.is_start_of_line());
    f.write_str("token");
    assert!(!f.is_start_of_line());
    f.write_str("\n");
    assert!(f.is_start_of_line());
}

#[test]
fn doc_renders_blank_lines_without_trailing_space() {
    let d = Doc::new("first\n\nlast");
    assert_eq!(d.to_text(), "/// first\n///\n/// last\n");
}

#[test]
fn lint_variants_render() {
    assert_eq!(Lint::allow("a").to_text(), "#[allow(a)]\n");
    assert_eq!(Lint::expect("b").to_text(), "#[expect(b)]\n");
    assert_eq!(Lint::warn("c").to_text(), "#[warn(c)]\n");
    assert_eq!(Lint::force_warn("d").to_text(), "#[force-warn(d)]\n");
    assert_eq!(Lint::deny("e").to_text(), "#[deny(e)]\n");
    assert_eq!(Lint::forbid("f").to_text(), "#[forbid(f)]\n");
}

#[test]
fn visibility_prefixes_render() {
    assert_eq!(Vis::Private.to_text(), "");
    assert_eq!(Vis::Pub.to_text(), "pub ");
    assert_eq!(Vis::PubCrate.to_text(), "pub(crate) ");
    assert_eq!(Vis::PubSelf.to_text(), "pub(self) ");
    assert_eq!(Vis::PubSuper.to_text(), "pub(super) ");
    assert_eq!(Vis::Custom("pub(in a)".to_string()).to_text(), "pub(in a) ");
}

#[test]
fn custom_visibility_on_imports() {
    let mut scope = Scope::new();
    scope.push_import("bar", "Bar", Vis::Custom("pub(in crate::x)".to_string()));
    assert_eq!(scope.to_string(), "pub(in crate::x) use bar::Bar;\n");
}

#[test]
fn variant_annotations_render_above_the_name() {
    let mut scope = Scope::new();
    scope
        .new_enum("E")
        .push_variant(Variant::new("A").with_annotation("#[serde(rename = \"a\")]"));

    let expect = "enum E {\n    #[serde(rename = \"a\")]\n    A,\n}";
    assert_eq!(scope.to_string(), expect);
}

#[test]
fn library_rejects_reserved_and_duplicate_paths() {
    let mut lib = Library::new("demo", "src");
    assert_eq!(lib.name(), "demo");
    assert_eq!(lib.path(), "src");

    match lib.push_file(File::new("lib.rs")) {
        Err(LibraryCodegenError::FileAlreadyExists(p)) => assert_eq!(p, "lib.rs"),
        _ => panic!("reserved path must be rejected"),
    }

    assert!(lib.push_file(File::new("a.rs")).is_ok());
    assert!(lib.push_file(File::new("b.rs")).is_ok());
    match lib.push_file(File::new("a.rs")) {
        Err(LibraryCodegenError::FileAlreadyExists(p)) => assert_eq!(p, "a.rs"),
        _ => panic!("duplicate path must be rejected"),
    }
    assert_eq!(lib.files().len(), 2);
}

#[test]
fn file_carries_its_scope() {
    let mut file = File::new("demo.rs");
    file.scope_mut().set_doc("One file.");
    assert_eq!(file.path(), "demo.rs");
    assert_eq!(file.scope().to_string(), "/// One file.");
}
