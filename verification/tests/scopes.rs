use simple_codegen::{Field, Scope, Type, Vis};

#[test]
fn empty_scope() {
    let scope = Scope::new();
    assert_eq!(scope.to_string(), "");
}

#[test]
fn scope_with_doc() {
    let mut scope = Scope::new();
    scope.set_doc("This is a test scope.");

    let expect = r#"/// This is a test scope."#;

    assert_eq!(scope.to_string(), expect);
}

#[test]
fn scope_with_imports() {
    let mut scope = Scope::new();
    scope
        .push_import("bar", "Bar", Vis::Private)
        .push_import("baz", "Baz", Vis::Private);

    let expect = r#"
use bar::Bar;
use baz::Baz;
"#;

    assert_eq!(scope.to_string(), expect.trim_start());
}

#[test]
fn scope_with_repeated_import_paths() {
    let mut scope = Scope::new();
    scope
        .push_import("bar", "Bar", Vis::Private)
        .push_import("bar", "Bar2", Vis::Private)
        .push_import("baz", "Baz", Vis::Private);

    let expect = r#"
use bar::{Bar, Bar2};
use baz::Baz;
"#;

    assert_eq!(scope.to_string(), expect.trim_start());
}

#[test]
fn scope_with_overlapping_import_paths() {
    let mut scope = Scope::new();
    scope
        .push_import("bar", "Bar", Vis::Private)
        .push_import("bar", "Bar2", Vis::Private)
        .push_import("bar::inner", "Bar3", Vis::Private)
        .push_import("baz", "Baz", Vis::Private);

    let expect = r#"
use bar::{Bar, Bar2};
use bar::inner::Bar3;
use baz::Baz;
"#;

    assert_eq!(scope.to_string(), expect.trim_start());
}

#[test]
fn get_or_new_module() {
    let mut scope = Scope::new();
    assert!(scope.get_module("foo").is_none());

    scope
        .get_or_new_module("foo")
        .push_import("bar", "Bar", Vis::Private);

    scope
        .get_or_new_module("foo")
        .new_struct("Foo")
        .push_named_field(Field::new("bar", Type::new("Bar")));

    let expect = r#"
mod foo {
    use bar::Bar;

    struct Foo {
        bar: Bar,
    }
}"#;

    assert_eq!(scope.to_string(), &expect[1..]);
}

#[test]
fn module_mut() {
    let mut scope = Scope::new();
    scope.new_module("foo").push_import("bar", "Bar", Vis::Pub);

    scope
        .get_module_mut("foo")
        .expect("module_mut")
        .new_struct("Foo")
        .push_named_field(Field::new("bar", Type::new("Bar")));

    let expect = r#"
mod foo {
    pub use bar::Bar;

    struct Foo {
        bar: Bar,
    }
}"#;

    assert_eq!(scope.to_string(), &expect[1..]);
}

#[test]
fn two_structs() {
    let mut scope = Scope::new();

    scope
        .new_struct("Foo")
        .push_named_field(Field::new("one", Type::new("usize")))
        .push_named_field(Field::new("two", Type::new("String")));

    scope
        .new_struct("Bar")
        .push_named_field(Field::new("hello", Type::new("World")));

    let expect = r#"
struct Foo {
    one: usize,
    two: String,
}

struct Bar {
    hello: World,
}"#;

    assert_eq!(scope.to_string(), &expect[1..]);
}

#[test]
fn mixed_visibility_imports() {
    let mut scope = Scope::new();
    scope
        .push_import("alpha", "A", Vis::Private)
        .push_import("alpha", "B", Vis::Pub)
        .push_import("beta", "C", Vis::Private)
        .push_import("beta", "D", Vis::Pub);

    let expect = r#"
use alpha::A;
use beta::C;
pub use alpha::B;
pub use beta::D;
"#;

    assert_eq!(scope.to_string(), expect.trim_start());
}

#[test]
fn duplicate_import_keeps_first_visibility() {
    let mut scope = Scope::new();
    scope
        .push_import("bar", "Bar", Vis::Private)
        .push_import("bar", "Bar", Vis::Pub);

    let expect = r#"
use bar::Bar;
"#;

    assert_eq!(scope.to_string(), expect.trim_start());
}

#[test]
fn nested_import_name_collapses_to_first_segment() {
    let mut scope = Scope::new();
    scope.push_import("bar", "baz::Deep", Vis::Private);

    assert_eq!(scope.to_string(), "use bar::baz;\n");
}

#[test]
fn raw_and_line_break_items() {
    let mut scope = Scope::new();
    scope.raw("// a raw line");
    scope.push_line_break();
    scope.raw("// another");

    let expect = "// a raw line\n\n\n// another";

    assert_eq!(scope.to_string(), expect);
}
