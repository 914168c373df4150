use simple_codegen::{Bound, Lint, Scope, Type};

#[test]
fn function_basic() {
    let mut scope = Scope::new();
    scope
        .new_function("test_fn")
        .set_vis(simple_codegen::Vis::Pub)
        .push_arg("foo", Type::new("uint"))
        .set_ret(Type::new("uint"))
        .push_line("let res = foo + 1;")
        .push_line("res")
        .set_doc("This is a test function.");

    let expect = r#"
/// This is a test function.
pub fn test_fn(foo: uint) -> uint {
    let res = foo + 1;
    res
}"#;

    assert_eq!(scope.to_string(), expect.trim_start());
}

#[test]
fn function_with_lint() {
    let mut scope = Scope::new();
    scope
        .new_function("test_fn")
        .set_ret(Type::new("uint"))
        .push_line("1")
        .push_lint(Lint::allow("clippy::too_many_arguments"));

    let expect = r#"
#[allow(clippy::too_many_arguments)]
fn test_fn() -> uint {
    1
}"#;

    assert_eq!(scope.to_string(), expect.trim_start());
}

#[test]
fn function_with_generics_and_bounds() {
    let mut scope = Scope::new();
    scope
        .new_function("test_fn")
        .set_async(true)
        .push_generic("T")
        .push_bound(Bound::new("T", vec!["Clone".to_string()]))
        .set_ret(Type::new("T"))
        .push_line("unimplemented!();");

    let expect = r#"
async fn test_fn<T>() -> T
where T: Clone,
{
    unimplemented!();
}"#;

    assert_eq!(scope.to_string(), expect.trim_start());
}

#[test]
fn function_with_self_and_abi() {
    let mut scope = Scope::new();
    scope
        .new_function("touch")
        .set_self_arg(simple_codegen::SelfArg::WithMutSelfRef)
        .push_arg("amount", Type::new("usize"))
        .set_extern_abi("C")
        .push_line("self.count += amount;");

    let expect = r#"
extern "C" fn touch(&mut self, amount: usize) {
    self.count += amount;
}"#;

    assert_eq!(scope.to_string(), expect.trim_start());
}

#[test]
fn function_with_nested_block() {
    let mut scope = Scope::new();
    let block = simple_codegen::Block::new()
        .with_line("inner();")
        .with_block(simple_codegen::Block::new().with_line("deeper();"));
    scope
        .new_function("test_fn")
        .push_line("before();")
        .push_block(block);

    let expect = r#"
fn test_fn() {
    before();
    {
        inner();
        {
            deeper();
        }
    }
}"#;

    assert_eq!(scope.to_string(), expect.trim_start());
}
