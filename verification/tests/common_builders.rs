// Builders shared by the other test files are repeated there: each file is
// its own crate. This file checks the builders' defaults themselves.
use cairo_lint::semantic::{CallArg, Expr, FunctionCall, TraitFunction};

fn call(path: &str, args: Vec<CallArg>) -> FunctionCall {
    FunctionCall {
        full_path: path.to_string(),
        trait_name: String::new(),
        is_impl: false,
        trait_function: TraitFunction::Other,
        function_name: String::new(),
        impl_path: String::new(),
        impl_in_corelib_integer: false,
        impl_is_t_copy_clone: false,
        is_extern_panic: false,
        is_panic_with_byte_array: false,
        returns_never: false,
        debug_name: String::new(),
        args,
        arg_tys: vec![],
    }
}

#[test]
fn plain_call_is_not_a_lint_target() {
    let c = call("core::foo", vec![CallArg::Value(Expr::Other)]);
    assert!(!cairo_lint::lints::clone_on_copy::check_clone_usage(&c));
    assert!(!cairo_lint::lints::performance::inefficient_unwrap_or::is_inefficient_unwrap_or_call(&c));
    assert!(cairo_lint::lints::int_op_one::check_single_int_op_one(&c).is_empty());
}
