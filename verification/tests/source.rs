use polars_ocaml_macros::{export_from_source, GenError, Pattern};

#[test]
fn a_declaration_is_read_out_of_source_text() {
    let src = "fn rust_expr_col(cr: &mut &mut OCamlRuntime, name: OCamlRef<String>) -> OCaml<DynBox<Expr>> { let name: String = name.to_rust(cr); OCaml::box_value(cr, col(&name)) }";
    let g = export_from_source(&vec![], src).unwrap();
    assert_eq!(g.native.name, "rust_expr_col");
    assert_eq!(g.native.params, vec!["name".to_string()]);
    assert_eq!(g.native.runtime_name, "cr");
    assert!(!g.native.raise_on_err);
    assert!(g.bridge.is_none());
    match &g.native.locals[0].pat {
        Pattern::Name(n) => assert_eq!(n, "name"),
        Pattern::Other => panic!("expected a named pattern"),
    }
    assert_eq!(g.native.locals[0].ty, "OCamlRef < String >");
    assert_eq!(g.native.return_type, "OCaml < DynBox < Expr > >");
}

#[test]
fn seven_parameters_in_source_text_generate_a_bridge() {
    let src = "fn rust_expr_sample_n(cr: &mut &mut OCamlRuntime, expr: OCamlRef<DynBox<Expr>>, n: OCamlRef<OCamlInt>, with_replacement: OCamlRef<bool>, shuffle: OCamlRef<bool>, seed: OCamlRef<Option<OCamlInt>>, fixed_seed: OCamlRef<bool>) -> OCaml<DynBox<Expr>> { unimplemented() }";
    let g = export_from_source(&vec!["raise_on_err".to_string()], src).unwrap();
    assert!(g.native.raise_on_err);
    assert_eq!(g.native.params.len(), 6);
    let bridge = g.bridge.unwrap();
    assert_eq!(bridge.name, "rust_expr_sample_n_bytecode");
    assert_eq!(bridge.arity, 6);
}

#[test]
fn text_that_is_no_function_is_rejected() {
    let e = export_from_source(&vec![], "struct NotAFunction;").unwrap_err();
    assert!(matches!(e, GenError::Unparseable));
}

#[test]
fn a_bad_token_is_reported_before_unparseable_text() {
    let e = export_from_source(&vec!["frobnicate".to_string()], "struct NotAFunction;")
        .unwrap_err();
    match &e {
        GenError::UnexpectedArgument { token, given } => {
            assert_eq!(token, "frobnicate");
            assert_eq!(given, &vec!["frobnicate".to_string()]);
        }
        _ => panic!("expected an unexpected-argument error"),
    }
}

#[test]
fn a_receiver_in_source_text_is_rejected() {
    let e = export_from_source(&vec![], "fn m(&self, x: i64) -> i64 { x }").unwrap_err();
    assert!(matches!(e, GenError::ReceiverNotSupported));
}

#[test]
fn a_tuple_pattern_in_source_text_is_rejected() {
    let e = export_from_source(
        &vec![],
        "fn f(cr: &mut &mut OCamlRuntime, (a, b): (i64, i64)) -> i64 { a }",
    )
    .unwrap_err();
    assert!(matches!(e, GenError::ExpectedIdent));
}

#[test]
fn source_text_without_a_return_type_is_rejected() {
    let e = export_from_source(
        &vec![],
        "fn f(cr: &mut &mut OCamlRuntime, x: OCamlRef<bool>) { }",
    )
    .unwrap_err();
    assert!(matches!(e, GenError::NoReturnType));
}
