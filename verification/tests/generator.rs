use polars_ocaml_macros::{
    ocaml_interop_backtrace_support, ocaml_interop_export, parse_macro_args, FnArg, FnDecl,
    GenError, Param, Pattern,
};

fn named(n: &str, ty: &str) -> FnArg {
    FnArg::Typed(Param {
        pat: Pattern::Name(n.to_string()),
        ty: ty.to_string(),
    })
}

fn col_decl() -> FnDecl {
    FnDecl {
        name: "rust_expr_col".to_string(),
        inputs: vec![
            named("cr", "&mut &mut OCamlRuntime"),
            named("name", "OCamlRef<String>"),
        ],
        output: Some("OCaml<DynBox<Expr>>".to_string()),
        body: "{ let name: String = name.to_rust(cr); OCaml::box_value(cr, col(&name)) }"
            .to_string(),
    }
}

fn sample_n_decl() -> FnDecl {
    FnDecl {
        name: "rust_expr_sample_n".to_string(),
        inputs: vec![
            named("cr", "&mut &mut OCamlRuntime"),
            named("expr", "OCamlRef<DynBox<Expr>>"),
            named("n", "OCamlRef<OCamlInt>"),
            named("with_replacement", "OCamlRef<bool>"),
            named("shuffle", "OCamlRef<bool>"),
            named("seed", "OCamlRef<Option<OCamlInt>>"),
            named("fixed_seed", "OCamlRef<bool>"),
        ],
        output: Some("OCaml<DynBox<Expr>>".to_string()),
        body: "{ expr.sample_n(n, with_replacement, shuffle, seed, fixed_seed) }".to_string(),
    }
}

#[test]
fn test_simple_function() {
    let g = ocaml_interop_export(&vec![], &col_decl()).unwrap();
    assert_eq!(g.native.name, "rust_expr_col");
    assert_eq!(g.native.params, vec!["name".to_string()]);
    assert!(!g.native.raise_on_err);
    assert_eq!(g.native.runtime_name, "cr");
    assert_eq!(g.native.locals.len(), 1);
    match &g.native.locals[0].pat {
        Pattern::Name(n) => assert_eq!(n, "name"),
        Pattern::Other => panic!("expected a named pattern"),
    }
    assert_eq!(g.native.locals[0].ty, "OCamlRef<String>");
    assert_eq!(g.native.return_type, "OCaml<DynBox<Expr>>");
    assert!(g.bridge.is_none());

    let g = ocaml_interop_export(&vec!["raise_on_err".to_string()], &col_decl()).unwrap();
    assert!(g.native.raise_on_err);
    assert_eq!(g.native.params, vec!["name".to_string()]);
    assert!(g.bridge.is_none());
}

#[test]
fn test_bytecode_generation() {
    let g = ocaml_interop_export(&vec!["raise_on_err".to_string()], &sample_n_decl()).unwrap();
    assert_eq!(g.native.name, "rust_expr_sample_n");
    assert_eq!(
        g.native.params,
        vec![
            "expr".to_string(),
            "n".to_string(),
            "with_replacement".to_string(),
            "shuffle".to_string(),
            "seed".to_string(),
            "fixed_seed".to_string(),
        ]
    );
    assert!(g.native.raise_on_err);
    let bridge = g.bridge.unwrap();
    assert_eq!(bridge.name, "rust_expr_sample_n_bytecode");
    assert_eq!(bridge.arity, 6);
    assert_eq!(bridge.forwards, vec![0, 1, 2, 3, 4, 5]);
}

#[test]
fn five_arguments_need_no_bridge() {
    let mut decl = sample_n_decl();
    decl.inputs.truncate(6);
    let g = ocaml_interop_export(&vec![], &decl).unwrap();
    assert_eq!(g.native.params.len(), 5);
    assert!(g.bridge.is_none());
}

#[test]
fn receiver_is_rejected() {
    let mut decl = col_decl();
    decl.inputs[0] = FnArg::Receiver;
    let e = ocaml_interop_export(&vec![], &decl).unwrap_err();
    assert!(matches!(e, GenError::ReceiverNotSupported));
    assert_eq!(e.message(), "receiver not supported");
}

#[test]
fn receiver_after_handle_is_rejected() {
    let mut decl = col_decl();
    decl.inputs[1] = FnArg::Receiver;
    decl.output = None;
    let e = ocaml_interop_export(&vec![], &decl).unwrap_err();
    assert!(matches!(e, GenError::ReceiverNotSupported));
}

#[test]
fn bad_binding_pattern_is_rejected() {
    let mut decl = col_decl();
    decl.inputs[1] = FnArg::Typed(Param {
        pat: Pattern::Other,
        ty: "(i64, i64)".to_string(),
    });
    let e = ocaml_interop_export(&vec![], &decl).unwrap_err();
    assert!(matches!(e, GenError::ExpectedIdent));
    assert_eq!(e.message(), "expected ident");
}

#[test]
fn missing_return_type_is_rejected() {
    let mut decl = col_decl();
    decl.output = None;
    let e = ocaml_interop_export(&vec![], &decl).unwrap_err();
    assert!(matches!(e, GenError::NoReturnType));
    assert_eq!(
        e.message(),
        "functions with no return type are not supported"
    );
}

#[test]
fn missing_return_type_is_seen_before_late_bad_pattern() {
    let mut decl = col_decl();
    decl.inputs[1] = FnArg::Typed(Param {
        pat: Pattern::Other,
        ty: "(i64, i64)".to_string(),
    });
    decl.output = None;
    let e = ocaml_interop_export(&vec![], &decl).unwrap_err();
    assert!(matches!(e, GenError::NoReturnType));
}

#[test]
fn empty_parameter_list_is_rejected() {
    let mut decl = col_decl();
    decl.inputs.clear();
    let e = ocaml_interop_export(&vec![], &decl).unwrap_err();
    assert!(matches!(e, GenError::MissingHandle));
}

#[test]
fn recognized_flags_are_parsed() {
    assert!(!parse_macro_args(&vec![]).unwrap().raise_on_err);
    assert!(parse_macro_args(&vec!["raise_on_err".to_string()])
        .unwrap()
        .raise_on_err);
    assert!(
        parse_macro_args(&vec!["raise_on_err".to_string(), "raise_on_err".to_string()])
            .unwrap()
            .raise_on_err
    );
}

#[test]
fn unrecognized_flag_is_rejected_with_full_token_set() {
    let args = vec!["raise_on_err".to_string(), "raise_on_error".to_string()];
    let e = parse_macro_args(&args).unwrap_err();
    match &e {
        GenError::UnexpectedArgument { token, given } => {
            assert_eq!(token, "raise_on_error");
            assert_eq!(given, &args);
        }
        _ => panic!("expected an unexpected-argument error"),
    }
    assert_eq!(
        e.message(),
        "unexpected argument in ocaml_interop_export: raise_on_error in [\"raise_on_err\", \"raise_on_error\"]"
    );
}

#[test]
fn unrecognized_flag_fails_before_the_declaration_is_checked() {
    let mut decl = col_decl();
    decl.output = None;
    let e = ocaml_interop_export(&vec!["frobnicate".to_string()], &decl).unwrap_err();
    match &e {
        GenError::UnexpectedArgument { token, given } => {
            assert_eq!(token, "frobnicate");
            assert_eq!(given, &vec!["frobnicate".to_string()]);
        }
        _ => panic!("expected an unexpected-argument error"),
    }
    assert_eq!(
        e.message(),
        "unexpected argument in ocaml_interop_export: frobnicate in [\"frobnicate\"]"
    );
}

#[test]
fn backtrace_support_generates_the_two_lifecycle_functions() {
    let support = ocaml_interop_backtrace_support();
    assert_eq!(support.record.native.name, "rust_record_panic_backtraces");
    assert_eq!(support.record.native.params, vec!["unit".to_string()]);
    assert_eq!(support.record.native.runtime_name, "cr");
    assert!(!support.record.native.raise_on_err);
    assert!(support.record.bridge.is_none());
    assert_eq!(support.record.native.locals.len(), 1);
    assert_eq!(support.record.native.locals[0].ty, "::ocaml_interop::OCamlRef<()>");
    assert_eq!(support.record.native.return_type, "::ocaml_interop::OCaml<()>");
    assert!(support.record.native.body.contains("::std::panic::take_hook()"));
    assert!(support
        .record
        .native
        .body
        .contains("::std::backtrace::Backtrace::force_capture()"));
    assert_eq!(support.clear.native.name, "rust_clear_panic_hook");
    assert_eq!(support.clear.native.params, vec!["unit".to_string()]);
    assert_eq!(support.clear.native.runtime_name, "cr");
    assert!(!support.clear.native.raise_on_err);
    assert!(support.clear.bridge.is_none());
    assert_eq!(support.clear.native.locals.len(), 1);
    assert_eq!(support.clear.native.locals[0].ty, "::ocaml_interop::OCamlRef<()>");
    assert_eq!(support.clear.native.return_type, "::ocaml_interop::OCaml<()>");
    assert_eq!(
        support.clear.native.body,
        "{ let () = unit.to_rust(cr); ::std::panic::set_hook(::std::boxed::Box::new(|_panic_info| ())); ::ocaml_interop::OCaml::unit() }"
    );
}
