use polars_ocaml_macros::{
    nat_text, ocaml_interop_backtrace_support, ocaml_interop_export, render_backtrace_support,
    render_generated, FnArg, FnDecl, Param, Pattern,
};

fn named(n: &str, ty: &str) -> FnArg {
    FnArg::Typed(Param {
        pat: Pattern::Name(n.to_string()),
        ty: ty.to_string(),
    })
}

fn col_decl() -> FnDecl {
    FnDecl {
        name: "rust_expr_col".to_string(),
        inputs: vec![
            named("cr", "&mut &mut OCamlRuntime"),
            named("name", "OCamlRef<String>"),
        ],
        output: Some("OCaml<DynBox<Expr>>".to_string()),
        body: "{ let name: String = name.to_rust(cr); OCaml::box_value(cr, col(&name)) }"
            .to_string(),
    }
}

fn sample_n_decl() -> FnDecl {
    FnDecl {
        name: "rust_expr_sample_n".to_string(),
        inputs: vec![
            named("cr", "&mut &mut OCamlRuntime"),
            named("expr", "OCamlRef<DynBox<Expr>>"),
            named("n", "OCamlRef<OCamlInt>"),
            named("with_replacement", "OCamlRef<bool>"),
            named("shuffle", "OCamlRef<bool>"),
            named("seed", "OCamlRef<Option<OCamlInt>>"),
            named("fixed_seed", "OCamlRef<bool>"),
        ],
        output: Some("OCaml<DynBox<Expr>>".to_string()),
        body: "{ expr.sample_n(n, with_replacement, shuffle, seed, fixed_seed) }".to_string(),
    }
}

#[test]
fn decimal_text_has_no_leading_zeros() {
    assert_eq!(nat_text(0), "0");
    assert_eq!(nat_text(7), "7");
    assert_eq!(nat_text(10), "10");
    assert_eq!(nat_text(65536), "65536");
}

#[test]
fn a_small_declaration_renders_as_one_entry_point() {
    let g = ocaml_interop_export(&vec![], &col_decl()).unwrap();
    let text = render_generated(&g);
    assert_eq!(
        text,
        "#[no_mangle]\npub extern \"C\" fn rust_expr_col(name: ::ocaml_interop::RawOCaml) -> ::ocaml_interop::RawOCaml {\n    match ::std::panic::catch_unwind(|| {\n        let cr = unsafe { &mut ::ocaml_interop::OCamlRuntime::recover_handle() };\n        let name: OCamlRef<String> = &::ocaml_interop::BoxRoot::new(unsafe { OCaml::new(cr, name) });\n        {\n            let return_value: OCaml<DynBox<Expr>> = { let name: String = name.to_rust(cr); OCaml::box_value(cr, col(&name)) };\n            unsafe { return_value.raw() }\n        }\n    }) {\n        Ok(value) => value,\n        Err(cause) => {\n            let cr = unsafe { &mut ::ocaml_interop::OCamlRuntime::recover_handle() };\n            unsafe { raise_ocaml_exception_from_panic(cr, cause) }\n        },\n    }\n}\n"
    );
}

#[test]
fn rooting_uses_the_retained_handle_name() {
    let decl = FnDecl {
        name: "rust_expr_col".to_string(),
        inputs: vec![
            named("rt", "&mut &mut OCamlRuntime"),
            named("name", "OCamlRef<String>"),
        ],
        output: Some("OCaml<DynBox<Expr>>".to_string()),
        body: "{ name.to_rust(rt) }".to_string(),
    };
    let g = ocaml_interop_export(&vec![], &decl).unwrap();
    let text = render_generated(&g);
    assert!(text.contains("let rt = unsafe { &mut ::ocaml_interop::OCamlRuntime::recover_handle() };"));
    assert!(text.contains("OCaml::new(rt, name)"));
    assert!(!text.contains("OCaml::new(cr, name)"));
}

#[test]
fn the_support_expansion_renders_slot_lifecycle_and_raise_paths() {
    let support = ocaml_interop_backtrace_support();
    let text = render_backtrace_support(&support);
    assert!(text.starts_with("thread_local! {\n    static LAST_BACKTRACE:"));
    assert!(text.contains("pub extern \"C\" fn rust_record_panic_backtraces(unit: ::ocaml_interop::RawOCaml)"));
    assert!(text.contains("pub extern \"C\" fn rust_clear_panic_hook(unit: ::ocaml_interop::RawOCaml)"));
    assert!(text.contains("::std::panic::take_hook()"));
    assert!(text.contains("::std::backtrace::Backtrace::force_capture()"));
    assert!(text.contains("::std::panic::set_hook(::std::boxed::Box::new(|_panic_info| ()))"));
    assert!(text.contains("pub unsafe fn raise_ocaml_exception(\n"));
    assert!(text.contains("pub unsafe fn raise_ocaml_exception_from_panic(\n"));
    assert!(text.contains("::ocaml_sys::caml_failwith_value(error_message);"));
    assert!(text.contains("format!(\"Polars panicked: {}\\nbacktrace not captured\", cause)"));
    let rendered_record = render_generated(&support.record);
    let rendered_clear = render_generated(&support.clear);
    assert!(text.contains(&rendered_record));
    assert!(text.contains(&rendered_clear));
}

#[test]
fn the_raising_mode_renders_the_three_armed_catch() {
    let g = ocaml_interop_export(&vec!["raise_on_err".to_string()], &col_decl()).unwrap();
    let text = render_generated(&g);
    assert!(text.contains("Ok(unsafe { return_value.raw() })"));
    assert!(text.contains("Ok(Ok(value)) => value,"));
    assert!(text.contains("unsafe { raise_ocaml_exception(cr, error) }"));
    assert!(text.contains("unsafe { raise_ocaml_exception_from_panic(cr, cause) }"));
}

#[test]
fn a_wide_declaration_renders_both_entry_points() {
    let g = ocaml_interop_export(&vec!["raise_on_err".to_string()], &sample_n_decl()).unwrap();
    let text = render_generated(&g);
    assert_eq!(
        text,
        "#[no_mangle]\npub extern \"C\" fn rust_expr_sample_n(expr: ::ocaml_interop::RawOCaml, n: ::ocaml_interop::RawOCaml, with_replacement: ::ocaml_interop::RawOCaml, shuffle: ::ocaml_interop::RawOCaml, seed: ::ocaml_interop::RawOCaml, fixed_seed: ::ocaml_interop::RawOCaml) -> ::ocaml_interop::RawOCaml {\n    match ::std::panic::catch_unwind(|| {\n        let cr = unsafe { &mut ::ocaml_interop::OCamlRuntime::recover_handle() };\n        let expr: OCamlRef<DynBox<Expr>> = &::ocaml_interop::BoxRoot::new(unsafe { OCaml::new(cr, expr) });\n        let n: OCamlRef<OCamlInt> = &::ocaml_interop::BoxRoot::new(unsafe { OCaml::new(cr, n) });\n        let with_replacement: OCamlRef<bool> = &::ocaml_interop::BoxRoot::new(unsafe { OCaml::new(cr, with_replacement) });\n        let shuffle: OCamlRef<bool> = &::ocaml_interop::BoxRoot::new(unsafe { OCaml::new(cr, shuffle) });\n        let seed: OCamlRef<Option<OCamlInt>> = &::ocaml_interop::BoxRoot::new(unsafe { OCaml::new(cr, seed) });\n        let fixed_seed: OCamlRef<bool> = &::ocaml_interop::BoxRoot::new(unsafe { OCaml::new(cr, fixed_seed) });\n        {\n            let return_value: OCaml<DynBox<Expr>> = { expr.sample_n(n, with_replacement, shuffle, seed, fixed_seed) };\n            Ok(unsafe { return_value.raw() })\n        }\n    }) {\n        Ok(Ok(value)) => value,\n        Ok(Err(error)) => {\n            let cr = unsafe { &mut ::ocaml_interop::OCamlRuntime::recover_handle() };\n            unsafe { raise_ocaml_exception(cr, error) }\n        },\n        Err(cause) => {\n            let cr = unsafe { &mut ::ocaml_interop::OCamlRuntime::recover_handle() };\n            unsafe { raise_ocaml_exception_from_panic(cr, cause) }\n        },\n    }\n}\n\n#[no_mangle]\npub extern \"C\" fn rust_expr_sample_n_bytecode(argv: *const ::ocaml_interop::RawOCaml, argn: isize) -> ::ocaml_interop::RawOCaml {\n    if argn as usize != 6 {\n        panic!(\"expected {} arguments, got {}\", 6, argn);\n    }\n    let argv = unsafe { ::std::slice::from_raw_parts(argv, argn as usize) };\n    rust_expr_sample_n(argv[0], argv[1], argv[2], argv[3], argv[4], argv[5])\n}\n"
    );
}
