//! Printing generated entry points back as Rust source text. The text is the
//! emitter's output stated exactly, character for character, in the contracts.

use crate::decl::{token_views, Param, Pattern};
use crate::emit::{BoundaryFunction, BytecodeBridge, GeneratedCode, SupportCode};
use vstd::prelude::*;

verus! {

/// The decimal digit character for one digit value.
pub open spec fn spec_digit_char(d: int) -> char
    recommends
        0 <= d < 10,
{
    if d == 0 {
        '0'
    } else if d == 1 {
        '1'
    } else if d == 2 {
        '2'
    } else if d == 3 {
        '3'
    } else if d == 4 {
        '4'
    } else if d == 5 {
        '5'
    } else if d == 6 {
        '6'
    } else if d == 7 {
        '7'
    } else if d == 8 {
        '8'
    } else {
        '9'
    }
}

/// A number in decimal, most significant digit first, no leading zero.
pub open spec fn spec_nat_text(n: nat) -> Seq<char>
    decreases n,
{
    if n < 10 {
        seq![spec_digit_char(n as int)]
    } else {
        spec_nat_text(n / 10) + seq![spec_digit_char((n % 10) as int)]
    }
}

/// Print one decimal digit.
fn digit_text(d: usize) -> (r: String)
    requires
        d < 10,
    ensures
        r@ == seq![spec_digit_char(d as int)],
{
    let r = if d == 0 {
        String::from_str("0")
    } else if d == 1 {
        String::from_str("1")
    } else if d == 2 {
        String::from_str("2")
    } else if d == 3 {
        String::from_str("3")
    } else if d == 4 {
        String::from_str("4")
    } else if d == 5 {
        String::from_str("5")
    } else if d == 6 {
        String::from_str("6")
    } else if d == 7 {
        String::from_str("7")
    } else if d == 8 {
        String::from_str("8")
    } else {
        String::from_str("9")
    };
    proof {
        reveal_strlit("0");
        reveal_strlit("1");
        reveal_strlit("2");
        reveal_strlit("3");
        reveal_strlit("4");
        reveal_strlit("5");
        reveal_strlit("6");
        reveal_strlit("7");
        reveal_strlit("8");
        reveal_strlit("9");
        assert(r@ =~= seq![spec_digit_char(d as int)]);
    }
    r
}

/// Print a number in decimal.
pub fn nat_text(n: usize) -> (r: String)
    ensures
        r@ == spec_nat_text(n as nat),
    decreases n,
{
    if n < 10 {
        digit_text(n)
    } else {
        let mut r = nat_text(n / 10);
        let d = digit_text(n % 10);
        r.append(d.as_str());
        proof {
            assert(r@ =~= spec_nat_text(n as nat));
        }
        r
    }
}

/// The bridge's forwarding arguments: `argv[0], argv[1], ...`, one slot per
/// position, in order.
pub open spec fn spec_bridge_args(arity: nat) -> Seq<char>
    decreases arity,
{
    if arity == 0 {
        Seq::empty()
    } else if arity == 1 {
        "argv["@ + spec_nat_text(0) + "]"@
    } else {
        spec_bridge_args((arity - 1) as nat) + ", argv["@ + spec_nat_text((arity - 1) as nat)
            + "]"@
    }
}

/// Print the bridge's forwarding arguments.
fn bridge_args_text(arity: usize) -> (r: String)
    ensures
        r@ == spec_bridge_args(arity as nat),
{
    let mut r = String::new();
    let mut i: usize = 0;
    while i < arity
        invariant
            0 <= i <= arity,
            r@ == spec_bridge_args(i as nat),
        decreases arity - i,
    {
        if i > 0 {
            r.append(", argv[");
        } else {
            r.append("argv[");
        }
        let d = nat_text(i);
        r.append(d.as_str());
        r.append("]");
        proof {
            assert(r@ =~= spec_bridge_args((i + 1) as nat));
        }
        i += 1;
    }
    r
}

/// The bytecode bridge's source text: validate the count against the fixed
/// arity, view the array, and forward every slot in order to the fast path.
pub open spec fn spec_bridge_text(name: Seq<char>, arity: nat, native: Seq<char>) -> Seq<char> {
    "#[no_mangle]\npub extern \"C\" fn "@ + name
        + "(argv: *const ::ocaml_interop::RawOCaml, argn: isize) -> ::ocaml_interop::RawOCaml {\n    if argn as usize != "@
        + spec_nat_text(arity) + " {\n        panic!(\"expected {} arguments, got {}\", "@
        + spec_nat_text(arity)
        + ", argn);\n    }\n    let argv = unsafe { ::std::slice::from_raw_parts(argv, argn as usize) };\n    "@
        + native + "("@ + spec_bridge_args(arity) + ")\n}\n"@
}

/// The raw-valued parameter list: every name in order, each typed as the raw
/// OCaml value.
pub open spec fn spec_params_text(params: Seq<Seq<char>>) -> Seq<char>
    decreases params.len(),
{
    if params.len() == 0 {
        Seq::empty()
    } else if params.len() == 1 {
        params[0] + ": ::ocaml_interop::RawOCaml"@
    } else {
        spec_params_text(params.drop_last()) + ", "@ + params.last()
            + ": ::ocaml_interop::RawOCaml"@
    }
}

/// Print the raw-valued parameter list.
fn params_text(params: &Vec<String>) -> (r: String)
    ensures
        r@ == spec_params_text(token_views(params@)),
{
    let ghost views = token_views(params@);
    let mut r = String::new();
    let mut i: usize = 0;
    while i < params.len()
        invariant
            0 <= i <= params@.len(),
            views == token_views(params@),
            views.len() == params@.len(),
            r@ == spec_params_text(views.take(i as int)),
        decreases params@.len() - i,
    {
        if i > 0 {
            r.append(", ");
        }
        r.append(params[i].as_str());
        r.append(": ::ocaml_interop::RawOCaml");
        proof {
            assert(views.take(i + 1).drop_last() =~= views.take(i as int));
            assert(views.take(i + 1).last() == views[i as int]);
            assert(r@ =~= spec_params_text(views.take(i + 1)));
        }
        i += 1;
    }
    proof {
        assert(views.take(params@.len() as int) =~= views);
    }
    r
}

/// Whether every re-rooting entry is bound by a simple name, as the generator
/// always leaves them.
pub open spec fn locals_named(locals: Seq<Param>) -> bool {
    forall|i: int| 0 <= i < locals.len() ==> (#[trigger] locals[i]).pat is Name
}

/// The bound name of one re-rooting entry.
pub open spec fn local_name(p: Param) -> Seq<char>
    recommends
        p.pat is Name,
{
    match p.pat {
        Pattern::Name(n) => n@,
        Pattern::Other => Seq::empty(),
    }
}

/// One re-rooting statement: the raw argument is rooted through the retained
/// runtime-handle name and bound back under its own name at its original
/// high-level type.
pub open spec fn spec_local_text(p: Param, runtime: Seq<char>) -> Seq<char>
    recommends
        p.pat is Name,
{
    "        let "@ + local_name(p) + ": "@ + p.ty@
        + " = &::ocaml_interop::BoxRoot::new(unsafe { OCaml::new("@ + runtime + ", "@
        + local_name(p) + ") });\n"@
}

/// The re-rooting statements for every parameter, in order.
pub open spec fn spec_locals_text(locals: Seq<Param>, runtime: Seq<char>) -> Seq<char>
    decreases locals.len(),
{
    if locals.len() == 0 {
        Seq::empty()
    } else {
        spec_locals_text(locals.drop_last(), runtime) + spec_local_text(locals.last(), runtime)
    }
}

/// Print the re-rooting statements.
fn locals_text(locals: &Vec<Param>, runtime: &String) -> (r: String)
    requires
        locals_named(locals@),
    ensures
        r@ == spec_locals_text(locals@, runtime@),
{
    let mut r = String::new();
    let mut i: usize = 0;
    while i < locals.len()
        invariant
            locals_named(locals@),
            0 <= i <= locals@.len(),
            r@ == spec_locals_text(locals@.take(i as int), runtime@),
        decreases locals@.len() - i,
    {
        let name = match &locals[i].pat {
            Pattern::Name(n) => n,
            Pattern::Other => unreached(),
        };
        r.append("        let ");
        r.append(name.as_str());
        r.append(": ");
        r.append(locals[i].ty.as_str());
        r.append(" = &::ocaml_interop::BoxRoot::new(unsafe { OCaml::new(");
        r.append(runtime.as_str());
        r.append(", ");
        r.append(name.as_str());
        r.append(") });\n");
        proof {
            assert(locals@.take(i + 1).drop_last() =~= locals@.take(i as int));
            assert(locals@.take(i + 1).last() == locals@[i as int]);
            assert(r@ =~= spec_locals_text(locals@.take(i + 1), runtime@));
        }
        i += 1;
    }
    proof {
        assert(locals@.take(locals@.len() as int) =~= locals@);
    }
    r
}

/// The boundary function's text up to the point where the two modes differ:
/// attributes, the raw signature, the panic-catching scope, the re-derived
/// handle, the re-rooting statements, and the typed run of the wrapped body.
pub open spec fn spec_native_prefix(n: BoundaryFunction) -> Seq<char> {
    "#[no_mangle]\npub extern \"C\" fn "@ + n.name@ + "("@ + spec_params_text(
        token_views(n.params@),
    ) + ") -> ::ocaml_interop::RawOCaml {\n    match ::std::panic::catch_unwind(|| {\n        let "@
        + n.runtime_name@
        + " = unsafe { &mut ::ocaml_interop::OCamlRuntime::recover_handle() };\n"@
        + spec_locals_text(n.locals@, n.runtime_name@) + "        {\n            let return_value: "@
        + n.return_type@ + " = "@ + n.body@ + ";\n"@
}

/// The ending without `raise_on_err`: the whole scope is the catch target,
/// success returns the raw value, a panic is raised and never returns.
pub open spec fn spec_mode_plain_ending() -> Seq<char> {
    "            unsafe { return_value.raw() }\n        }\n    }) {\n        Ok(value) => value,\n        Err(cause) => {\n            let cr = unsafe { &mut ::ocaml_interop::OCamlRuntime::recover_handle() };\n            unsafe { raise_ocaml_exception_from_panic(cr, cause) }\n        },\n    }\n}\n"@
}

/// The ending under `raise_on_err`: the conversion is wrapped in the result
/// so a returned error and a panic are told apart, and both are raised.
pub open spec fn spec_mode_raising_ending() -> Seq<char> {
    "            Ok(unsafe { return_value.raw() })\n        }\n    }) {\n        Ok(Ok(value)) => value,\n        Ok(Err(error)) => {\n            let cr = unsafe { &mut ::ocaml_interop::OCamlRuntime::recover_handle() };\n            unsafe { raise_ocaml_exception(cr, error) }\n        },\n        Err(cause) => {\n            let cr = unsafe { &mut ::ocaml_interop::OCamlRuntime::recover_handle() };\n            unsafe { raise_ocaml_exception_from_panic(cr, cause) }\n        },\n    }\n}\n"@
}

/// The full boundary-function text: the shared prefix, then the ending the
/// generation mode selects.
pub open spec fn spec_native_text(n: BoundaryFunction) -> Seq<char> {
    spec_native_prefix(n) + if n.raise_on_err {
        spec_mode_raising_ending()
    } else {
        spec_mode_plain_ending()
    }
}

/// Print one boundary function.
pub fn render_native(n: &BoundaryFunction) -> (r: String)
    requires
        locals_named(n.locals@),
    ensures
        r@ == spec_native_text(*n),
{
    let params = params_text(&n.params);
    let locals = locals_text(&n.locals, &n.runtime_name);
    let mut r = String::from_str("#[no_mangle]\npub extern \"C\" fn ");
    r.append(n.name.as_str());
    r.append("(");
    r.append(params.as_str());
    r.append(
        ") -> ::ocaml_interop::RawOCaml {\n    match ::std::panic::catch_unwind(|| {\n        let ",
    );
    r.append(n.runtime_name.as_str());
    r.append(" = unsafe { &mut ::ocaml_interop::OCamlRuntime::recover_handle() };\n");
    r.append(locals.as_str());
    r.append("        {\n            let return_value: ");
    r.append(n.return_type.as_str());
    r.append(" = ");
    r.append(n.body.as_str());
    r.append(";\n");
    if n.raise_on_err {
        r.append(
            "            Ok(unsafe { return_value.raw() })\n        }\n    }) {\n        Ok(Ok(value)) => value,\n        Ok(Err(error)) => {\n            let cr = unsafe { &mut ::ocaml_interop::OCamlRuntime::recover_handle() };\n            unsafe { raise_ocaml_exception(cr, error) }\n        },\n        Err(cause) => {\n            let cr = unsafe { &mut ::ocaml_interop::OCamlRuntime::recover_handle() };\n            unsafe { raise_ocaml_exception_from_panic(cr, cause) }\n        },\n    }\n}\n",
        );
    } else {
        r.append(
            "            unsafe { return_value.raw() }\n        }\n    }) {\n        Ok(value) => value,\n        Err(cause) => {\n            let cr = unsafe { &mut ::ocaml_interop::OCamlRuntime::recover_handle() };\n            unsafe { raise_ocaml_exception_from_panic(cr, cause) }\n        },\n    }\n}\n",
        );
    }
    proof {
        assert(r@ =~= spec_native_text(*n));
    }
    r
}

/// Everything one directive invocation emits, as text: the boundary function,
/// and the bytecode bridge below it when one was generated.
pub open spec fn spec_render_generated(g: GeneratedCode) -> Seq<char> {
    spec_native_text(g.native) + match g.bridge {
        None => Seq::empty(),
        Some(b) => "\n"@ + spec_bridge_text(b.name@, b.arity as nat, g.native.name@),
    }
}

/// Print everything one directive invocation emits.
pub fn render_generated(g: &GeneratedCode) -> (r: String)
    requires
        locals_named(g.native.locals@),
    ensures
        r@ == spec_render_generated(*g),
{
    let mut r = render_native(&g.native);
    match &g.bridge {
        None => {},
        Some(b) => {
            let bridge = render_bridge(b, &g.native.name);
            r.append("\n");
            r.append(bridge.as_str());
        },
    }
    proof {
        assert(r@ =~= spec_render_generated(*g));
    }
    r
}

/// The thread-scoped backtrace slot's declaration, as the support directive
/// emits it: one cell per thread, holding at most one captured trace, empty
/// at start.
pub open spec fn spec_slot_text() -> Seq<char> {
    "thread_local! {\n"@
        + "    static LAST_BACKTRACE: ::std::cell::Cell<::std::option::Option<::std::backtrace::Backtrace>> =\n"@
        + "        const { ::std::cell::Cell::new(::std::option::Option::None) };\n"@ + "}\n"@
}

/// The error raise path, as the support directive emits it: it reads and
/// clears the slot, builds the payload, allocates it as an OCaml string,
/// crosses into the OCaml runtime through `caml_failwith_value`, and never
/// returns.
pub open spec fn spec_raise_error_text() -> Seq<char> {
    "pub unsafe fn raise_ocaml_exception(\n"@
        + "    cr: &mut &mut ::ocaml_interop::OCamlRuntime,\n"@ + "    cause: String\n"@
        + ") -> ! {\n"@ + "    let error_message = {\n"@
        + "        let last_backtrace = LAST_BACKTRACE.with(|last_backtrace| last_backtrace.take());\n"@
        + "        let error_message = match last_backtrace {\n"@
        + "            None => format!(\"Polars panicked: {}\\nbacktrace not captured\", cause),\n"@
        + "            Some(last_backtrace) => {\n"@
        + "                format!(\"Polars panicked: {}\\nBacktrace:\\n{}\", cause, last_backtrace)\n"@
        + "            }\n"@ + "        };\n"@
        + "        let error_message: OCaml<String> = error_message.to_ocaml(cr);\n"@
        + "        unsafe { error_message.raw() }\n"@ + "    };\n"@ + "    drop(cause);\n"@
        + "    unsafe {\n"@ + "        ::ocaml_sys::caml_failwith_value(error_message);\n"@
        + "    }\n"@ + "    unreachable!(\"caml_failwith should never return\")\n"@ + "}\n"@
}

/// The panic raise path, as the support directive emits it: it extracts the
/// message (string slice first, owned string second, debug rendering last)
/// and delegates to the error raise path; it never returns.
pub open spec fn spec_raise_panic_text() -> Seq<char> {
    "pub unsafe fn raise_ocaml_exception_from_panic(\n"@
        + "    cr: &mut &mut ::ocaml_interop::OCamlRuntime,\n"@
        + "    cause: Box<dyn ::core::any::Any + Send>\n"@ + ") -> ! {\n"@
        + "    let error_message = if let Some(cause) = cause.downcast_ref::<&str>() {\n"@
        + "        cause.to_string()\n"@
        + "    } else if let Some(cause) = cause.downcast_ref::<String>() {\n"@
        + "        cause.to_string()\n"@ + "    } else {\n"@
        + "        format!(\"{:?}\", cause)\n"@ + "    };\n"@ + "    drop(cause);\n"@
        + "    raise_ocaml_exception(cr, error_message)\n"@ + "}\n"@
}

/// Print the error raise path.
fn raise_error_text() -> (r: String)
    ensures
        r@ == spec_raise_error_text(),
{
    let mut r = String::from_str("pub unsafe fn raise_ocaml_exception(\n");
    r.append("    cr: &mut &mut ::ocaml_interop::OCamlRuntime,\n");
    r.append("    cause: String\n");
    r.append(") -> ! {\n");
    r.append("    let error_message = {\n");
    r.append(
        "        let last_backtrace = LAST_BACKTRACE.with(|last_backtrace| last_backtrace.take());\n",
    );
    r.append("        let error_message = match last_backtrace {\n");
    r.append("            None => format!(\"Polars panicked: {}\\nbacktrace not captured\", cause),\n");
    r.append(
        "            Some(last_backtrace) => {\n",
    );
    r.append(
        "                format!(\"Polars panicked: {}\\nBacktrace:\\n{}\", cause, last_backtrace)\n",
    );
    r.append("            }\n");
    r.append("        };\n");
    r.append("        let error_message: OCaml<String> = error_message.to_ocaml(cr);\n");
    r.append("        unsafe { error_message.raw() }\n");
    r.append("    };\n");
    r.append("    drop(cause);\n");
    r.append("    unsafe {\n");
    r.append("        ::ocaml_sys::caml_failwith_value(error_message);\n");
    r.append("    }\n");
    r.append("    unreachable!(\"caml_failwith should never return\")\n");
    r.append("}\n");
    proof {
        assert(r@ =~= spec_raise_error_text());
    }
    r
}

/// Print the panic raise path.
fn raise_panic_text() -> (r: String)
    ensures
        r@ == spec_raise_panic_text(),
{
    let mut r = String::from_str("pub unsafe fn raise_ocaml_exception_from_panic(\n");
    r.append("    cr: &mut &mut ::ocaml_interop::OCamlRuntime,\n");
    r.append("    cause: Box<dyn ::core::any::Any + Send>\n");
    r.append(") -> ! {\n");
    r.append("    let error_message = if let Some(cause) = cause.downcast_ref::<&str>() {\n");
    r.append("        cause.to_string()\n");
    r.append("    } else if let Some(cause) = cause.downcast_ref::<String>() {\n");
    r.append("        cause.to_string()\n");
    r.append("    } else {\n");
    r.append("        format!(\"{:?}\", cause)\n");
    r.append("    };\n");
    r.append("    drop(cause);\n");
    r.append("    raise_ocaml_exception(cr, error_message)\n");
    r.append("}\n");
    proof {
        assert(r@ =~= spec_raise_panic_text());
    }
    r
}

/// Print the slot declaration.
fn slot_text() -> (r: String)
    ensures
        r@ == spec_slot_text(),
{
    let mut r = String::from_str("thread_local! {\n");
    r.append(
        "    static LAST_BACKTRACE: ::std::cell::Cell<::std::option::Option<::std::backtrace::Backtrace>> =\n",
    );
    r.append("        const { ::std::cell::Cell::new(::std::option::Option::None) };\n");
    r.append("}\n");
    proof {
        assert(r@ =~= spec_slot_text());
    }
    r
}

/// Everything the backtrace-support directive emits, as text: the slot
/// declaration, the two capture-lifecycle boundary functions already run
/// through the generation directive, and the two raise paths.
pub open spec fn spec_support_text(s: SupportCode) -> Seq<char> {
    spec_slot_text() + "\n"@ + spec_render_generated(s.record) + "\n"@ + spec_render_generated(
        s.clear,
    ) + "\n"@ + spec_raise_error_text() + "\n"@ + spec_raise_panic_text()
}

/// Print everything the backtrace-support directive emits.
pub fn render_backtrace_support(s: &SupportCode) -> (r: String)
    requires
        locals_named(s.record.native.locals@),
        locals_named(s.clear.native.locals@),
    ensures
        r@ == spec_support_text(*s),
{
    let mut r = slot_text();
    r.append("\n");
    let record = render_generated(&s.record);
    r.append(record.as_str());
    r.append("\n");
    let clear = render_generated(&s.clear);
    r.append(clear.as_str());
    r.append("\n");
    let raise_error = raise_error_text();
    r.append(raise_error.as_str());
    r.append("\n");
    let raise_panic = raise_panic_text();
    r.append(raise_panic.as_str());
    proof {
        assert(r@ =~= spec_support_text(*s));
    }
    r
}

/// Print one bytecode bridge.
pub fn render_bridge(b: &BytecodeBridge, native_name: &String) -> (r: String)
    ensures
        r@ == spec_bridge_text(b.name@, b.arity as nat, native_name@),
{
    let count = nat_text(b.arity);
    let args = bridge_args_text(b.arity);
    let mut r = String::from_str("#[no_mangle]\npub extern \"C\" fn ");
    r.append(b.name.as_str());
    r.append(
        "(argv: *const ::ocaml_interop::RawOCaml, argn: isize) -> ::ocaml_interop::RawOCaml {\n    if argn as usize != ",
    );
    r.append(count.as_str());
    r.append(" {\n        panic!(\"expected {} arguments, got {}\", ");
    r.append(count.as_str());
    r.append(
        ", argn);\n    }\n    let argv = unsafe { ::std::slice::from_raw_parts(argv, argn as usize) };\n    ",
    );
    r.append(native_name.as_str());
    r.append("(");
    r.append(args.as_str());
    r.append(")\n}\n");
    proof {
        assert(r@ =~= spec_bridge_text(b.name@, b.arity as nat, native_name@));
    }
    r
}

} // verus!
