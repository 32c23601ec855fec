//! Entry-point generation: the boundary wrapper description for the fast
//! path, and, above the native arity limit, the bytecode bridge description.

use crate::decl::{decl_valid, FnArg, FnDecl, GenError, MacroArgs, Param, Pattern};
use crate::mode::{all_recognized, is_first_unrecognized, parse_macro_args};
use crate::transform::{spec_transform_error, transform_signature, transformed_matches,
    Transformed};
use vstd::prelude::*;

verus! {

/// The OCaml native calling convention's fixed arity limit: a fast-path
/// entry point may take at most this many raw arguments.
pub const NATIVE_ARITY_LIMIT: usize = 5;

/// The description of one generated fast-path boundary function: its name,
/// the ordered names of its raw-valued parameters, the generation mode it was
/// built under, the handle name re-derived inside the wrapper, the ordered
/// re-rooting list (one entry per parameter), the original return type, and
/// the wrapped body's source text.
#[derive(Debug)]
pub struct BoundaryFunction {
    pub name: String,
    pub params: Vec<String>,
    pub raise_on_err: bool,
    pub runtime_name: String,
    pub locals: Vec<Param>,
    pub return_type: String,
    pub body: String,
}

/// The description of a generated bytecode bridge entry point: its name, the
/// statically fixed arity it validates at call time, and the order in which
/// it forwards the argument-array slots to the fast path.
#[derive(Debug)]
pub struct BytecodeBridge {
    pub name: String,
    pub arity: usize,
    pub forwards: Vec<usize>,
}

impl BytecodeBridge {
    /// A well-formed bridge forwards exactly the slots `0 .. arity`,
    /// positionally and in order.
    pub open spec fn wf(&self) -> bool {
        &&& self.forwards@.len() == self.arity
        &&& forall|i: int| 0 <= i < self.forwards@.len() ==> #[trigger] self.forwards@[i] == i
    }
}

/// Everything one directive invocation generates: the fast-path boundary
/// function, and the bytecode bridge exactly when the argument count exceeds
/// the native arity limit.
#[derive(Debug)]
pub struct GeneratedCode {
    pub native: BoundaryFunction,
    pub bridge: Option<BytecodeBridge>,
}

/// The transformed signature a boundary function was generated from.
pub open spec fn native_as_transformed(n: BoundaryFunction) -> Transformed {
    Transformed {
        name: n.name,
        params: n.params,
        locals: n.locals,
        runtime_name: n.runtime_name,
        return_type: n.return_type,
        body: n.body,
    }
}

/// Well-formedness of generated code: a bridge exists exactly when the
/// parameter count exceeds the arity limit, and the bridge is named after the
/// fast path, validates exactly its parameter count, and forwards the slots
/// in order.
pub open spec fn generated_wf(g: GeneratedCode) -> bool {
    &&& (g.native.params@.len() > NATIVE_ARITY_LIMIT <==> g.bridge is Some)
    &&& match g.bridge {
        Some(b) => {
            &&& b.name@ == g.native.name@ + "_bytecode"@
            &&& b.arity == g.native.params@.len()
            &&& b.wf()
        },
        None => true,
    }
}

/// How generated code relates to the declaration it was generated from.
pub open spec fn generated_from_decl(g: GeneratedCode, d: FnDecl, raise_on_err: bool) -> bool {
    &&& transformed_matches(native_as_transformed(g.native), d)
    &&& g.native.raise_on_err == raise_on_err
    &&& generated_wf(g)
}

/// On a valid declaration every re-rooting entry the generator leaves is
/// bound by a simple name, so the generated code can be printed.
pub proof fn lemma_generated_locals_named(g: GeneratedCode, d: FnDecl, raise_on_err: bool)
    requires
        decl_valid(d),
        generated_from_decl(g, d, raise_on_err),
    ensures
        crate::render::locals_named(g.native.locals@),
{
    assert forall|i: int| 0 <= i < g.native.locals@.len() implies (#[trigger] g.native.locals@[i]).pat
        is Name by {
        assert(g.native.locals@[i] == crate::decl::typed_param(d.inputs@[i + 1]));
        assert(crate::decl::arg_named(d.inputs@[i + 1]));
    }
}

/// A transformer output with one re-rooting entry per raw parameter, as the
/// signature transformer always produces.
pub open spec fn transformed_wf(t: Transformed) -> bool {
    t.locals@.len() == t.params@.len()
}

/// Emit the entry points for one transformed declaration. The fast-path
/// boundary function carries the transformed signature, the generation mode,
/// and the re-rooting list. When the parameter count exceeds the native
/// arity limit, and only then, a bytecode bridge is emitted beside it, named
/// `<name>_bytecode`, validating exactly that count and forwarding the array
/// slots positionally and in order.
pub fn generate_entry_points(t: Transformed, args: &MacroArgs) -> (g: GeneratedCode)
    requires
        transformed_wf(t),
    ensures
        native_as_transformed(g.native) == t,
        g.native.raise_on_err == args.raise_on_err,
        generated_wf(g),
{
    let arity = t.params.len();
    let bridge = if arity > NATIVE_ARITY_LIMIT {
        let bridge_name = t.name.clone().concat("_bytecode");
        let mut forwards: Vec<usize> = Vec::new();
        let mut i: usize = 0;
        while i < arity
            invariant
                0 <= i <= arity,
                forwards@.len() == i,
                forall|j: int| 0 <= j < i ==> #[trigger] forwards@[j] == j,
            decreases arity - i,
        {
            forwards.push(i);
            i += 1;
        }
        Some(BytecodeBridge { name: bridge_name, arity, forwards })
    } else {
        None
    };
    GeneratedCode {
        native: BoundaryFunction {
            name: t.name,
            params: t.params,
            raise_on_err: args.raise_on_err,
            runtime_name: t.runtime_name,
            locals: t.locals,
            return_type: t.return_type,
            body: t.body,
        },
        bridge,
    }
}

/// Apply the generation directive to one declaration: read the directive's
/// tokens, transform the signature, and emit the entry points. For a valid
/// invocation with `k` non-handle parameters, exactly one entry point is
/// described when `k` is at most the arity limit, and exactly two when `k`
/// exceeds it, the second forwarding the array slots `0 .. k` in order.
pub fn ocaml_interop_export(args: &Vec<String>, decl: &FnDecl) -> (r: Result<
    GeneratedCode,
    GenError,
>)
    ensures
        match r {
            Ok(g) => {
                &&& all_recognized(args@)
                &&& decl_valid(*decl)
                &&& generated_from_decl(g, *decl, args@.len() > 0)
                &&& crate::render::locals_named(g.native.locals@)
            },
            Err(e) => {
                if !all_recognized(args@) {
                    &&& e matches GenError::UnexpectedArgument { token, given } && given@ == args@
                        && exists|k: int| is_first_unrecognized(args@, k) && token == args@[k]
                } else {
                    &&& !decl_valid(*decl)
                    &&& e == spec_transform_error(*decl)
                }
            },
        },
{
    let margs = match parse_macro_args(args) {
        Ok(m) => m,
        Err(e) => {
            return Err(e);
        },
    };
    let t = match transform_signature(decl) {
        Ok(t) => t,
        Err(e) => {
            return Err(e);
        },
    };
    let g = generate_entry_points(t, &margs);
    proof {
        lemma_generated_locals_named(g, *decl, margs.raise_on_err);
    }
    Ok(g)
}

/// The two boundary functions the backtrace-support directive expands into,
/// both produced through the generation directive itself: one enables
/// capture, one disables it; each takes a unit value beside the handle and
/// returns a unit value.
#[derive(Debug)]
pub struct SupportCode {
    pub record: GeneratedCode,
    pub clear: GeneratedCode,
}

/// The capture-enabling body: read the unit argument, then swap in a panic
/// hook that force-captures the trace, stores it in the slot (overwriting any
/// prior uncollected one), and chains to the hook that was installed before.
pub open spec fn spec_record_hook_body() -> Seq<char> {
    "{ let () = unit.to_rust(cr); let last_hook = ::std::panic::take_hook(); ::std::panic::set_hook(::std::boxed::Box::new(move |panic_info| { let trace = ::std::backtrace::Backtrace::force_capture(); LAST_BACKTRACE.with(|last_backtrace| { last_backtrace.set(::std::option::Option::Some(trace)); }); last_hook(panic_info); })); ::ocaml_interop::OCaml::unit() }"@
}

/// The capture-disabling body: read the unit argument, then swap in a panic
/// hook that does nothing.
pub open spec fn spec_clear_hook_body() -> Seq<char> {
    "{ let () = unit.to_rust(cr); ::std::panic::set_hook(::std::boxed::Box::new(|_panic_info| ())); ::ocaml_interop::OCaml::unit() }"@
}

/// Build the declaration of one unit-to-unit boundary function beside the
/// runtime handle.
fn unit_decl(name: &str, body: &str) -> (d: FnDecl)
    ensures
        decl_valid(d),
        d.name@ == name@,
        d.inputs@.len() == 2,
        crate::decl::arg_name(d.inputs@[0]) == "cr"@,
        crate::decl::arg_name(d.inputs@[1]) == "unit"@,
        crate::decl::typed_param(d.inputs@[1]).ty@ == "::ocaml_interop::OCamlRef<()>"@,
        d.output matches Some(t) && t@ == "::ocaml_interop::OCaml<()>"@,
        d.body@ == body@,
{
    let mut inputs: Vec<FnArg> = Vec::new();
    inputs.push(
        FnArg::Typed(
            Param {
                pat: Pattern::Name(String::from_str("cr")),
                ty: String::from_str("&mut &mut ::ocaml_interop::OCamlRuntime"),
            },
        ),
    );
    inputs.push(
        FnArg::Typed(
            Param {
                pat: Pattern::Name(String::from_str("unit")),
                ty: String::from_str("::ocaml_interop::OCamlRef<()>"),
            },
        ),
    );
    FnDecl {
        name: String::from_str(name),
        inputs,
        output: Some(String::from_str("::ocaml_interop::OCaml<()>")),
        body: String::from_str(body),
    }
}

/// Expand the auxiliary backtrace-support directive: describe the two
/// capture-lifecycle boundary functions, each generated through the
/// generation directive with no flag, so neither has a bytecode bridge. The
/// slot they drive and the raise paths they feed are the backtrace
/// subsystem's [`crate::backtrace::BacktraceSlot`] and its raise functions.
/// What one capture-lifecycle entry point must look like: named as given,
/// generated without the raising mode and so without a bridge, taking the one
/// raw `unit` argument beside the re-derived `cr` handle, re-rooting it at the
/// OCaml unit reference type, returning the OCaml unit type, and running the
/// given body.
pub open spec fn lifecycle_entry(g: GeneratedCode, name: Seq<char>, body: Seq<char>) -> bool {
    &&& g.native.name@ == name
    &&& g.native.params@.len() == 1
    &&& g.native.params@[0]@ == "unit"@
    &&& g.native.runtime_name@ == "cr"@
    &&& !g.native.raise_on_err
    &&& g.bridge is None
    &&& g.native.locals@.len() == 1
    &&& crate::render::local_name(g.native.locals@[0]) == "unit"@
    &&& g.native.locals@[0].ty@ == "::ocaml_interop::OCamlRef<()>"@
    &&& g.native.return_type@ == "::ocaml_interop::OCaml<()>"@
    &&& g.native.body@ == body
    &&& crate::render::locals_named(g.native.locals@)
}

pub fn ocaml_interop_backtrace_support() -> (r: SupportCode)
    ensures
        lifecycle_entry(r.record, "rust_record_panic_backtraces"@, spec_record_hook_body()),
        lifecycle_entry(r.clear, "rust_clear_panic_hook"@, spec_clear_hook_body()),
{
    let no_flags: Vec<String> = Vec::new();
    let record_decl = unit_decl(
        "rust_record_panic_backtraces",
        "{ let () = unit.to_rust(cr); let last_hook = ::std::panic::take_hook(); ::std::panic::set_hook(::std::boxed::Box::new(move |panic_info| { let trace = ::std::backtrace::Backtrace::force_capture(); LAST_BACKTRACE.with(|last_backtrace| { last_backtrace.set(::std::option::Option::Some(trace)); }); last_hook(panic_info); })); ::ocaml_interop::OCaml::unit() }",
    );
    let record = match ocaml_interop_export(&no_flags, &record_decl) {
        Ok(g) => g,
        Err(_) => unreached(),
    };
    proof {
        lemma_lifecycle_entry(record, record_decl);
    }
    let clear_decl = unit_decl(
        "rust_clear_panic_hook",
        "{ let () = unit.to_rust(cr); ::std::panic::set_hook(::std::boxed::Box::new(|_panic_info| ())); ::ocaml_interop::OCaml::unit() }",
    );
    let clear = match ocaml_interop_export(&no_flags, &clear_decl) {
        Ok(g) => g,
        Err(_) => unreached(),
    };
    proof {
        lemma_lifecycle_entry(clear, clear_decl);
    }
    SupportCode { record, clear }
}

/// Generation from a two-input unit declaration yields a lifecycle entry
/// point carrying the declaration's name and body.
proof fn lemma_lifecycle_entry(g: GeneratedCode, d: FnDecl)
    requires
        decl_valid(d),
        generated_from_decl(g, d, false),
        d.inputs@.len() == 2,
        crate::decl::arg_name(d.inputs@[0]) == "cr"@,
        crate::decl::arg_name(d.inputs@[1]) == "unit"@,
        crate::decl::typed_param(d.inputs@[1]).ty@ == "::ocaml_interop::OCamlRef<()>"@,
        d.output matches Some(t) && t@ == "::ocaml_interop::OCaml<()>"@,
    ensures
        lifecycle_entry(g, d.name@, d.body@),
{
    lemma_generated_locals_named(g, d, false);
    assert(g.native.locals@ == d.inputs@.subrange(1, 2).map_values(
        |a: FnArg| crate::decl::typed_param(a),
    ));
    assert(g.native.locals@[0] == crate::decl::typed_param(d.inputs@[1]));
}

} // verus!
