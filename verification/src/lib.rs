//! Binding generator for exposing native functions to the OCaml runtime.
//!
//! A function declaration written against high-level wrapped types is turned
//! into the description of one or two low-level entry points: a fast-path
//! native entry point whose parameters are all raw OCaml values, and, when the
//! argument count exceeds the native calling convention's fixed arity limit,
//! a second bytecode bridge entry point taking an argument array and a count.
//!
//! Every generated boundary function routes failures (propagated domain
//! errors and panics alike) through a single exception channel backed by a
//! process-wide backtrace capture slot.

mod abstract_value;
mod backtrace;
mod boundary;
mod bridge;
mod decl;
mod emit;
mod mode;
mod parse;
mod render;
mod transform;

pub use abstract_value::{unwrap_abstract_vec, Abstract};
pub use backtrace::{
    exception_message, extract_panic_message, lemma_disable_when_disabled,
    lemma_enable_idempotent, lemma_trace_read_once, raise_from_error, raise_from_panic,
    BacktraceSlot, CaptureState, PanicPayload,
};
pub use boundary::{boundary_dispatch, lemma_modes_converge, BodyOutcome, BoundaryOutcome};
pub use bridge::{bridge_dispatch, BridgeOutcome, RawValue};
pub use decl::{FnArg, FnDecl, GenError, MacroArgs, Param, Pattern};
pub use emit::{
    generate_entry_points, ocaml_interop_backtrace_support, ocaml_interop_export,
    BoundaryFunction, BytecodeBridge, GeneratedCode, SupportCode, NATIVE_ARITY_LIMIT,
};
pub use mode::parse_macro_args;
pub use parse::export_from_source;
pub use render::{nat_text, render_backtrace_support, render_bridge, render_generated,
    render_native};
pub use transform::{transform_signature, Transformed};
