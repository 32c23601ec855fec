//! Reading a declaration out of Rust source text. The parsing itself is
//! syn's; what it reads out of a given text is deterministic, so the result
//! is named, and the generator's own checks and the generation stay verified
//! on that named declaration.

use crate::decl::{decl_valid, FnArg, FnDecl, GenError, Param, Pattern};
use crate::emit::{generate_entry_points, generated_from_decl, lemma_generated_locals_named,
    GeneratedCode};
use crate::mode::{all_recognized, is_first_unrecognized, parse_macro_args};
use crate::transform::{spec_transform_error, transform_signature};
use quote::ToTokens;
use syn::{FnArg as SynArg, ItemFn, Pat, ReturnType};
use vstd::prelude::*;

verus! {

/// The declaration that the source text holds: none when the text is not one
/// free-standing function item, else its name, inputs (receivers and binding
/// patterns told apart, types as text), return type and body text. A function
/// of the text alone.
pub uninterp spec fn spec_read_decl(source: Seq<char>) -> Option<FnDecl>;

/// Relies on syn::parse_str::<syn::ItemFn> to read one free function item out
/// of the text, on syn's Signature/FnArg/Pat fields to walk it, and on
/// quote::ToTokens plus Ident's Display for the type, name and body text; the
/// same text always reads as the same declaration, named `spec_read_decl`.
#[verifier::external_body]
fn read_decl(source: &str) -> (r: Option<FnDecl>)
    ensures
        r == spec_read_decl(source@),
{
    let f = syn::parse_str::<ItemFn>(source).ok()?;
    let inputs = f.sig.inputs.iter().map(|a| match a {
        SynArg::Receiver(_) => FnArg::Receiver,
        SynArg::Typed(p) => FnArg::Typed(Param {
            pat: match &*p.pat { Pat::Ident(i) => Pattern::Name(i.ident.to_string()), _ => Pattern::Other },
            ty: p.ty.to_token_stream().to_string(),
        }),
    }).collect();
    let output = match &f.sig.output {
        ReturnType::Default => None,
        ReturnType::Type(_, t) => Some(t.to_token_stream().to_string()),
    };
    Some(FnDecl { name: f.sig.ident.to_string(), inputs, output, body: f.block.to_token_stream().to_string() })
}

/// Apply the generation directive to a declaration given as source text: read
/// the directive's tokens, read the declaration out of the text, and
/// generate. An unrecognized token fails first, as the directive itself
/// fails; then text that holds no function item; then the declaration's own
/// defects, exactly as the directive reports them.
pub fn export_from_source(args: &Vec<String>, source: &str) -> (r: Result<GeneratedCode, GenError>)
    ensures
        match r {
            Ok(g) => {
                &&& all_recognized(args@)
                &&& spec_read_decl(source@) matches Some(d) && decl_valid(d)
                    && generated_from_decl(g, d, args@.len() > 0)
                &&& crate::render::locals_named(g.native.locals@)
            },
            Err(e) => {
                if !all_recognized(args@) {
                    &&& e matches GenError::UnexpectedArgument { token, given } && given@ == args@
                        && exists|k: int| is_first_unrecognized(args@, k) && token == args@[k]
                } else if spec_read_decl(source@) is None {
                    e == GenError::Unparseable
                } else {
                    &&& spec_read_decl(source@) matches Some(d) && !decl_valid(d) && e
                        == spec_transform_error(d)
                }
            },
        },
{
    let margs = match parse_macro_args(args) {
        Ok(m) => m,
        Err(e) => {
            return Err(e);
        },
    };
    let decl = match read_decl(source) {
        Some(d) => d,
        None => {
            return Err(GenError::Unparseable);
        },
    };
    let t = match transform_signature(&decl) {
        Ok(t) => t,
        Err(e) => {
            return Err(e);
        },
    };
    let g = generate_entry_points(t, &margs);
    proof {
        lemma_generated_locals_named(g, decl, margs.raise_on_err);
    }
    Ok(g)
}

} // verus!
