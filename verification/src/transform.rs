//! Signature transformation: a declaration against high-level wrapped types
//! becomes a declaration whose parameters and return type are all raw OCaml
//! values, with the runtime-handle parameter removed from the list and its
//! name retained for re-derivation inside the wrapper body.

use crate::decl::{arg_name, arg_named, decl_valid, typed_param, FnArg, FnDecl, GenError, Param,
    Pattern};
use vstd::prelude::*;

verus! {

/// The transformer's output: the transformed signature (name plus the ordered
/// names of the raw-value parameters; the return type of the generated entry
/// point is always the raw OCaml value type), the ordered (name, original
/// high-level type) pairs used to re-root each raw argument, the retained
/// handle name, the declared return type, and the body's source text.
#[derive(Debug)]
pub struct Transformed {
    pub name: String,
    pub params: Vec<String>,
    pub locals: Vec<Param>,
    pub runtime_name: String,
    pub return_type: String,
    pub body: String,
}

/// The error reported for an invalid declaration. A receiver or a bad binding
/// pattern at position 0 is seen first; then a receiver among the remaining
/// inputs; then a missing return type; last a bad binding pattern among the
/// remaining inputs.
pub open spec fn spec_transform_error(d: FnDecl) -> GenError {
    if d.inputs@.len() == 0 {
        GenError::MissingHandle
    } else if d.inputs@[0] is Receiver {
        GenError::ReceiverNotSupported
    } else if !arg_named(d.inputs@[0]) {
        GenError::ExpectedIdent
    } else if exists|i: int| 1 <= i < d.inputs@.len() && d.inputs@[i] is Receiver {
        GenError::ReceiverNotSupported
    } else if d.output is None {
        GenError::NoReturnType
    } else {
        GenError::ExpectedIdent
    }
}

/// How the transformer's output relates to the declaration it was made from:
/// ordering is preserved exactly, the handle parameter is excluded from the
/// raw-parameter list but its name is retained, and the parameter count is
/// the original count minus one.
pub open spec fn transformed_matches(t: Transformed, d: FnDecl) -> bool {
    &&& t.name == d.name
    &&& t.params@.len() == d.inputs@.len() - 1
    &&& forall|i: int|
        0 <= i < t.params@.len() ==> #[trigger] t.params@[i]@ == arg_name(d.inputs@[i + 1])
    &&& t.locals@ == d.inputs@.subrange(1, d.inputs@.len() as int).map_values(
        |a: FnArg| typed_param(a),
    )
    &&& Some(t.return_type) == d.output
    &&& t.runtime_name@ == arg_name(d.inputs@[0])
    &&& t.body == d.body
}

/// Copy a binding pattern.
fn clone_pattern(p: &Pattern) -> (r: Pattern)
    ensures
        r == *p,
{
    match p {
        Pattern::Name(n) => Pattern::Name(n.clone()),
        Pattern::Other => Pattern::Other,
    }
}

/// Transform a declaration: reject a receiver, a binding pattern that is not
/// a simple name, and a missing return type; otherwise strip the handle
/// parameter, keep its name, and list every remaining parameter's name and
/// original type in order.
pub fn transform_signature(decl: &FnDecl) -> (r: Result<Transformed, GenError>)
    ensures
        match r {
            Ok(t) => decl_valid(*decl) && transformed_matches(t, *decl),
            Err(e) => !decl_valid(*decl) && e == spec_transform_error(*decl),
        },
{
    if decl.inputs.len() == 0 {
        return Err(GenError::MissingHandle);
    }
    // The handle parameter always stands at position 0; its name is retained
    // for re-derivation inside the wrapper body.
    let runtime_name = match &decl.inputs[0] {
        FnArg::Receiver => {
            return Err(GenError::ReceiverNotSupported);
        },
        FnArg::Typed(p) => match &p.pat {
            Pattern::Name(n) => n.clone(),
            Pattern::Other => {
                return Err(GenError::ExpectedIdent);
            },
        },
    };
    // A receiver among the remaining inputs is rejected before the return
    // type is examined.
    let mut i: usize = 1;
    while i < decl.inputs.len()
        invariant
            1 <= i <= decl.inputs@.len(),
            arg_named(decl.inputs@[0]),
            forall|j: int| 1 <= j < i ==> (#[trigger] decl.inputs@[j]) is Typed,
        decreases decl.inputs@.len() - i,
    {
        match &decl.inputs[i] {
            FnArg::Receiver => {
                // The witness for the error's precedence and for invalidity.
                proof {
                    assert(1 <= i < decl.inputs@.len() && decl.inputs@[i as int] is Receiver);
                }
                return Err(GenError::ReceiverNotSupported);
            },
            FnArg::Typed(_) => {},
        }
        i += 1;
    }
    let return_type = match &decl.output {
        None => {
            return Err(GenError::NoReturnType);
        },
        Some(t) => t.clone(),
    };
    let mut params: Vec<String> = Vec::new();
    let mut locals: Vec<Param> = Vec::new();
    let mut k: usize = 1;
    while k < decl.inputs.len()
        invariant
            1 <= k <= decl.inputs@.len(),
            arg_named(decl.inputs@[0]),
            runtime_name@ == arg_name(decl.inputs@[0]),
            Some(return_type) == decl.output,
            forall|j: int| 1 <= j < decl.inputs@.len() ==> (#[trigger] decl.inputs@[j]) is Typed,
            forall|j: int| 1 <= j < k ==> arg_named(#[trigger] decl.inputs@[j]),
            params@.len() == k - 1,
            forall|j: int| 0 <= j < k - 1 ==> #[trigger] params@[j]@ == arg_name(
                decl.inputs@[j + 1],
            ),
            locals@ =~= decl.inputs@.subrange(1, k as int).map_values(|a: FnArg| typed_param(a)),
        decreases decl.inputs@.len() - k,
    {
        match &decl.inputs[k] {
            FnArg::Receiver => {
                // Ruled out: the receiver scan above covered every input.
                proof {
                    assert(false);
                }
            },
            FnArg::Typed(p) => match &p.pat {
                Pattern::Name(n) => {
                    params.push(n.clone());
                    let copied = Param { pat: clone_pattern(&p.pat), ty: p.ty.clone() };
                    proof {
                        assert(copied == typed_param(decl.inputs@[k as int]));
                    }
                    locals.push(copied);
                    proof {
                        assert(locals@ =~= decl.inputs@.subrange(1, k + 1).map_values(
                            |a: FnArg| typed_param(a),
                        ));
                    }
                },
                Pattern::Other => {
                    // This input invalidates the declaration, and no receiver
                    // stands anywhere, so the bad pattern is what is reported.
                    proof {
                        assert(!arg_named(decl.inputs@[k as int]));
                        assert(!(exists|j: int|
                            1 <= j < decl.inputs@.len() && decl.inputs@[j] is Receiver)) by {
                            assert forall|j: int|
                                1 <= j < decl.inputs@.len() implies !(decl.inputs@[j]
                                is Receiver) by {
                                assert((decl.inputs@[j]) is Typed);
                            }
                        }
                    }
                    return Err(GenError::ExpectedIdent);
                },
            },
        }
        k += 1;
    }
    proof {
        assert(decl.inputs@.subrange(1, decl.inputs@.len() as int) =~= decl.inputs@.subrange(
            1,
            k as int,
        ));
    }
    Ok(
        Transformed {
            name: decl.name.clone(),
            params,
            locals,
            runtime_name,
            return_type,
            body: decl.body.clone(),
        },
    )
}

} // verus!
