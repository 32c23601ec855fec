//! Generation-mode selection: the unordered identifier tokens given to the
//! generation directive are checked against the single recognized flag.

use crate::decl::{GenError, MacroArgs};
use vstd::prelude::*;

verus! {

/// Whether one directive token is recognized; `raise_on_err` is the only one.
pub open spec fn spec_recognized(token: Seq<char>) -> bool {
    token == "raise_on_err"@
}

/// Whether every token of the directive invocation is recognized.
pub open spec fn all_recognized(toks: Seq<String>) -> bool {
    forall|i: int| 0 <= i < toks.len() ==> spec_recognized(#[trigger] toks[i]@)
}

/// Whether position `k` holds the first unrecognized token.
pub open spec fn is_first_unrecognized(toks: Seq<String>, k: int) -> bool {
    &&& 0 <= k < toks.len()
    &&& !spec_recognized(toks[k]@)
    &&& forall|j: int| 0 <= j < k ==> spec_recognized(#[trigger] toks[j]@)
}

/// Copy a token list.
fn clone_tokens(v: &Vec<String>) -> (r: Vec<String>)
    ensures
        r@ == v@,
{
    let mut r: Vec<String> = Vec::new();
    let mut i: usize = 0;
    while i < v.len()
        invariant
            0 <= i <= v@.len(),
            r@ == v@.take(i as int),
        decreases v@.len() - i,
    {
        let t = v[i].clone();
        r.push(t);
        proof {
            assert(r@ =~= v@.take(i + 1));
        }
        i += 1;
    }
    proof {
        assert(v@.take(v@.len() as int) =~= v@);
    }
    r
}

/// Read the directive's tokens. Exactly one flag is recognized,
/// `raise_on_err`; any other token fails generation before any code is
/// emitted, with an error naming the offending token and carrying the full
/// token set that was given.
pub fn parse_macro_args(args: &Vec<String>) -> (r: Result<MacroArgs, GenError>)
    ensures
        match r {
            Ok(m) => all_recognized(args@) && (m.raise_on_err <==> args@.len() > 0),
            Err(e) => {
                &&& !all_recognized(args@)
                &&& e matches GenError::UnexpectedArgument { token, given } && given@ == args@
                    && exists|k: int| is_first_unrecognized(args@, k) && token == args@[k]
            },
        },
{
    let flag = String::from_str("raise_on_err");
    let mut i: usize = 0;
    while i < args.len()
        invariant
            0 <= i <= args@.len(),
            flag@ == "raise_on_err"@,
            forall|j: int| 0 <= j < i ==> spec_recognized(#[trigger] args@[j]@),
        decreases args@.len() - i,
    {
        let t = &args[i];
        if !(*t == flag) {
            let token = t.clone();
            let given = clone_tokens(args);
            proof {
                assert(is_first_unrecognized(args@, i as int));
            }
            return Err(GenError::UnexpectedArgument { token, given });
        }
        i += 1;
    }
    Ok(MacroArgs { raise_on_err: args.len() > 0 })
}

} // verus!
