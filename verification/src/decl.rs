//! The input side of the generator: function declarations as the generation
//! directive sees them, the directive's flags, and generation-time errors.

use vstd::prelude::*;

verus! {

/// Binding pattern of one declared parameter: a simple name, or any other
/// pattern shape, which the generator rejects.
#[derive(Debug)]
pub enum Pattern {
    Name(String),
    Other,
}

/// An ordinary typed parameter: its binding pattern and the source text of
/// its declared high-level type.
#[derive(Debug)]
pub struct Param {
    pub pat: Pattern,
    pub ty: String,
}

/// One input of a declaration: a method-style receiver (always rejected) or
/// an ordinary typed parameter.
#[derive(Debug)]
pub enum FnArg {
    Receiver,
    Typed(Param),
}

/// A function declaration fed to the generation directive: its name, the
/// ordered inputs (by convention the first one is the runtime-handle
/// parameter), the declared return type if any, and the body's source text.
#[derive(Debug)]
pub struct FnDecl {
    pub name: String,
    pub inputs: Vec<FnArg>,
    pub output: Option<String>,
    pub body: String,
}

/// Configuration selected at directive-invocation time. With `raise_on_err`
/// the wrapped body must return a success-value / error-string result, and a
/// returned error is raised as an OCaml exception.
#[derive(Debug)]
pub struct MacroArgs {
    pub raise_on_err: bool,
}

/// A generation-time failure: the declaration or the directive invocation is
/// malformed and no code is generated.
#[derive(Debug)]
pub enum GenError {
    /// A method-style receiver stood where a typed parameter was expected.
    ReceiverNotSupported,
    /// A parameter's binding pattern was not a simple name.
    ExpectedIdent,
    /// The declaration has no parameter at all, so no runtime handle.
    MissingHandle,
    /// The declaration declares no return type.
    NoReturnType,
    /// The generation directive was invoked with an unrecognized token.
    UnexpectedArgument { token: String, given: Vec<String> },
    /// The annotated source text could not be parsed as a function item.
    Unparseable,
}

/// Whether one input is a typed parameter bound by a simple name; only such
/// inputs are accepted by the signature transformer.
pub open spec fn arg_named(a: FnArg) -> bool {
    match a {
        FnArg::Typed(p) => p.pat is Name,
        FnArg::Receiver => false,
    }
}

/// The bound name of a typed, simply-named input.
pub open spec fn arg_name(a: FnArg) -> Seq<char>
    recommends
        arg_named(a),
{
    match a {
        FnArg::Typed(p) => match p.pat {
            Pattern::Name(n) => n@,
            Pattern::Other => Seq::empty(),
        },
        FnArg::Receiver => Seq::empty(),
    }
}

/// The typed parameter carried by an input.
pub open spec fn typed_param(a: FnArg) -> Param
    recommends
        a is Typed,
{
    match a {
        FnArg::Typed(p) => p,
        FnArg::Receiver => arbitrary(),
    }
}

/// A declaration the generator accepts: at least the handle parameter, every
/// input a typed parameter bound by a simple name, and a declared return
/// type.
pub open spec fn decl_valid(d: FnDecl) -> bool {
    &&& d.inputs@.len() >= 1
    &&& forall|i: int| 0 <= i < d.inputs@.len() ==> arg_named(#[trigger] d.inputs@[i])
    &&& d.output is Some
}

/// The views of a list of directive tokens.
pub open spec fn token_views(toks: Seq<String>) -> Seq<Seq<char>> {
    toks.map_values(|t: String| t@)
}

/// One token rendered inside the token-list text, in double quotes.
pub open spec fn spec_quoted(t: Seq<char>) -> Seq<char> {
    "\""@ + t + "\""@
}

/// The comma-separated interior of the rendered token list.
pub open spec fn spec_token_list_items(toks: Seq<Seq<char>>) -> Seq<char>
    decreases toks.len(),
{
    if toks.len() == 0 {
        Seq::empty()
    } else if toks.len() == 1 {
        spec_quoted(toks[0])
    } else {
        spec_token_list_items(toks.drop_last()) + ", "@ + spec_quoted(toks.last())
    }
}

/// The rendered token list: every given token, quoted, in order, between
/// brackets.
pub open spec fn spec_token_list(toks: Seq<Seq<char>>) -> Seq<char> {
    "["@ + spec_token_list_items(toks) + "]"@
}

/// The failure text for an unrecognized directive token: it names the
/// offending token and lists every token that was given.
pub open spec fn spec_unexpected_argument_message(token: Seq<char>, given: Seq<Seq<char>>) -> Seq<
    char,
> {
    "unexpected argument in ocaml_interop_export: "@ + token + " in "@ + spec_token_list(given)
}

impl GenError {
    /// The failure text reported for this error.
    pub open spec fn spec_message(&self) -> Seq<char> {
        match self {
            GenError::ReceiverNotSupported => "receiver not supported"@,
            GenError::ExpectedIdent => "expected ident"@,
            GenError::MissingHandle => "expected at least the runtime handle parameter"@,
            GenError::NoReturnType => "functions with no return type are not supported"@,
            GenError::UnexpectedArgument { token, given } => spec_unexpected_argument_message(
                token@,
                token_views(given@),
            ),
            GenError::Unparseable => "could not parse the annotated item as a function"@,
        }
    }

    /// Render the failure text. For an unrecognized directive token the text
    /// names the token and lists the full token set that was supplied.
    pub fn message(&self) -> (m: String)
        ensures
            m@ == self.spec_message(),
    {
        match self {
            GenError::ReceiverNotSupported => String::from_str("receiver not supported"),
            GenError::ExpectedIdent => String::from_str("expected ident"),
            GenError::MissingHandle => String::from_str(
                "expected at least the runtime handle parameter",
            ),
            GenError::NoReturnType => String::from_str(
                "functions with no return type are not supported",
            ),
            GenError::UnexpectedArgument { token, given } => unexpected_argument_message(
                token,
                given,
            ),
            GenError::Unparseable => String::from_str(
                "could not parse the annotated item as a function",
            ),
        }
    }
}

/// Render the token list as `["a", "b"]`, quoting each token in order.
fn render_token_list(toks: &Vec<String>) -> (m: String)
    ensures
        m@ == spec_token_list(token_views(toks@)),
{
    let ghost views = token_views(toks@);
    let mut m = String::from_str("[");
    let mut i: usize = 0;
    while i < toks.len()
        invariant
            0 <= i <= toks@.len(),
            views == token_views(toks@),
            views.len() == toks@.len(),
            m@ == "["@ + spec_token_list_items(views.take(i as int)),
        decreases toks@.len() - i,
    {
        if i > 0 {
            m.append(", ");
        }
        m.append("\"");
        m.append(toks[i].as_str());
        m.append("\"");
        proof {
            assert(views.take(i + 1).drop_last() =~= views.take(i as int));
            assert(views.take(i + 1).last() == views[i as int]);
            assert(views[i as int] == toks@[i as int]@);
            if i == 0 {
                assert(spec_token_list_items(views.take(1)) == spec_quoted(views[0]));
            }
            assert(m@ =~= "["@ + spec_token_list_items(views.take(i + 1)));
        }
        i += 1;
    }
    m.append("]");
    proof {
        assert(views.take(toks@.len() as int) =~= views);
        assert(m@ =~= "["@ + spec_token_list_items(views) + "]"@);
    }
    m
}

/// Render the failure text for an unrecognized directive token.
fn unexpected_argument_message(token: &String, given: &Vec<String>) -> (m: String)
    ensures
        m@ == spec_unexpected_argument_message(token@, token_views(given@)),
{
    let mut m = String::from_str("unexpected argument in ocaml_interop_export: ");
    m.append(token.as_str());
    m.append(" in ");
    let list = render_token_list(given);
    m.append(list.as_str());
    proof {
        assert(m@ =~= spec_unexpected_argument_message(token@, token_views(given@)));
    }
    m
}

} // verus!
