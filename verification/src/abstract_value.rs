//! The opaque-handle convention's carrier: a native value crossing the
//! boundary with no direct foreign representation travels inside this
//! wrapper, boxed on the way out and cloned back out of the box on the way
//! in. The conversions themselves are the marshalling collaborators'; only
//! the plain carrier and its unwrapping live here.

use vstd::prelude::*;

verus! {

/// A native value carried across the boundary as an opaque boxed handle.
#[derive(Debug)]
pub struct Abstract<T>(pub T);

/// The value inside one carrier.
pub open spec fn spec_unwrapped<T>(a: Abstract<T>) -> T {
    a.0
}

/// Strip the carriers off a whole list, keeping the values in order.
pub fn unwrap_abstract_vec<T>(v: Vec<Abstract<T>>) -> (r: Vec<T>)
    ensures
        r@ == v@.map_values(|a: Abstract<T>| spec_unwrapped(a)),
{
    let ghost orig = v@;
    let mut rest = v;
    let mut r: Vec<T> = Vec::new();
    while rest.len() > 0
        invariant
            orig.len() == r@.len() + rest@.len(),
            r@ =~= orig.take(r@.len() as int).map_values(|a: Abstract<T>| spec_unwrapped(a)),
            rest@ =~= orig.skip(r@.len() as int),
        decreases rest@.len(),
    {
        let a = rest.remove(0);
        let Abstract(x) = a;
        r.push(x);
        proof {
            assert(r@ =~= orig.take(r@.len() as int).map_values(
                |a: Abstract<T>| spec_unwrapped(a),
            ));
            assert(rest@ =~= orig.skip(r@.len() as int));
        }
    }
    proof {
        assert(orig.take(orig.len() as int) =~= orig);
        assert(r@ =~= orig.map_values(|a: Abstract<T>| spec_unwrapped(a)));
    }
    r
}

} // verus!
