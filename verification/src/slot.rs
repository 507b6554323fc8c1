//! Relations between one slot of a per-component container before and after
//! it was passed through a caller-supplied closure.
//!
//! Every material component (roughness, specular, glossy, diffuse, emission,
//! normal) is an optional slot.  The containers of this crate apply closures
//! slot by slot; these predicates say, for a single slot, what the result is
//! in terms of the closure's own `ensures`.
use vstd::prelude::*;

verus! {

/// `mapper` may be called on the value held by `src`, if any.
pub open spec fn can_map<T, U, F: Fn(T) -> U>(mapper: F, src: Option<T>) -> bool {
    src matches Some(x) ==> call_requires(mapper, (x,))
}

/// `dst` is empty exactly when `src` is, and otherwise holds a result that
/// `mapper` may return for the value of `src`.
pub open spec fn mapped_by<T, U, F: Fn(T) -> U>(mapper: F, src: Option<T>, dst: Option<U>) -> bool {
    match src {
        Some(x) => dst matches Some(y) && call_ensures(mapper, (x,), y),
        None => dst is None,
    }
}

/// `mapper` may be called with the component's name and the value of `src`, if any.
pub open spec fn can_map_named<T, U, F: FnMut(&str, T) -> U>(
    mapper: F,
    name: &str,
    src: Option<T>,
) -> bool {
    src matches Some(x) ==> call_requires(mapper, (name, x))
}

/// `dst` is empty exactly when `src` is, and otherwise holds a result that
/// `mapper` may return for the component's name and the value of `src`.
pub open spec fn named_mapped_by<T, U, F: FnMut(&str, T) -> U>(
    mapper: F,
    name: &str,
    src: Option<T>,
    dst: Option<U>,
) -> bool {
    match src {
        Some(x) => dst matches Some(y) && call_ensures(mapper, (name, x), y),
        None => dst is None,
    }
}

/// `dst` is empty when `src` is, and otherwise is an option that `mapper` may
/// return for the component's name and the value of `src`.
pub open spec fn named_then_by<T, U, F: FnMut(&str, T) -> Option<U>>(
    mapper: F,
    name: &str,
    src: Option<T>,
    dst: Option<U>,
) -> bool {
    match src {
        Some(x) => call_ensures(mapper, (name, x), dst),
        None => dst is None,
    }
}

/// `fun` may be called with the component's name when `src` is empty.
pub open spec fn can_fill<T, F: FnMut(&str) -> Option<T>>(fun: F, name: &str, src: Option<T>) -> bool {
    src is None ==> call_requires(fun, (name,))
}

/// `dst` keeps the value of `src` when there is one; otherwise it is an
/// option that `fun` may return for the component's name.
pub open spec fn filled_by<T, F: FnMut(&str) -> Option<T>>(
    fun: F,
    name: &str,
    src: Option<T>,
    dst: Option<T>,
) -> bool {
    match src {
        Some(x) => dst == Some(x),
        None => call_ensures(fun, (name,), dst),
    }
}

} // verus!
