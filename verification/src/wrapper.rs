use vstd::prelude::*;

verus! {

/// A transparent diagnostic wrapper around one role of the deserialization
/// protocol. It exclusively owns the wrapped implementation and records how
/// deeply nested the wrapped object is; it carries no other state, so the
/// wrapper is never observably different from its inner value.
#[derive(Debug, Clone)]
pub struct Wrapper<A> {
    /// The wrapped implementation of one protocol role.
    pub inner: A,
    /// Nesting level: zero at the root, one more for every nested sub-object.
    pub depth: u32,
}

impl<A> Wrapper<A> {
    /// Wraps a root object: the value is stored unchanged, at depth zero.
    pub fn new(inner: A) -> (w: Wrapper<A>)
        ensures
            w.inner == inner,
            w.depth == 0,
    {
        Wrapper { inner, depth: 0 }
    }

    /// Wraps a nested sub-object handed out while `self` is being driven:
    /// the value is stored unchanged, exactly one level deeper than `self`.
    pub fn sub_wrap<B>(&self, inner: B) -> (w: Wrapper<B>)
        requires
            self.depth < u32::MAX,
        ensures
            w.inner == inner,
            w.depth == self.depth + 1,
    {
        Wrapper { inner, depth: self.depth + 1 }
    }

    /// Gives the wrapped value back, verbatim.
    pub fn unwrap(self) -> (r: A)
        ensures
            r == self.inner,
    {
        self.inner
    }
}

impl<A: core::default::Default> Default for Wrapper<A> {
    /// A root wrapper around the inner type's default value.
    fn default() -> (w: Self)
        ensures
            w.depth == 0,
    {
        Wrapper::new(A::default())
    }
}

impl<A> From<A> for Wrapper<A> {
    /// A root wrapper around `value`: the value is stored unchanged, at
    /// depth zero.
    fn from(value: A) -> (w: Self) {
        Wrapper::new(value)
    }
}

impl<A> vstd::std_specs::convert::FromSpecImpl<A> for Wrapper<A> {
    open spec fn obeys_from_spec() -> bool {
        true
    }

    open spec fn from_spec(v: A) -> Self {
        Wrapper { inner: v, depth: 0 }
    }
}

/// Entry point of the diagnostic layer: builds the root wrapper that is then
/// driven in place of the concrete backend it wraps.
pub struct Deserializer;

impl Deserializer {
    /// Wraps a concrete deserialization backend at depth zero; driving the
    /// result forwards every call to `deserializer`, so the decoded value and
    /// any propagated failure are exactly what the backend itself produces.
    pub fn new<D>(deserializer: D) -> (w: Wrapper<D>)
        ensures
            w.inner == deserializer,
            w.depth == 0,
    {
        Wrapper::new(deserializer)
    }
}

/// Re-wraps the outcome of a nested decode of the wrapper's own value type:
/// a produced value becomes a fresh root wrapper around it, and a failure
/// passes through unmodified.
pub fn rewrap_value<T, E>(r: Result<T, E>) -> (out: Result<Wrapper<T>, E>)
    ensures
        match r {
            Ok(v) => (out matches Ok(w) && w.inner == v && w.depth == 0),
            Err(e) => out == Err::<Wrapper<T>, E>(e),
        },
{
    match r {
        Ok(v) => Ok(Wrapper::new(v)),
        Err(e) => Err(e),
    }
}

/// Unwraps a decoded value retrieved through the wrapper: the value loses its
/// wrapper and nothing else changes, and a failure passes through unmodified.
pub fn unwrap_value<T, E>(r: Result<Wrapper<T>, E>) -> (out: Result<T, E>)
    ensures
        match r {
            Ok(w) => out == Ok::<T, E>(w.inner),
            Err(e) => out == Err::<T, E>(e),
        },
{
    match r {
        Ok(w) => Ok(w.unwrap()),
        Err(e) => Err(e),
    }
}

/// Unwraps an optionally retrieved element: a present element loses its
/// wrapper, while the end of the sequence and a failure pass through
/// unmodified.
pub fn unwrap_element<T, E>(r: Result<Option<Wrapper<T>>, E>) -> (out: Result<Option<T>, E>)
    ensures
        match r {
            Ok(Some(w)) => out == Ok::<Option<T>, E>(Some(w.inner)),
            Ok(None) => out == Ok::<Option<T>, E>(None::<T>),
            Err(e) => out == Err::<Option<T>, E>(e),
        },
{
    match r {
        Ok(Some(w)) => Ok(Some(w.unwrap())),
        Ok(None) => Ok(None),
        Err(e) => Err(e),
    }
}

/// Unwraps an optionally retrieved map entry: both the key and the value of a
/// present entry lose their wrappers, while the end of the map and a failure
/// pass through unmodified.
pub fn unwrap_entry<K, V, E>(r: Result<Option<(Wrapper<K>, Wrapper<V>)>, E>) -> (out: Result<
    Option<(K, V)>,
    E,
>)
    ensures
        match r {
            Ok(Some((k, v))) => out == Ok::<Option<(K, V)>, E>(Some((k.inner, v.inner))),
            Ok(None) => out == Ok::<Option<(K, V)>, E>(None::<(K, V)>),
            Err(e) => out == Err::<Option<(K, V)>, E>(e),
        },
{
    match r {
        Ok(Some((k, v))) => Ok(Some((k.unwrap(), v.unwrap()))),
        Ok(None) => Ok(None),
        Err(e) => Err(e),
    }
}

/// Unwraps a resolved variant tag: the tag loses its wrapper while the
/// variant accessor beside it is deliberately left as it came, and a failure
/// passes through unmodified.
pub fn unwrap_variant<T, V, E>(r: Result<(Wrapper<T>, V), E>) -> (out: Result<(T, V), E>)
    ensures
        match r {
            Ok((t, v)) => out == Ok::<(T, V), E>((t.inner, v)),
            Err(e) => out == Err::<(T, V), E>(e),
        },
{
    match r {
        Ok((t, v)) => Ok((t.unwrap(), v)),
        Err(e) => Err(e),
    }
}

/// Transparency: wrapping carries the inner value through unchanged, whatever
/// the depth, so unwrapping returns exactly the value that was wrapped.
pub proof fn lemma_wrap_transparent<A>(inner: A, depth: u32)
    ensures
        (Wrapper { inner, depth }).inner == inner,
{
}

/// Transparency of the decode path, success and failure alike: whenever the
/// outcome of a nested decode is re-wrapped as `rewrap_value` promises and
/// later unwrapped as `unwrap_value` promises, the final outcome is exactly
/// the outcome that went in — the same value on success, the same error on
/// failure.
pub proof fn lemma_rewrap_unwrap_transparent<T, E>(
    r: Result<T, E>,
    rewrapped: Result<Wrapper<T>, E>,
    unwrapped: Result<T, E>,
)
    requires
        match r {
            Ok(v) => (rewrapped matches Ok(w) && w.inner == v),
            Err(e) => rewrapped == Err::<Wrapper<T>, E>(e),
        },
        match rewrapped {
            Ok(w) => unwrapped == Ok::<T, E>(w.inner),
            Err(e) => unwrapped == Err::<T, E>(e),
        },
    ensures
        unwrapped == r,
{
}

proof fn lemma_depth_at(depths: Seq<u32>, i: int)
    requires
        0 <= i < depths.len(),
        forall|k: int| 0 < k < depths.len() ==> #[trigger] depths[k] == depths[k - 1] + 1,
    ensures
        depths[i] == depths[0] + i,
    decreases i,
{
    if i > 0 {
        lemma_depth_at(depths, i - 1);
    }
}

/// Depth monotonicity: along any chain of wraps in which each wrapper is one
/// level deeper than its parent, the depth at level `i` is the root's depth
/// plus `i`; in particular the depth strictly increases along the chain and
/// no wrap ever decreases it.
pub proof fn lemma_depth_monotonic(depths: Seq<u32>)
    requires
        depths.len() > 0,
        forall|k: int| 0 < k < depths.len() ==> #[trigger] depths[k] == depths[k - 1] + 1,
    ensures
        forall|i: int| 0 <= i < depths.len() ==> #[trigger] depths[i] == depths[0] + i,
        forall|i: int, j: int| 0 <= i < j < depths.len() ==> #[trigger] depths[i] < #[trigger] depths[j],
{
    assert forall|i: int| 0 <= i < depths.len() implies #[trigger] depths[i] == depths[0] + i by {
        lemma_depth_at(depths, i);
    }
}

} // verus!
