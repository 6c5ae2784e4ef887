//! The type-erased per-call parsing context: a function definition may stash
//! state in it while checking parameters and read that state back at compile
//! time. The engine never inspects the payload; it only clones it, formats it
//! for debugging, and hands it back on request. The payload is drawn from a
//! closed set of plain value shapes.

use vstd::prelude::*;

use crate::digits::{dec_repr, u64_to_dec_string};

verus! {

/// The closed set of payload shapes a context may carry.
#[derive(Debug, Clone, Copy, PartialEq, Eq)]
pub enum CtxValue {
    /// An optional small counter or index.
    OptByte(Option<u8>),
    /// An unsigned 64-bit quantity.
    Uint(u64),
    /// A flag.
    Flag(bool),
}

/// The tag that names a payload's shape, used to ask for one shape back.
#[derive(Debug, Clone, Copy, PartialEq, Eq, Structural)]
pub enum CtxTag {
    /// Tags [`CtxValue::OptByte`].
    OptByte,
    /// Tags [`CtxValue::Uint`].
    Uint,
    /// Tags [`CtxValue::Flag`].
    Flag,
}

/// The tag of a payload value.
pub open spec fn tag_of(v: CtxValue) -> CtxTag {
    match v {
        CtxValue::OptByte(_) => CtxTag::OptByte,
        CtxValue::Uint(_) => CtxTag::Uint,
        CtxValue::Flag(_) => CtxTag::Flag,
    }
}

/// The debug text of a payload value.
pub open spec fn ctx_value_repr(v: CtxValue) -> Seq<char> {
    match v {
        CtxValue::OptByte(Some(b)) => "Some("@ + dec_repr(b as nat) + ")"@,
        CtxValue::OptByte(None) => "None"@,
        CtxValue::Uint(n) => dec_repr(n as nat),
        CtxValue::Flag(true) => "true"@,
        CtxValue::Flag(false) => "false"@,
    }
}

/// Formats a payload value as its debug text.
fn ctx_value_to_string(v: &CtxValue) -> (s: String)
    ensures
        s@ == ctx_value_repr(*v),
{
    match v {
        CtxValue::OptByte(opt) => match opt {
            Some(b) => {
                let mut s = String::from_str("Some(");
                let digits = u64_to_dec_string(*b as u64);
                s.append(digits.as_str());
                s.append(")");
                s
            },
            None => String::from_str("None"),
        },
        CtxValue::Uint(n) => u64_to_dec_string(*n),
        CtxValue::Flag(f) => {
            if *f {
                String::from_str("true")
            } else {
                String::from_str("false")
            }
        },
    }
}

/// A container for state a function definition discovers while checking its
/// parameters, available again at compile time. The engine treats the payload
/// as opaque: it can clone the context (cloning the payload, never sharing
/// it), format it, and return the payload to a caller that names its shape.
#[derive(Debug, Clone, Copy, PartialEq, Eq)]
pub struct FunctionDefinitionContext {
    inner: CtxValue,
}

impl FunctionDefinitionContext {
    /// The payload.
    pub closed spec fn value(&self) -> CtxValue {
        self.inner
    }

    /// Creates a new context holding `t`.
    pub fn new(t: CtxValue) -> (r: Self)
        ensures
            r.value() == t,
    {
        FunctionDefinitionContext { inner: t }
    }

    /// Returns a reference to the payload.
    pub fn as_any_ref(&self) -> (r: &CtxValue)
        ensures
            *r == self.value(),
    {
        &self.inner
    }

    /// Returns a mutable reference to the payload.
    pub fn as_any_mut(&mut self) -> (r: &mut CtxValue)
        ensures
            *r == old(self).value(),
            final(self).value() == *final(r),
    {
        &mut self.inner
    }

    /// Extracts the payload, discarding the container.
    pub fn into_any(self) -> (r: CtxValue)
        ensures
            r == self.value(),
    {
        self.inner
    }

    /// Attempts to recover the payload as the shape named by `tag`; on a
    /// shape mismatch the context is returned unchanged so the caller may try
    /// another shape.
    pub fn downcast(self, tag: CtxTag) -> (r: Result<CtxValue, Self>)
        ensures
            tag_of(self.value()) == tag ==> r == Ok::<CtxValue, Self>(self.value()),
            tag_of(self.value()) != tag ==> r == Err::<CtxValue, Self>(self),
    {
        let matches_tag = match (&self.inner, tag) {
            (CtxValue::OptByte(_), CtxTag::OptByte) => true,
            (CtxValue::Uint(_), CtxTag::Uint) => true,
            (CtxValue::Flag(_), CtxTag::Flag) => true,
            _ => false,
        };
        if matches_tag {
            Ok(self.inner)
        } else {
            Err(self)
        }
    }

    /// Attempts to extract the payload as the shape named by `tag`,
    /// reclaiming sole ownership. Payloads are owned, never aliased, so this
    /// succeeds exactly when the shape matches.
    pub fn try_unwrap(self, tag: CtxTag) -> (r: Result<CtxValue, Self>)
        ensures
            tag_of(self.value()) == tag ==> r == Ok::<CtxValue, Self>(self.value()),
            tag_of(self.value()) != tag ==> r == Err::<CtxValue, Self>(self),
    {
        self.downcast(tag)
    }

    /// Formats the context for debugging: the payload's debug text inside a
    /// `FunctionDefinitionContext(...)` wrapper.
    pub fn debug_string(&self) -> (s: String)
        ensures
            s@ == "FunctionDefinitionContext("@ + ctx_value_repr(self.value()) + ")"@,
    {
        let mut s = String::from_str("FunctionDefinitionContext(");
        let payload = ctx_value_to_string(&self.inner);
        s.append(payload.as_str());
        s.append(")");
        s
    }
}

} // verus!
