//! A safety layer around an opaque native vector-animation engine.
//!
//! The library owns the logic that must be right before any native call is
//! made: converting caller strings into boundary-safe form (no embedded
//! terminator byte), validating typed property overrides against their
//! documented domains, mapping each property variant onto the engine's
//! numeric tag and ordered argument list, and sequencing the lifecycle of an
//! animation handle (creation, at most one in-flight asynchronous render,
//! flush, destruction). The engine itself — parsing, tweening, rasterizing —
//! is an external collaborator reached by the embedding code, which hands
//! plain values back and forth across this library's contracts.

mod anim;
mod error;
mod props;

pub use anim::{
    lemma_override_args_len, override_args, AnimationSource, LottieAnimation, OverrideArg,
    OverrideCommand, Surface,
};
pub use error::Error;
pub use props::{
    bits_in_zero_to, supported, tag_of, KeyPath, Property, PropertyValue, F32_BITS_HUNDRED,
    F32_BITS_INFINITY, F32_BITS_NEG_ZERO, F32_BITS_ONE, F32_BITS_THREE_SIXTY,
};

use vstd::prelude::*;

verus! {

/// True when the character sequence holds an embedded terminator character.
///
/// A string crossing the native call boundary is passed as a
/// terminator-delimited byte string; a terminator inside the text would be
/// silently truncating, so such strings are rejected outright.
pub open spec fn contains_nul(s: Seq<char>) -> bool {
    exists|i: int| 0 <= i < s.len() && s[i] == '\0'
}

/// Decides whether a string may cross the native boundary: true exactly when
/// it has no embedded terminator character.
pub fn is_boundary_safe(s: &str) -> (r: bool)
    ensures
        r == !contains_nul(s@),
{
    let n = s.unicode_len();
    let mut i: usize = 0;
    while i < n
        invariant
            n == s@.len(),
            0 <= i <= n,
            forall|j: int| 0 <= j < i ==> s@[j] != '\0',
        decreases n - i,
    {
        if s.get_char(i) == '\0' {
            return false;
        }
        i = i + 1;
    }
    true
}

} // verus!
