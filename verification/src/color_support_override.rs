//! The capability override store: a single cell holding an explicitly forced
//! capability value that callers consult before falling back to detection.
//!
//! The store keeps the value as a small-integer code; the conversions
//! between `ColorSupport` and `i8` are part of the public surface so that
//! callers may persist the value in a primitive-typed cell of their own.

use vstd::prelude::*;

use crate::detect_color_support::ColorSupport;

verus! {

/// The small-integer code under which the store keeps a capability value.
pub open spec fn spec_code_of(v: ColorSupport) -> i8 {
    match v {
        ColorSupport::Ansi256 => 1,
        ColorSupport::Truecolor => 2,
        ColorSupport::NoColor => 3,
        ColorSupport::NotSet => -1i8,
    }
}

/// The capability value that a small-integer code stands for; every code
/// outside the encoding decodes to `NotSet`.
pub open spec fn spec_support_of_code(c: i8) -> ColorSupport {
    if c == 1 {
        ColorSupport::Ansi256
    } else if c == 2 {
        ColorSupport::Truecolor
    } else if c == 3 {
        ColorSupport::NoColor
    } else {
        ColorSupport::NotSet
    }
}

/// Decoding inverts encoding: a capability value survives the round trip
/// through its small-integer code unchanged, so a store that keeps codes
/// can never hand back a value that was not stored.
pub proof fn lemma_code_round_trip(v: ColorSupport)
    ensures
        spec_support_of_code(spec_code_of(v)) == v,
{
}

impl From<i8> for ColorSupport {
    /// Decodes a small-integer code to the capability value it stands for.
    fn from(value: i8) -> (r: ColorSupport) {
        match value {
            1 => ColorSupport::Ansi256,
            2 => ColorSupport::Truecolor,
            3 => ColorSupport::NoColor,
            _ => ColorSupport::NotSet,
        }
    }
}

impl vstd::std_specs::convert::FromSpecImpl<i8> for ColorSupport {
    open spec fn obeys_from_spec() -> bool {
        true
    }

    open spec fn from_spec(v: i8) -> ColorSupport {
        spec_support_of_code(v)
    }
}

impl From<ColorSupport> for i8 {
    /// Encodes a capability value as its small-integer code.
    fn from(value: ColorSupport) -> (r: i8) {
        match value {
            ColorSupport::Ansi256 => 1,
            ColorSupport::Truecolor => 2,
            ColorSupport::NoColor => 3,
            ColorSupport::NotSet => -1,
        }
    }
}

impl vstd::std_specs::convert::FromSpecImpl<ColorSupport> for i8 {
    open spec fn obeys_from_spec() -> bool {
        true
    }

    open spec fn from_spec(v: ColorSupport) -> i8 {
        spec_code_of(v)
    }
}

/// The override store: one cell holding a forced capability value, `NotSet`
/// on a freshly initialized store. Its view is the capability value that the
/// stored code stands for.
pub struct OverrideStore {
    code: i8,
}

impl View for OverrideStore {
    type V = ColorSupport;

    closed spec fn view(&self) -> ColorSupport {
        spec_support_of_code(self.code)
    }
}

impl OverrideStore {
    /// A freshly initialized store holds `NotSet`: no override is active.
    pub fn new() -> (s: OverrideStore)
        ensures
            s@ == ColorSupport::NotSet,
    {
        OverrideStore { code: -1 }
    }
}

impl Default for OverrideStore {
    /// The default store holds `NotSet`: no override is active.
    fn default() -> (s: OverrideStore)
        ensures
            s@ == ColorSupport::NotSet,
    {
        OverrideStore::new()
    }
}

/// Replaces the stored override value; it always succeeds, and the store
/// afterwards holds exactly the given value.
pub fn color_support_override_set(store: &mut OverrideStore, value: ColorSupport)
    ensures
        final(store)@ == value,
{
    store.code = i8::from(value);
}

/// Reads the current override value: exactly what the store holds, which is
/// `NotSet` until a set has happened.
pub fn color_support_get(store: &OverrideStore) -> (r: ColorSupport)
    ensures
        r == store@,
{
    ColorSupport::from(store.code)
}

} // verus!
