//! Classification values shared across the result model: availability,
//! entity kinds, USR identifiers, diagnostics, and decode errors.

use vstd::prelude::*;

verus! {

/// Wire code the engine uses for a candidate that is fully available.
pub const AVAILABILITY_AVAILABLE: u32 = 0;

/// Wire code for a candidate that is available but deprecated.
pub const AVAILABILITY_DEPRECATED: u32 = 1;

/// Wire code for a candidate that is not available.
pub const AVAILABILITY_NOT_AVAILABLE: u32 = 2;

/// Wire code for a candidate that exists but is not accessible from the
/// completion point.
pub const AVAILABILITY_NOT_ACCESSIBLE: u32 = 3;

/// Availability of a completion candidate, as reported by the engine.
///
/// A completion UI should visually distinguish candidates that are not
/// `Available`, but may still offer them.
#[derive(Clone, Copy, Debug, PartialEq, Eq, Structural)]
pub enum Availability {
    /// The candidate is available and may be used freely.
    Available,
    /// The candidate is available but has been marked deprecated.
    Deprecated,
    /// The candidate is not available in the current language version.
    NotAvailable,
    /// The candidate exists but is not accessible from the completion point.
    NotAccessible,
}

/// Why a raw result set handed over by the engine failed to decode.
///
/// Any of these indicates a contract breach between this library and the
/// engine (for example a version mismatch), never an ordinary "no results"
/// outcome, which decodes successfully to empty collections.
#[derive(Clone, Copy, Debug, PartialEq, Eq, Structural)]
pub enum DecodeError {
    /// A chunk carried a kind tag outside the known taxonomy.
    UnknownChunkKind,
    /// A template carried an availability code outside the known enumeration.
    UnknownAvailability,
    /// An optional chunk did not point at a nested template lying strictly
    /// later in the template arena.
    InvalidNestedTemplate,
    /// A candidate pointed at a template index outside the arena.
    InvalidTemplateIndex,
}

/// The categorization of the AST entity a completion candidate produces.
///
/// The engine defines the meaning of the codes; this library treats them as
/// opaque classification values and never orders or interprets them.
#[derive(Clone, Copy, Debug, PartialEq, Eq, Structural)]
pub struct EntityKind {
    /// The engine's cursor-kind code.
    pub code: u32,
}

/// A Unified Symbol Resolution identifier for an entity.
#[derive(Clone, Debug)]
pub struct Usr(pub String);

/// One diagnostic raised while the engine prepared the completion context,
/// already rendered by the diagnostic collaborator.
#[derive(Clone, Debug)]
pub struct Diagnostic {
    /// The rendered diagnostic message.
    pub text: String,
}

/// What `decode_availability` returns for each wire code.
pub open spec fn spec_decode_availability(code: u32) -> Result<Availability, DecodeError> {
    if code == AVAILABILITY_AVAILABLE {
        Ok(Availability::Available)
    } else if code == AVAILABILITY_DEPRECATED {
        Ok(Availability::Deprecated)
    } else if code == AVAILABILITY_NOT_AVAILABLE {
        Ok(Availability::NotAvailable)
    } else if code == AVAILABILITY_NOT_ACCESSIBLE {
        Ok(Availability::NotAccessible)
    } else {
        Err(DecodeError::UnknownAvailability)
    }
}

/// Decodes the engine's availability code, rejecting unknown codes.
pub fn decode_availability(code: u32) -> (r: Result<Availability, DecodeError>)
    ensures
        r == spec_decode_availability(code),
{
    if code == AVAILABILITY_AVAILABLE {
        Ok(Availability::Available)
    } else if code == AVAILABILITY_DEPRECATED {
        Ok(Availability::Deprecated)
    } else if code == AVAILABILITY_NOT_AVAILABLE {
        Ok(Availability::NotAvailable)
    } else if code == AVAILABILITY_NOT_ACCESSIBLE {
        Ok(Availability::NotAccessible)
    } else {
        Err(DecodeError::UnknownAvailability)
    }
}

} // verus!
