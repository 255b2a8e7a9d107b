//! The shapes of common request payloads.
use uuid::Uuid;
use vstd::prelude::*;

verus! {

/// `uuid::Uuid`.
#[verifier::external_type_specification]
#[verifier::external_body]
pub struct ExUuid(Uuid);

/// A list of identifiers.
pub struct IdsVecDto {
    pub ids: Vec<Uuid>,
}

/// One identifier.
pub struct IdAsUuid {
    pub id: Uuid,
}

/// An identifier taken from a path.
pub struct IdPathParam {
    pub id: String,
}

/// A reason given by a user.
pub struct ReasonPayload {
    pub reason: String,
}

/// The least number of characters of a reason.
pub const REASON_MIN: usize = 3;

/// The greatest number of characters of a reason.
pub const REASON_MAX: usize = 1500;

impl ReasonPayload {
    /// Tells whether the reason has between 3 and 1500 characters.
    pub fn has_valid_length(&self) -> (r: bool)
        ensures
            r == (REASON_MIN <= self.reason@.len() <= REASON_MAX),
    {
        let n = self.reason.as_str().unicode_len();
        REASON_MIN <= n && n <= REASON_MAX
    }
}

} // verus!
