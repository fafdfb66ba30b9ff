use hound::Error as HoundError;
use vstd::prelude::*;

verus! {

/// The error type of the hound container reader, carried through opaquely.
#[verifier::external_type_specification]
#[verifier::external_body]
pub struct ExHoundError(HoundError);

} // verus!
