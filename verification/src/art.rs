//! The decoded artwork image.
//!
//! The state machine never looks inside an image: it only stores the
//! most recently arrived one, clears it when the track changes, and
//! discards arrivals whose track key is stale.  The image type of the
//! decoding crate is therefore declared opaquely and carried through.

use vstd::prelude::*;

verus! {

/// Declares `image::DynamicImage` so that an artwork value can be held
/// and passed around; nothing about its contents is assumed.
#[verifier::external_type_specification]
#[verifier::external_body]
pub struct ExDynamicImage(image::DynamicImage);

} // verus!
