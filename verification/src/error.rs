//! The errors that the library's own computations report.
use vstd::prelude::*;

verus! {

#[verifier::external_type_specification]
#[verifier::external_body]
pub struct ExUrlParseError(url::ParseError);

/// The address of a request to the Mojang API could not be formed. The errors of the
/// network clients are the bot's own business.
pub enum Error {
    Url(url::ParseError),
}

} // verus!
