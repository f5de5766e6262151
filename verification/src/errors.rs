//! How the failures of chain calls are reported to the client.

use vstd::prelude::*;

use crate::response::RequestError;

verus! {

/// The failure of a dispatched extrinsic.
#[derive(Clone, Debug)]
pub enum DispatchFailure {
    /// An error of a pallet: the pallet and variant names when the metadata has them, and
    /// the debug text of the runtime's error value.
    Module { details: Option<(String, String)>, root: String },
    /// Any other failure.
    Other,
}

/// Which pallet family an endpoint reports errors for; it names the error body.
#[derive(Clone, Copy, Debug, PartialEq, Eq, Structural)]
pub enum ErrorSource {
    Sugarfunge,
    FulaPallet,
    FulaPool,
}

/// The description of an error body for a pallet family.
pub open spec fn source_text(source: ErrorSource) -> Seq<char> {
    match source {
        ErrorSource::Sugarfunge => "Sugarfunge error"@,
        ErrorSource::FulaPallet => "Fula Pallet error"@,
        ErrorSource::FulaPool => "Fula Pool error"@,
    }
}

/// How a dispatch failure is answered: a module error with an error body, any other
/// failure with the plain text `Not a Module Error`.
#[derive(Clone, Debug)]
pub enum DispatchAnswer {
    Body(RequestError),
    NotModule,
}

/// The message of a module error: `Pallet: <pallet>, Variant: <variant>` when the names are
/// known, the debug text of the error value otherwise.
pub open spec fn module_error_message(details: Option<(String, String)>, root: String) -> Seq<char> {
    match details {
        Some((pallet, variant)) => "Pallet: "@ + pallet@ + ", Variant: "@ + variant@,
        None => root@,
    }
}

/// The answer to a failed dispatch, for the pallet family `source`.
pub fn dispatch_error_answer(source: ErrorSource, failure: DispatchFailure) -> (r: DispatchAnswer)
    ensures
        failure is Other <==> r is NotModule,
        failure matches DispatchFailure::Module { details, root } ==> (r matches DispatchAnswer::Body(e)
            && e.message@ == module_error_message(details, root) && e.description@ == source_text(source)),
{
    match failure {
        DispatchFailure::Other => DispatchAnswer::NotModule,
        DispatchFailure::Module { details, root } => {
            let message = match details {
                Some((pallet, variant)) => {
                    let mut m = String::from_str("Pallet: ");
                    m.append(pallet.as_str());
                    m.append(", Variant: ");
                    m.append(variant.as_str());
                    m
                },
                None => root,
            };
            let description = match source {
                ErrorSource::Sugarfunge => String::from_str("Sugarfunge error"),
                ErrorSource::FulaPallet => String::from_str("Fula Pallet error"),
                ErrorSource::FulaPool => String::from_str("Fula Pool error"),
            };
            DispatchAnswer::Body(RequestError { message, description })
        },
    }
}

/// The body of a failed client call: its text, described as a client error.
pub fn subxt_error_body(text: String) -> (r: RequestError)
    ensures
        r.message@ == text@,
        r.description@ == "Subxt error"@,
{
    RequestError { message: text, description: String::from_str("Subxt error") }
}

/// The body of an address that is not valid SS58, with the debug text of the decoding
/// error.
pub fn account_error_body(debug: String) -> (r: RequestError)
    ensures
        r.message@ == "Invalid account"@,
        r.description@ == debug@,
{
    RequestError { message: String::from_str("Invalid account"), description: debug }
}

/// The body of a byte slice of the wrong length, with the debug text of the error.
pub fn slice_error_body(debug: String) -> (r: RequestError)
    ensures
        r.message@ == "Invalid slice conversion"@,
        r.description@ == debug@,
{
    RequestError { message: String::from_str("Invalid slice conversion"), description: debug }
}

} // verus!
