//! From a dispatcher's reply to a value of the caller's type.

use vstd::prelude::*;
use crate::error::{Error, ErrorKind};

verus! {

/// What `val` returns for a value of the store on which the decoder
/// returned `outcome`: what was decoded, or an `Execution` error with the
/// decoder's description.
pub open spec fn decoded_as<T>(outcome: Result<T, String>, decoded: Result<T, Error>) -> bool {
    match outcome {
        Ok(t) => decoded == Ok::<T, Error>(t),
        Err(text) => decoded == Err::<T, Error>(
            Error { kind: ErrorKind::Execution, message: text },
        ),
    }
}

/// Translates a dispatcher's reply into a value of the caller's type.
///
/// An error passes through as it is, and the decoder is not called. A value
/// of the store is handed to `decode`: what it makes of the value is
/// returned, and where it cannot make anything of it, an `Execution` error
/// carries its description.
pub fn val<V, T, F: FnOnce(V) -> Result<T, String>>(v: Result<V, Error>, decode: F) -> (decoded:
    Result<T, Error>)
    requires
        v matches Ok(value) ==> call_requires(decode, (value,)),
    ensures
        v matches Err(e) ==> decoded == Err::<T, Error>(e),
        v matches Ok(value) ==> exists|outcome: Result<T, String>|
            #[trigger] call_ensures(decode, (value,), outcome) && decoded_as(outcome, decoded),
{
    match v {
        Err(e) => Err(e),
        Ok(value) => {
            let outcome = decode(value);
            match outcome {
                Ok(t) => Ok(t),
                Err(text) => Err(Error::execution(text)),
            }
        },
    }
}

} // verus!
