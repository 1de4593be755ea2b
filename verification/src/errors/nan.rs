//! Detection of values that are not numbers.

use crate::basics::binary64::{is_nan, nan};
use crate::errors::MainErr;
use vstd::prelude::*;
use vstd::string::*;

verus! {

/// An error type that can report a value that is not a number.
pub trait F64NaNErr: Sized {
    /// The message that the error carries.
    spec fn reported(&self) -> Seq<char>;

    /// Makes the error that carries `msg`.
    fn from_msg(msg: String) -> (r: Self)
        ensures
            r.reported() == msg@,
    ;
}

impl F64NaNErr for MainErr {
    open spec fn reported(&self) -> Seq<char> {
        self@
    }

    fn from_msg(msg: String) -> (r: Self) {
        Self::e(msg.as_str())
    }
}

/// The message reported for a value that is not a number and was met at
/// `val_details`.
pub open spec fn nan_message(val_details: Seq<char>) -> Seq<char> {
    "NaN found when checking "@ + val_details
}

/// Hands `value` back if it is a number, and reports where it was met if not.
pub fn check<E: F64NaNErr>(value: u64, val_details: &str) -> (r: Result<u64, E>)
    ensures
        nan(value) <==> r is Err,
        r is Ok ==> r->Ok_0 == value,
        r is Err ==> r->Err_0.reported() == nan_message(val_details@),
{
    if is_nan(value) {
        let msg = String::from_str("NaN found when checking ").concat(val_details);
        return Err(E::from_msg(msg));
    }
    Ok(value)
}

} // verus!
