//! Coordinates, kept as the decimal text they were read from.

use crate::text::{is_float, is_float_text};
use vstd::prelude::*;

verus! {

/// A latitude or a longitude in decimal degrees.
///
/// The value is held as its text, which always has the form of a
/// floating-point number, so that a reader of it can turn it into one without
/// a check of its own.
#[derive(Debug, PartialEq, Eq)]
pub struct Coordinate {
    text: String,
}

impl View for Coordinate {
    type V = Seq<char>;

    closed spec fn view(&self) -> Seq<char> {
        self.text@
    }
}

impl Coordinate {
    #[verifier::type_invariant]
    spec fn well_formed(self) -> bool {
        is_float(self.text@)
    }

    /// Accepts `text` where it has the form of a floating-point number.
    pub fn parse(text: &str) -> (c: Option<Coordinate>)
        ensures
            c is Some <==> is_float(text@),
            c matches Some(v) ==> v@ == text@,
    {
        if is_float_text(text) {
            Some(Coordinate { text: text.to_owned() })
        } else {
            None
        }
    }

    /// The text of the coordinate.
    pub fn as_str(&self) -> (text: &str)
        ensures
            text@ == self@,
            is_float(text@),
    {
        proof {
            use_type_invariant(self);
        }
        self.text.as_str()
    }
}

impl Clone for Coordinate {
    fn clone(&self) -> (c: Self)
        ensures
            c == *self,
    {
        proof {
            use_type_invariant(self);
        }
        Coordinate { text: self.text.clone() }
    }
}

} // verus!
