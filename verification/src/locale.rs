//! Locale-specific functions.
//!
//! The locale belongs to the process, and so does the database of layout names.
//! What is here takes the answers of either and decides what they mean.

use std::cmp::Ordering;
use std::str::Utf8Error;
use vstd::prelude::*;
use vstd::string::StrSliceExecFns;
use vstd::string::StringExecFns;
use vstd::utf8::decode_utf8;
use vstd::utf8::valid_utf8;
use crate::util::str_from_utf8;

verus! {

/// Why a layout has no name to display.
#[derive(Debug)]
pub enum Error {
    /// The name in the database is no text.
    StringConversion(Utf8Error),
    /// The database does not know the layout.
    NoInfo,
}

/// A text in the language of the user.
#[derive(Clone, Debug, PartialEq)]
pub struct OwnedTranslation(pub String);

/// The text as it can go to a function which takes a C string:
/// a text with a NUL in it cannot go there, and the empty text goes in its place.
pub open spec fn spec_cstring_safe(text: Seq<char>) -> Seq<char> {
    if text.contains('\0') {
        Seq::empty()
    } else {
        text
    }
}

/// Replaces a text which cannot go to a C function by the empty text.
pub fn cstring_safe(text: &str) -> (safe: &str)
    ensures
        safe@ == spec_cstring_safe(text@),
{
    let len = text.unicode_len();
    let mut i: usize = 0;
    while i < len
        invariant
            len == text@.len(),
            i <= len,
            forall|j: int| 0 <= j < i ==> text@[j] != '\0',
        decreases len - i,
    {
        if text.get_char(i) == '\0' {
            proof {
                reveal_strlit("");
            }
            assert(""@ =~= Seq::<char>::empty());
            return "";
        }
        i += 1;
    }
    text
}

/// Reads the answer of the database of layouts to the question for a display name:
/// whether it knows the layout, and the bytes of the name if it set one.
/// There is a name only where both hold, and only if the bytes are UTF-8.
pub fn display_name_from(found: bool, display_name: Option<&[u8]>) -> (name: Result<String, Error>)
    ensures
        match name {
            Ok(name) => found && display_name is Some && valid_utf8(display_name->0@) && name@
                == decode_utf8(display_name->0@),
            Err(Error::StringConversion(_)) => found && display_name is Some && !valid_utf8(
                display_name->0@,
            ),
            Err(Error::NoInfo) => !found || display_name is None,
        },
{
    match display_name {
        Some(bytes) => {
            if found {
                match str_from_utf8(bytes) {
                    Ok(name) => Ok(String::from_str(name)),
                    Err(error) => Err(Error::StringConversion(error)),
                }
            } else {
                Err(Error::NoInfo)
            }
        },
        None => Err(Error::NoInfo),
    }
}

/// Turns the answer of the collation of the current locale into an order:
/// below zero for less, zero for equal, above zero for greater.
pub fn ordering_from_collation(result: i32) -> (order: Ordering)
    ensures
        order == if result == 0 {
            Ordering::Equal
        } else if result > 0 {
            Ordering::Greater
        } else {
            Ordering::Less
        },
{
    if result == 0 {
        Ordering::Equal
    } else if result > 0 {
        Ordering::Greater
    } else {
        Ordering::Less
    }
}

} // verus!
