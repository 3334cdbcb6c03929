//! The failures that the reader reports.

use vstd::prelude::*;

verus! {

/// Why a conversion or a whole parse was refused.
#[derive(Clone, Copy, Debug, PartialEq, Eq, Structural)]
pub enum SclError {
    /// A component name holds a character other than a letter, a digit or `_`.
    IllegalComponentName,
    /// An object identifier has more components than fit.
    ObjIdTooManyComponents,
    /// A component of an object identifier is not a number.
    ObjIdBadComponent,
    /// An object identifier has no component at all.
    ObjIdEmpty,
    /// A hexadecimal text yields more bytes than the caller allows.
    HexTooLong,
    /// A hexadecimal text holds a character that is neither a digit nor blank.
    HexIllegalChar,
    /// A hexadecimal text ends with a single digit, half a byte.
    HexOddDigits,
    /// A flattened name would outgrow its limit.
    FlattenedTooLong,
    /// A text holds a character outside ASCII.
    NotAscii,
    /// A pair of characters is not a hexadecimal byte.
    BadHexPair,
    /// The requested device name is not a legal identifier.
    IllegalIedName,
    /// The tokenizer could not hand out an element or one of its attributes.
    BadMarkup,
    /// The walk over the document stopped with this status code.
    Parse(u32),
}

/// What a status code of the walk means, in words.
pub open spec fn status_text(code: u32) -> Seq<char> {
    if code == 0 {
        "no error"@
    } else if code == 1 {
        "a value in the document was refused"@
    } else if code == 4 {
        "an element occurs twice that may occur only once"@
    } else if code == 6 {
        "elements are nested too deeply"@
    } else if code == 8 {
        "a closing tag does not match the open element"@
    } else if code == 11 {
        "an element table lists too many elements"@
    } else if code == 13 {
        "a required attribute is missing"@
    } else if code == 100 {
        "a value could not be converted"@
    } else {
        "the walk over the document failed"@
    }
}

/// Says in words what a status code of the walk means.
pub fn status_message(code: u32) -> (r: String)
    ensures
        r@ == status_text(code),
{
    if code == 0 {
        "no error".to_string()
    } else if code == 1 {
        "a value in the document was refused".to_string()
    } else if code == 4 {
        "an element occurs twice that may occur only once".to_string()
    } else if code == 6 {
        "elements are nested too deeply".to_string()
    } else if code == 8 {
        "a closing tag does not match the open element".to_string()
    } else if code == 11 {
        "an element table lists too many elements".to_string()
    } else if code == 13 {
        "a required attribute is missing".to_string()
    } else if code == 100 {
        "a value could not be converted".to_string()
    } else {
        "the walk over the document failed".to_string()
    }
}

impl SclError {
    /// What went wrong, in words.
    pub open spec fn text(self) -> Seq<char> {
        match self {
            SclError::IllegalComponentName => "illegal character in a component name"@,
            SclError::ObjIdTooManyComponents => "too many components in an object identifier"@,
            SclError::ObjIdBadComponent => "a component of an object identifier is no number"@,
            SclError::ObjIdEmpty => "an object identifier without components"@,
            SclError::HexTooLong => "too many hexadecimal digits"@,
            SclError::HexIllegalChar => "a character that is no hexadecimal digit"@,
            SclError::HexOddDigits => "an odd count of hexadecimal digits"@,
            SclError::FlattenedTooLong => "no room left in a flattened name"@,
            SclError::NotAscii => "a character outside ASCII"@,
            SclError::BadHexPair => "a pair of characters that is no hexadecimal byte"@,
            SclError::IllegalIedName => "illegal character in the device name"@,
            SclError::BadMarkup => "the document is no well-formed markup"@,
            SclError::Parse(code) => status_text(code),
        }
    }

    /// Says in words what went wrong.
    pub fn message(&self) -> (r: String)
        ensures
            r@ == self.text(),
    {
        match self {
            SclError::IllegalComponentName => "illegal character in a component name".to_string(),
            SclError::ObjIdTooManyComponents => {
                "too many components in an object identifier".to_string()
            },
            SclError::ObjIdBadComponent => {
                "a component of an object identifier is no number".to_string()
            },
            SclError::ObjIdEmpty => "an object identifier without components".to_string(),
            SclError::HexTooLong => "too many hexadecimal digits".to_string(),
            SclError::HexIllegalChar => "a character that is no hexadecimal digit".to_string(),
            SclError::HexOddDigits => "an odd count of hexadecimal digits".to_string(),
            SclError::FlattenedTooLong => "no room left in a flattened name".to_string(),
            SclError::NotAscii => "a character outside ASCII".to_string(),
            SclError::BadHexPair => "a pair of characters that is no hexadecimal byte".to_string(),
            SclError::IllegalIedName => "illegal character in the device name".to_string(),
            SclError::BadMarkup => "the document is no well-formed markup".to_string(),
            SclError::Parse(code) => status_message(*code),
        }
    }
}

} // verus!
