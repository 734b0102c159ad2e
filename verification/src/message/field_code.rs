//! The codes of the header fields.

use vstd::prelude::*;

verus! {

/// The message field code.
///
/// Every header field has an associated code, which opens its entry in the
/// field array of a message.
#[derive(Copy, Clone, Debug, PartialEq, Eq, Structural)]
pub enum FieldCode {
    /// Code of the object path field.
    Path,
    /// Code of the interface field.
    Interface,
    /// Code of the member field.
    Member,
    /// Code of the error name field.
    ErrorName,
    /// Code of the reply serial field.
    ReplySerial,
    /// Code of the destination field.
    Destination,
    /// Code of the sender field.
    Sender,
    /// Code of the body signature field.
    Signature,
    /// Code of the field that counts the attached file descriptors.
    UnixFDs,
}

impl FieldCode {
    /// The wire code of a field: 1 for the path up to 9 for the descriptor
    /// count.
    pub open spec fn spec_to_u8(self) -> u8 {
        match self {
            FieldCode::Path => 1,
            FieldCode::Interface => 2,
            FieldCode::Member => 3,
            FieldCode::ErrorName => 4,
            FieldCode::ReplySerial => 5,
            FieldCode::Destination => 6,
            FieldCode::Sender => 7,
            FieldCode::Signature => 8,
            FieldCode::UnixFDs => 9,
        }
    }

    /// The field that a wire code stands for, if any.
    pub open spec fn spec_from_u8(val: u8) -> Option<FieldCode> {
        if val == 1 {
            Some(FieldCode::Path)
        } else if val == 2 {
            Some(FieldCode::Interface)
        } else if val == 3 {
            Some(FieldCode::Member)
        } else if val == 4 {
            Some(FieldCode::ErrorName)
        } else if val == 5 {
            Some(FieldCode::ReplySerial)
        } else if val == 6 {
            Some(FieldCode::Destination)
        } else if val == 7 {
            Some(FieldCode::Sender)
        } else if val == 8 {
            Some(FieldCode::Signature)
        } else if val == 9 {
            Some(FieldCode::UnixFDs)
        } else {
            None
        }
    }

    /// Whether the field holds a 32-bit number rather than a text.
    pub open spec fn spec_is_number(self) -> bool {
        self is ReplySerial || self is UnixFDs
    }

    /// The one-letter type signature of the field's value: `o` for the path,
    /// `g` for the signature, `u` for the numbers and `s` for the rest.
    pub open spec fn spec_signature_char(self) -> u8 {
        match self {
            FieldCode::Path => 0x6f,
            FieldCode::Signature => 0x67,
            FieldCode::ReplySerial => 0x75,
            FieldCode::UnixFDs => 0x75,
            _ => 0x73,
        }
    }

    /// The wire code of this field.
    pub fn to_u8(self) -> (b: u8)
        ensures
            b == self.spec_to_u8(),
            1 <= b <= 9,
            Self::spec_from_u8(b) == Some(self),
    {
        match self {
            FieldCode::Path => 1,
            FieldCode::Interface => 2,
            FieldCode::Member => 3,
            FieldCode::ErrorName => 4,
            FieldCode::ReplySerial => 5,
            FieldCode::Destination => 6,
            FieldCode::Sender => 7,
            FieldCode::Signature => 8,
            FieldCode::UnixFDs => 9,
        }
    }

    /// The field with the given wire code; a code outside 1 to 9 has none.
    pub fn from_u8(val: u8) -> (code: Option<FieldCode>)
        ensures
            code == Self::spec_from_u8(val),
            code is Some <==> 1 <= val <= 9,
            code matches Some(c) ==> c.spec_to_u8() == val,
    {
        if val == 1 {
            Some(FieldCode::Path)
        } else if val == 2 {
            Some(FieldCode::Interface)
        } else if val == 3 {
            Some(FieldCode::Member)
        } else if val == 4 {
            Some(FieldCode::ErrorName)
        } else if val == 5 {
            Some(FieldCode::ReplySerial)
        } else if val == 6 {
            Some(FieldCode::Destination)
        } else if val == 7 {
            Some(FieldCode::Sender)
        } else if val == 8 {
            Some(FieldCode::Signature)
        } else if val == 9 {
            Some(FieldCode::UnixFDs)
        } else {
            None
        }
    }

    /// Whether the field holds a 32-bit number rather than a text.
    #[verifier::when_used_as_spec(spec_is_number)]
    pub fn is_number(self) -> (b: bool)
        ensures
            b == self.spec_is_number(),
    {
        match self {
            FieldCode::ReplySerial => true,
            FieldCode::UnixFDs => true,
            _ => false,
        }
    }

    /// The one-letter type signature of the field's value.
    pub fn signature_char(self) -> (c: u8)
        ensures
            c == self.spec_signature_char(),
    {
        match self {
            FieldCode::Path => 0x6f,
            FieldCode::Signature => 0x67,
            FieldCode::ReplySerial => 0x75,
            FieldCode::UnixFDs => 0x75,
            _ => 0x73,
        }
    }
}

} // verus!
