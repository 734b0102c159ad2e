//! The identifier of a bus server.

use vstd::prelude::*;
use vstd::string::StringSliceAdditionalSpecFns;

use crate::error::Error;
use crate::message::fields::write_bytes;

verus! {

/// `b` is an ASCII hexadecimal digit, of either case.
pub open spec fn is_hex_digit(b: u8) -> bool {
    (0x30 <= b <= 0x39) || (0x41 <= b <= 0x46) || (0x61 <= b <= 0x66)
}

/// The form of a GUID: 32 hexadecimal digits.
pub open spec fn is_guid(text: Seq<u8>) -> bool {
    &&& text.len() == 32
    &&& forall|i: int| 0 <= i < text.len() ==> is_hex_digit(#[trigger] text[i])
}

/// Whether `b` is an ASCII hexadecimal digit, of either case.
pub fn hex_digit_value(b: u8) -> (v: Option<u8>)
    ensures
        v is Some <==> is_hex_digit(b),
        v matches Some(n) ==> n < 16 && n == if b <= 0x39 {
            b - 0x30
        } else if b <= 0x46 {
            b - 0x41 + 10
        } else {
            b - 0x61 + 10
        },
{
    if 0x30 <= b && b <= 0x39 {
        Some(b - 0x30)
    } else if 0x41 <= b && b <= 0x46 {
        Some(b - 0x41 + 10)
    } else if 0x61 <= b && b <= 0x66 {
        Some(b - 0x61 + 10)
    } else {
        None
    }
}

/// A D-Bus server GUID: the 128-bit identifier of a server, as 32
/// hexadecimal digits.
#[derive(Debug, PartialEq, Eq)]
pub struct Guid {
    text: Vec<u8>,
}

impl View for Guid {
    type V = Seq<u8>;

    closed spec fn view(&self) -> Seq<u8> {
        self.text@
    }
}

impl Clone for Guid {
    fn clone(&self) -> (copy: Guid)
        ensures
            copy@ == self@,
    {
        proof {
            use_type_invariant(self);
        }
        let mut text: Vec<u8> = Vec::new();
        write_bytes(&mut text, self.text.as_slice());
        assert(text@ =~= self.text@);
        Guid { text }
    }
}

impl Guid {
    #[verifier::type_invariant]
    closed spec fn inv(&self) -> bool {
        is_guid(self.text@)
    }

    /// Reads a GUID from its text. Anything but 32 hexadecimal digits is
    /// [`Error::Address`].
    pub fn from_str(text: &str) -> (r: Result<Guid, Error>)
        ensures
            match r {
                Ok(guid) => is_guid(guid@) && guid@ == text.spec_bytes(),
                Err(e) => e is Address && !is_guid(text.spec_bytes()),
            },
    {
        Self::from_bytes(text.as_bytes())
    }

    /// Reads a GUID from the bytes of its text. Anything but 32 hexadecimal
    /// digits is [`Error::Address`].
    pub fn from_bytes(text: &[u8]) -> (r: Result<Guid, Error>)
        ensures
            match r {
                Ok(guid) => is_guid(guid@) && guid@ == text@,
                Err(e) => e is Address && !is_guid(text@),
            },
    {
        if text.len() != 32 {
            return Err(Error::Address("a GUID has 32 characters".to_owned()));
        }
        let mut i: usize = 0;
        while i < 32
            invariant
                i <= 32,
                text@.len() == 32,
                forall|j: int| 0 <= j < i ==> is_hex_digit(#[trigger] text@[j]),
            decreases 32 - i,
        {
            if hex_digit_value(text[i]).is_none() {
                return Err(Error::Address("a GUID is made of hexadecimal digits".to_owned()));
            }
            i = i + 1;
        }
        let mut copy: Vec<u8> = Vec::new();
        write_bytes(&mut copy, text);
        assert(copy@ =~= text@);
        Ok(Guid { text: copy })
    }

    /// The 32 characters of the GUID.
    pub fn as_bytes(&self) -> (text: &[u8])
        ensures
            text@ == self@,
            is_guid(text@),
    {
        proof {
            use_type_invariant(self);
        }
        self.text.as_slice()
    }

    /// Whether two GUIDs are the same text.
    pub fn same_as(&self, other: &Guid) -> (same: bool)
        ensures
            same == (self@ == other@),
    {
        proof {
            use_type_invariant(self);
            use_type_invariant(other);
        }
        let mut i: usize = 0;
        while i < 32
            invariant
                i <= 32,
                self.text@.len() == 32,
                other.text@.len() == 32,
                forall|j: int| 0 <= j < i ==> self.text@[j] == other.text@[j],
            decreases 32 - i,
        {
            if self.text[i] != other.text[i] {
                return false;
            }
            i = i + 1;
        }
        assert(self.text@ =~= other.text@);
        true
    }
}

} // verus!
