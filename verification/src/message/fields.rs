//! The variable part of a message header: the header fields and their wire
//! encoding.
//!
//! On the wire the fields form an array that starts at offset 16 of the
//! message. Each entry starts on an 8-byte boundary and holds the field code,
//! the one-letter signature of the value, and the value: a text with a
//! 32-bit length, a signature with an 8-bit length, or a 32-bit number.

use vstd::prelude::*;
use vstd::slice::slice_subrange;
use vstd::utf8::{decode_utf8, encode_utf8, encode_utf8_decode_utf8, encode_utf8_valid_utf8};
use vstd::utf8::valid_utf8;

use crate::error::{Error, ErrorKind};
use crate::message::field_code::FieldCode;
use crate::message::header::MAX_MESSAGE_SIZE;
use crate::message::wire::{all_zero, read_u32, spec_all_zero, spec_u32_at, spec_u32_bytes};
use crate::message::wire::{lemma_u32_at_within, spec_zeros, write_u32, write_zeros, EndianSig};
use crate::names::{check_bus_name, check_error_name, check_interface_name, check_member_name};
use crate::names::{check_object_path, check_signature, check_unique_name};
use crate::names::{is_bus_name, is_error_name, is_interface_name, is_member_name};
use crate::names::{is_object_path, is_signature, is_unique_name};
use crate::utils::{padding_for_8_bytes, spec_padding_for_8_bytes};

verus! {

/// The value of a header field, without its code.
pub enum FieldValue {
    /// A string, an object path or a signature.
    Text(Seq<char>),
    /// A 32-bit number.
    Number(u32),
}

/// The message field.
///
/// A message header can have up to 9 fields, one of each kind.
#[derive(Debug, Clone, PartialEq, Eq)]
pub enum Field {
    /// The object to send a call to, or the object a signal is emitted from.
    Path(String),
    /// The interface to invoke a method call on, or that a signal is emitted from.
    Interface(String),
    /// The member, either the method name or signal name.
    Member(String),
    /// The name of the error that occurred, for errors.
    ErrorName(String),
    /// The serial number of the message this message is a reply to.
    ReplySerial(u32),
    /// The name of the connection this message is intended for.
    Destination(String),
    /// Unique name of the sending connection.
    Sender(String),
    /// The signature of the message body.
    Signature(String),
    /// The number of Unix file descriptors that accompany the message.
    UnixFDs(u32),
}

impl Field {
    /// The code of this field.
    pub open spec fn spec_code(&self) -> FieldCode {
        match self {
            Field::Path(_) => FieldCode::Path,
            Field::Interface(_) => FieldCode::Interface,
            Field::Member(_) => FieldCode::Member,
            Field::ErrorName(_) => FieldCode::ErrorName,
            Field::ReplySerial(_) => FieldCode::ReplySerial,
            Field::Destination(_) => FieldCode::Destination,
            Field::Sender(_) => FieldCode::Sender,
            Field::Signature(_) => FieldCode::Signature,
            Field::UnixFDs(_) => FieldCode::UnixFDs,
        }
    }

    /// The value of this field.
    pub open spec fn spec_value(&self) -> FieldValue {
        match self {
            Field::Path(t) => FieldValue::Text(t@),
            Field::Interface(t) => FieldValue::Text(t@),
            Field::Member(t) => FieldValue::Text(t@),
            Field::ErrorName(t) => FieldValue::Text(t@),
            Field::ReplySerial(n) => FieldValue::Number(*n),
            Field::Destination(t) => FieldValue::Text(t@),
            Field::Sender(t) => FieldValue::Text(t@),
            Field::Signature(t) => FieldValue::Text(t@),
            Field::UnixFDs(n) => FieldValue::Number(*n),
        }
    }

    /// The code of this field.
    pub fn code(&self) -> (code: FieldCode)
        ensures
            code == self.spec_code(),
    {
        match self {
            Field::Path(_) => FieldCode::Path,
            Field::Interface(_) => FieldCode::Interface,
            Field::Member(_) => FieldCode::Member,
            Field::ErrorName(_) => FieldCode::ErrorName,
            Field::ReplySerial(_) => FieldCode::ReplySerial,
            Field::Destination(_) => FieldCode::Destination,
            Field::Sender(_) => FieldCode::Sender,
            Field::Signature(_) => FieldCode::Signature,
            Field::UnixFDs(_) => FieldCode::UnixFDs,
        }
    }

    /// The text field with the given code.
    pub fn from_text(code: FieldCode, text: String) -> (field: Field)
        requires
            !code.spec_is_number(),
        ensures
            field.spec_code() == code,
            field.spec_value() == FieldValue::Text(text@),
    {
        match code {
            FieldCode::Path => Field::Path(text),
            FieldCode::Interface => Field::Interface(text),
            FieldCode::Member => Field::Member(text),
            FieldCode::ErrorName => Field::ErrorName(text),
            FieldCode::Destination => Field::Destination(text),
            FieldCode::Sender => Field::Sender(text),
            _ => Field::Signature(text),
        }
    }

    /// The number field with the given code.
    pub fn from_number(code: FieldCode, number: u32) -> (field: Field)
        requires
            code.spec_is_number(),
        ensures
            field.spec_code() == code,
            field.spec_value() == FieldValue::Number(number),
    {
        match code {
            FieldCode::ReplySerial => Field::ReplySerial(number),
            _ => Field::UnixFDs(number),
        }
    }
}

/// What a set of header fields holds: for each kind of field its value, if
/// the field is present.
pub struct FieldsView {
    /// The object path.
    pub path: Option<Seq<char>>,
    /// The interface name.
    pub interface: Option<Seq<char>>,
    /// The member name.
    pub member: Option<Seq<char>>,
    /// The error name.
    pub error_name: Option<Seq<char>>,
    /// The serial number of the message that is replied to.
    pub reply_serial: Option<u32>,
    /// The bus name of the receiver.
    pub destination: Option<Seq<char>>,
    /// The unique name of the sender.
    pub sender: Option<Seq<char>>,
    /// The signature of the body.
    pub signature: Option<Seq<char>>,
    /// The number of file descriptors that come with the message.
    pub unix_fds: Option<u32>,
}

/// The text behind an optional string.
pub open spec fn spec_text(s: Option<String>) -> Option<Seq<char>> {
    match s {
        Some(t) => Some(t@),
        None => None,
    }
}

/// The text behind an optional reference to a string.
pub open spec fn spec_text_ref(s: Option<&String>) -> Option<Seq<char>> {
    match s {
        Some(t) => Some(t@),
        None => None,
    }
}

/// The kind of field that stands at place `n` of the wire order, which is
/// the order of the codes.
pub open spec fn spec_code_at(n: nat) -> FieldCode {
    if n == 0 {
        FieldCode::Path
    } else if n == 1 {
        FieldCode::Interface
    } else if n == 2 {
        FieldCode::Member
    } else if n == 3 {
        FieldCode::ErrorName
    } else if n == 4 {
        FieldCode::ReplySerial
    } else if n == 5 {
        FieldCode::Destination
    } else if n == 6 {
        FieldCode::Sender
    } else if n == 7 {
        FieldCode::Signature
    } else {
        FieldCode::UnixFDs
    }
}

/// Whether a value can be the value of the field with this code: a number
/// for the two number fields, where a reply serial is not zero, and a text
/// for the others, where a signature has at most 255 bytes and any other
/// text fits a 32-bit length.
pub open spec fn spec_value_fits(code: FieldCode, value: FieldValue) -> bool {
    match value {
        FieldValue::Number(n) => code.spec_is_number() && (code is ReplySerial ==> n != 0),
        FieldValue::Text(t) => !code.spec_is_number() && if code is Signature {
            encode_utf8(t).len() <= 255
        } else {
            encode_utf8(t).len() <= u32::MAX
        },
    }
}

/// The wire form of one field, from its code byte on.
pub open spec fn spec_entry_bytes(code: FieldCode, value: FieldValue, endian: EndianSig) -> Seq<u8> {
    let head = seq![code.spec_to_u8(), 1u8, code.spec_signature_char(), 0u8];
    match value {
        FieldValue::Number(n) => head + spec_u32_bytes(n, endian),
        FieldValue::Text(t) => {
            let bytes = encode_utf8(t);
            if code is Signature {
                head + seq![bytes.len() as u8] + bytes + seq![0u8]
            } else {
                head + spec_u32_bytes(bytes.len() as u32, endian) + bytes + seq![0u8]
            }
        },
    }
}

/// The wire form of one field that is written at offset `at` of a message:
/// zero bytes up to the next 8-byte boundary, then the entry.
pub open spec fn spec_padded_entry(
    at: int,
    code: FieldCode,
    value: FieldValue,
    endian: EndianSig,
) -> Seq<u8> {
    spec_zeros(spec_padding_for_8_bytes(at)) + spec_entry_bytes(code, value, endian)
}

/// Reads the field whose code byte stands at `start`, in an array that ends
/// at `end`: the code, the value, and the offset behind the entry. Anything
/// that is not the entry of a known field with the signature of that field,
/// wholly inside the array, with a text in UTF-8 and a reply serial that is
/// not zero, is [`ErrorKind::Type`].
pub open spec fn spec_parse_entry(buf: Seq<u8>, start: int, end: int, endian: EndianSig)
    -> core::result::Result<(FieldCode, FieldValue, int), ErrorKind> {
    if start + 4 > end {
        Err(ErrorKind::Type)
    } else {
        match FieldCode::spec_from_u8(buf[start]) {
            None => Err(ErrorKind::Type),
            Some(code) => if buf[start + 1] != 1 || buf[start + 2] != code.spec_signature_char() {
                Err(ErrorKind::Type)
            } else if code.spec_is_number() {
                if start + 8 > end {
                    Err(ErrorKind::Type)
                } else {
                    let n = spec_u32_at(buf, start + 4, endian);
                    if code is ReplySerial && n == 0 {
                        Err(ErrorKind::Type)
                    } else {
                        Ok((code, FieldValue::Number(n), start + 8))
                    }
                }
            } else {
                let text_at = if code is Signature {
                    start + 5
                } else {
                    start + 8
                };
                if text_at > end {
                    Err(ErrorKind::Type)
                } else {
                    let len = if code is Signature {
                        buf[start + 4] as int
                    } else {
                        spec_u32_at(buf, start + 4, endian) as int
                    };
                    let bytes = buf.subrange(text_at, text_at + len);
                    if text_at + len + 1 > end || !valid_utf8(bytes) {
                        Err(ErrorKind::Type)
                    } else {
                        Ok((code, FieldValue::Text(decode_utf8(bytes)), text_at + len + 1))
                    }
                }
            },
        }
    }
}

/// Reads the entries of a field array from `pos` up to its end at `end`
/// into `acc`. Each entry starts at the next 8-byte boundary, behind zero
/// bytes; a field that occurs again replaces the one read before.
pub open spec fn spec_parse_fields(
    buf: Seq<u8>,
    pos: int,
    end: int,
    endian: EndianSig,
    acc: FieldsView,
) -> core::result::Result<FieldsView, ErrorKind>
    decreases end - pos,
{
    if pos >= end {
        Ok(acc)
    } else {
        let start = pos + spec_padding_for_8_bytes(pos);
        if start >= end || !spec_all_zero(buf, pos, start) {
            Err(ErrorKind::Type)
        } else {
            match spec_parse_entry(buf, start, end, endian) {
                Err(k) => Err(k),
                Ok((code, value, next)) => spec_parse_fields(
                    buf,
                    next,
                    end,
                    endian,
                    acc.spec_replace(code, value),
                ),
            }
        }
    }
}

impl FieldsView {
    /// No field at all.
    pub open spec fn spec_empty() -> FieldsView {
        FieldsView {
            path: None,
            interface: None,
            member: None,
            error_name: None,
            reply_serial: None,
            destination: None,
            sender: None,
            signature: None,
            unix_fds: None,
        }
    }

    /// The value of the field with the given code, if it is present.
    pub open spec fn spec_get(self, code: FieldCode) -> Option<FieldValue> {
        match code {
            FieldCode::Path => spec_text_value(self.path),
            FieldCode::Interface => spec_text_value(self.interface),
            FieldCode::Member => spec_text_value(self.member),
            FieldCode::ErrorName => spec_text_value(self.error_name),
            FieldCode::ReplySerial => spec_number_value(self.reply_serial),
            FieldCode::Destination => spec_text_value(self.destination),
            FieldCode::Sender => spec_text_value(self.sender),
            FieldCode::Signature => spec_text_value(self.signature),
            FieldCode::UnixFDs => spec_number_value(self.unix_fds),
        }
    }

    /// These fields with the field of the given code set to `value`; a value
    /// of the wrong kind for the code changes nothing.
    pub open spec fn spec_replace(self, code: FieldCode, value: FieldValue) -> FieldsView {
        match (code, value) {
            (FieldCode::Path, FieldValue::Text(t)) => FieldsView { path: Some(t), ..self },
            (FieldCode::Interface, FieldValue::Text(t)) => FieldsView { interface: Some(t), ..self },
            (FieldCode::Member, FieldValue::Text(t)) => FieldsView { member: Some(t), ..self },
            (FieldCode::ErrorName, FieldValue::Text(t)) => FieldsView {
                error_name: Some(t),
                ..self
            },
            (FieldCode::ReplySerial, FieldValue::Number(n)) => FieldsView {
                reply_serial: Some(n),
                ..self
            },
            (FieldCode::Destination, FieldValue::Text(t)) => FieldsView {
                destination: Some(t),
                ..self
            },
            (FieldCode::Sender, FieldValue::Text(t)) => FieldsView { sender: Some(t), ..self },
            (FieldCode::Signature, FieldValue::Text(t)) => FieldsView { signature: Some(t), ..self },
            (FieldCode::UnixFDs, FieldValue::Number(n)) => FieldsView { unix_fds: Some(n), ..self },
            _ => self,
        }
    }

    /// These fields without the field of the given code.
    pub open spec fn spec_remove(self, code: FieldCode) -> FieldsView {
        match code {
            FieldCode::Path => FieldsView { path: None, ..self },
            FieldCode::Interface => FieldsView { interface: None, ..self },
            FieldCode::Member => FieldsView { member: None, ..self },
            FieldCode::ErrorName => FieldsView { error_name: None, ..self },
            FieldCode::ReplySerial => FieldsView { reply_serial: None, ..self },
            FieldCode::Destination => FieldsView { destination: None, ..self },
            FieldCode::Sender => FieldsView { sender: None, ..self },
            FieldCode::Signature => FieldsView { signature: None, ..self },
            FieldCode::UnixFDs => FieldsView { unix_fds: None, ..self },
        }
    }

    /// Every field that is present can be written: a reply serial is not
    /// zero, a signature has at most 255 bytes.
    pub open spec fn wf(self) -> bool {
        &&& self.reply_serial != Some(0u32)
        &&& self.signature matches Some(s) ==> encode_utf8(s).len() <= 255
    }

    /// Every name that is present follows the grammar of its kind.
    pub open spec fn spec_names_valid(self) -> bool {
        self.spec_first_invalid() is None
    }

    /// The kind of error that the first field with an ill-formed value is, in
    /// the order of the codes: [`ErrorKind::Type`] for the path,
    /// [`ErrorKind::Signature`] for the signature, [`ErrorKind::Name`] for
    /// the others. `None` where every name is well formed.
    pub open spec fn spec_first_invalid(self) -> Option<ErrorKind> {
        if self.path matches Some(t) && !is_object_path(t) {
            Some(ErrorKind::Type)
        } else if self.interface matches Some(t) && !is_interface_name(t) {
            Some(ErrorKind::Name)
        } else if self.member matches Some(t) && !is_member_name(t) {
            Some(ErrorKind::Name)
        } else if self.error_name matches Some(t) && !is_error_name(t) {
            Some(ErrorKind::Name)
        } else if self.destination matches Some(t) && !is_bus_name(t) {
            Some(ErrorKind::Name)
        } else if self.sender matches Some(t) && !is_unique_name(t) {
            Some(ErrorKind::Name)
        } else if self.signature matches Some(t) && !is_signature(t) {
            Some(ErrorKind::Signature)
        } else {
            None
        }
    }

    /// The wire form of the fields from place `n` of the wire order on, where
    /// the first of them starts at offset `at` of the message or on the next
    /// 8-byte boundary.
    pub open spec fn spec_bytes_from(self, endian: EndianSig, n: nat, at: int) -> Seq<u8>
        decreases 9 - n,
    {
        if n >= 9 {
            Seq::empty()
        } else {
            match self.spec_get(spec_code_at(n)) {
                None => self.spec_bytes_from(endian, n + 1, at),
                Some(value) => {
                    let entry = spec_padded_entry(at, spec_code_at(n), value, endian);
                    entry + self.spec_bytes_from(endian, n + 1, at + entry.len())
                },
            }
        }
    }

    /// The wire form of the field array: the fields that are present, in the
    /// order of their codes, each on an 8-byte boundary of the message.
    pub open spec fn spec_bytes(self, endian: EndianSig) -> Seq<u8> {
        self.spec_bytes_from(endian, 0, 16)
    }

    /// `acc` with each field of `self` from place `n` of the wire order on
    /// put in.
    pub open spec fn spec_merge_from(self, n: nat, acc: FieldsView) -> FieldsView
        decreases 9 - n,
    {
        if n >= 9 {
            acc
        } else {
            match self.spec_get(spec_code_at(n)) {
                None => self.spec_merge_from(n + 1, acc),
                Some(value) => self.spec_merge_from(n + 1, acc.spec_replace(spec_code_at(n), value)),
            }
        }
    }
}

/// A text as a field value.
pub open spec fn spec_text_value(t: Option<Seq<char>>) -> Option<FieldValue> {
    match t {
        Some(t) => Some(FieldValue::Text(t)),
        None => None,
    }
}

/// A number as a field value.
pub open spec fn spec_number_value(n: Option<u32>) -> Option<FieldValue> {
    match n {
        Some(n) => Some(FieldValue::Number(n)),
        None => None,
    }
}


/// The header fields of a message: at most one of each kind.
#[derive(Debug, Clone, PartialEq, Eq)]
pub struct Fields {
    /// The object path.
    pub path: Option<String>,
    /// The interface name.
    pub interface: Option<String>,
    /// The member name.
    pub member: Option<String>,
    /// The error name.
    pub error_name: Option<String>,
    /// The serial number of the message that is replied to.
    pub reply_serial: Option<u32>,
    /// The bus name of the receiver.
    pub destination: Option<String>,
    /// The unique name of the sender.
    pub sender: Option<String>,
    /// The signature of the body.
    pub signature: Option<String>,
    /// The number of file descriptors that come with the message.
    pub unix_fds: Option<u32>,
}

impl View for Fields {
    type V = FieldsView;

    open spec fn view(&self) -> FieldsView {
        FieldsView {
            path: spec_text(self.path),
            interface: spec_text(self.interface),
            member: spec_text(self.member),
            error_name: spec_text(self.error_name),
            reply_serial: self.reply_serial,
            destination: spec_text(self.destination),
            sender: spec_text(self.sender),
            signature: spec_text(self.signature),
            unix_fds: self.unix_fds,
        }
    }
}

/// Turns bytes into an owned string with `core::str::from_utf8`. Trusted:
/// that it succeeds on exactly the well-formed UTF-8 sequences and then
/// yields the characters that the bytes encode.
#[verifier::external_body]
pub(crate) fn text_from_utf8(bytes: &[u8]) -> (text: Option<String>)
    ensures
        text is Some <==> valid_utf8(bytes@),
        text matches Some(t) ==> t@ == decode_utf8(bytes@),
{
    match core::str::from_utf8(bytes) {
        Ok(s) => Some(s.to_owned()),
        Err(_) => None,
    }
}

/// Appends a copy of `bytes`.
pub fn write_bytes(out: &mut Vec<u8>, bytes: &[u8])
    ensures
        final(out)@ == old(out)@ + bytes@,
{
    let mut i: usize = 0;
    while i < bytes.len()
        invariant
            i <= bytes.len(),
            out@ == old(out)@ + bytes@.subrange(0, i as int),
        decreases bytes.len() - i,
    {
        out.push(bytes[i]);
        i = i + 1;
        assert(out@ =~= old(out)@ + bytes@.subrange(0, i as int));
    }
    assert(bytes@.subrange(0, bytes@.len() as int) =~= bytes@);
}

/// A copy of an optional string.
fn copy_text(text: &Option<String>) -> (copy: Option<String>)
    ensures
        spec_text(copy) == spec_text(*text),
{
    match text {
        Some(t) => Some(t.clone()),
        None => None,
    }
}

/// Reads the field whose code byte stands at `start`, in an array that ends
/// at `end`, and the offset behind it.
#[verifier::rlimit(40)]
fn read_entry(buf: &[u8], start: usize, end: usize, endian: EndianSig) -> (r: Result<
    (Field, usize),
    Error,
>)
    requires
        start < end <= buf.len(),
    ensures
        match r {
            Ok((field, next)) => {
                &&& spec_parse_entry(buf@, start as int, end as int, endian) == Ok::<_, ErrorKind>(
                    (field.spec_code(), field.spec_value(), next as int),
                )
                &&& start < next <= end
                &&& spec_value_fits(field.spec_code(), field.spec_value())
            },
            Err(e) => spec_parse_entry(buf@, start as int, end as int, endian) == Err::<
                (FieldCode, FieldValue, int),
                _,
            >(e.spec_kind()),
        },
{
    if end - start < 4 {
        return Err(Error::Type("header field is cut short".to_owned()));
    }
    let code = match FieldCode::from_u8(buf[start]) {
        Some(code) => code,
        None => {
            return Err(Error::Type("unknown header field".to_owned()));
        },
    };
    if buf[start + 1] != 1 || buf[start + 2] != code.signature_char() {
        return Err(Error::Type("header field of the wrong type".to_owned()));
    }
    if code.is_number() {
        if end - start < 8 {
            return Err(Error::Type("header field is cut short".to_owned()));
        }
        let n = read_u32(buf, start + 4, endian);
        if n == 0 {
            match code {
                FieldCode::ReplySerial => {
                    return Err(Error::Type("reply serial is zero".to_owned()));
                },
                _ => {},
            }
        }
        return Ok((Field::from_number(code, n), start + 8));
    }
    let is_signature = match code {
        FieldCode::Signature => true,
        _ => false,
    };
    let len_size: usize = if is_signature {
        1
    } else {
        4
    };
    if end - start < 4 + len_size {
        return Err(Error::Type("header field is cut short".to_owned()));
    }
    let text_at: usize = start + 4 + len_size;
    let len: usize = if is_signature {
        buf[start + 4] as usize
    } else {
        read_u32(buf, start + 4, endian) as usize
    };
    if len >= end - text_at {
        return Err(Error::Type("header field is cut short".to_owned()));
    }
    let bytes = slice_subrange(buf, text_at, text_at + len);
    match text_from_utf8(bytes) {
        None => Err(Error::Type("header field is not UTF-8".to_owned())),
        Some(text) => {
            proof {
                vstd::utf8::decode_utf8_encode_utf8(bytes@);
            }
            Ok((Field::from_text(code, text), text_at + len + 1))
        },
    }
}

/// Appends the entry of a number field, behind padding to the next 8-byte
/// boundary of the message, of which `out` holds all but the first 16 bytes.
fn write_number_entry(out: &mut Vec<u8>, code: FieldCode, value: u32, endian: EndianSig)
    ensures
        final(out)@ == old(out)@ + spec_padded_entry(
            16 + old(out)@.len() as int,
            code,
            FieldValue::Number(value),
            endian,
        ),
{
    let pad = padding_for_8_bytes(out.len());
    write_zeros(out, pad);
    out.push(code.to_u8());
    out.push(1);
    out.push(code.signature_char());
    out.push(0);
    write_u32(out, value, endian);
    assert(out@ =~= old(out)@ + spec_padded_entry(
        16 + old(out)@.len() as int,
        code,
        FieldValue::Number(value),
        endian,
    ));
}

/// Appends the entry of a text field, behind padding to the next 8-byte
/// boundary of the message, of which `out` holds all but the first 16 bytes.
fn write_text_entry(out: &mut Vec<u8>, code: FieldCode, text: &str, endian: EndianSig)
    requires
        spec_value_fits(code, FieldValue::Text(text@)),
    ensures
        final(out)@ == old(out)@ + spec_padded_entry(
            16 + old(out)@.len() as int,
            code,
            FieldValue::Text(text@),
            endian,
        ),
{
    let bytes = text.as_bytes();
    let len = bytes.len();
    let pad = padding_for_8_bytes(out.len());
    write_zeros(out, pad);
    out.push(code.to_u8());
    out.push(1);
    out.push(code.signature_char());
    out.push(0);
    match code {
        FieldCode::Signature => {
            out.push(len as u8);
        },
        _ => {
            write_u32(out, len as u32, endian);
        },
    }
    write_bytes(out, bytes);
    out.push(0);
    assert(out@ =~= old(out)@ + spec_padded_entry(
        16 + old(out)@.len() as int,
        code,
        FieldValue::Text(text@),
        endian,
    ));
}

/// A region of a buffer that holds three parts in a row holds each of them
/// at its place.
pub proof fn lemma_subrange_parts(
    buf: Seq<u8>,
    pos: int,
    end: int,
    a: Seq<u8>,
    b: Seq<u8>,
    c: Seq<u8>,
)
    requires
        0 <= pos <= end <= buf.len(),
        buf.subrange(pos, end) == a + b + c,
    ensures
        end - pos == a.len() + b.len() + c.len(),
        buf.subrange(pos, pos + a.len()) == a,
        buf.subrange(pos + a.len(), pos + a.len() + b.len()) == b,
        buf.subrange(pos + a.len() + b.len(), end) == c,
{
    let region = buf.subrange(pos, end);
    let la = a.len() as int;
    let lb = la + b.len() as int;
    let lc = region.len() as int;
    assert(lc == lb + c.len());
    assert(buf.subrange(pos, pos + la) =~= region.subrange(0, la));
    assert(region.subrange(0, la) =~= a);
    assert(buf.subrange(pos + la, pos + lb) =~= region.subrange(la, lb));
    assert(region.subrange(la, lb) =~= b);
    assert(buf.subrange(pos + lb, end) =~= region.subrange(lb, lc));
    assert(region.subrange(lb, lc) =~= c);
}

impl Fields {
    /// Creates an empty collection of fields.
    pub fn new() -> (fields: Fields)
        ensures
            fields@ == FieldsView::spec_empty(),
            fields@.wf(),
    {
        Fields {
            path: None,
            interface: None,
            member: None,
            error_name: None,
            reply_serial: None,
            destination: None,
            sender: None,
            signature: None,
            unix_fds: None,
        }
    }

    /// A copy of these fields.
    pub fn duplicate(&self) -> (copy: Fields)
        ensures
            copy@ == self@,
    {
        Fields {
            path: copy_text(&self.path),
            interface: copy_text(&self.interface),
            member: copy_text(&self.member),
            error_name: copy_text(&self.error_name),
            reply_serial: self.reply_serial,
            destination: copy_text(&self.destination),
            sender: copy_text(&self.sender),
            signature: copy_text(&self.signature),
            unix_fds: self.unix_fds,
        }
    }

    /// Puts `field` in, in place of the field of the same kind if there is
    /// one.
    pub fn replace(&mut self, field: Field)
        ensures
            final(self)@ == old(self)@.spec_replace(field.spec_code(), field.spec_value()),
    {
        match field {
            Field::Path(t) => {
                self.path = Some(t);
            },
            Field::Interface(t) => {
                self.interface = Some(t);
            },
            Field::Member(t) => {
                self.member = Some(t);
            },
            Field::ErrorName(t) => {
                self.error_name = Some(t);
            },
            Field::ReplySerial(n) => {
                self.reply_serial = Some(n);
            },
            Field::Destination(t) => {
                self.destination = Some(t);
            },
            Field::Sender(t) => {
                self.sender = Some(t);
            },
            Field::Signature(t) => {
                self.signature = Some(t);
            },
            Field::UnixFDs(n) => {
                self.unix_fds = Some(n);
            },
        }
    }

    /// Takes the field of the given kind out, if there is one.
    pub fn remove(&mut self, code: FieldCode)
        ensures
            final(self)@ == old(self)@.spec_remove(code),
    {
        match code {
            FieldCode::Path => {
                self.path = None;
            },
            FieldCode::Interface => {
                self.interface = None;
            },
            FieldCode::Member => {
                self.member = None;
            },
            FieldCode::ErrorName => {
                self.error_name = None;
            },
            FieldCode::ReplySerial => {
                self.reply_serial = None;
            },
            FieldCode::Destination => {
                self.destination = None;
            },
            FieldCode::Sender => {
                self.sender = None;
            },
            FieldCode::Signature => {
                self.signature = None;
            },
            FieldCode::UnixFDs => {
                self.unix_fds = None;
            },
        }
    }

    /// The text of the field with the given code, if the field holds a text
    /// and is present.
    pub fn text_of(&self, code: FieldCode) -> (text: Option<&String>)
        ensures
            match text {
                Some(t) => self@.spec_get(code) == Some(FieldValue::Text(t@)),
                None => code.spec_is_number() || self@.spec_get(code) is None,
            },
    {
        let field = match code {
            FieldCode::Path => &self.path,
            FieldCode::Interface => &self.interface,
            FieldCode::Member => &self.member,
            FieldCode::ErrorName => &self.error_name,
            FieldCode::Destination => &self.destination,
            FieldCode::Sender => &self.sender,
            FieldCode::Signature => &self.signature,
            _ => {
                return None;
            },
        };
        match field {
            Some(t) => Some(t),
            None => None,
        }
    }

    /// The number of the field with the given code, if the field holds a
    /// number and is present.
    pub fn number_of(&self, code: FieldCode) -> (number: Option<u32>)
        ensures
            match number {
                Some(n) => self@.spec_get(code) == Some(FieldValue::Number(n)),
                None => !code.spec_is_number() || self@.spec_get(code) is None,
            },
    {
        match code {
            FieldCode::ReplySerial => self.reply_serial,
            FieldCode::UnixFDs => self.unix_fds,
            _ => None,
        }
    }

    /// Checks every name that is present against the grammar of its kind, in
    /// the order of the field codes, and reports the first that fails.
    pub fn validate(&self) -> (r: Result<(), Error>)
        ensures
            match r {
                Ok(_) => self@.spec_names_valid(),
                Err(e) => self@.spec_first_invalid() == Some(e.spec_kind()),
            },
    {
        if let Some(t) = &self.path {
            if !check_object_path(t.as_str()) {
                return Err(Error::Type("invalid object path".to_owned()));
            }
        }
        if let Some(t) = &self.interface {
            if !check_interface_name(t.as_str()) {
                return Err(Error::Name("invalid interface name".to_owned()));
            }
        }
        if let Some(t) = &self.member {
            if !check_member_name(t.as_str()) {
                return Err(Error::Name("invalid member name".to_owned()));
            }
        }
        if let Some(t) = &self.error_name {
            if !check_error_name(t.as_str()) {
                return Err(Error::Name("invalid error name".to_owned()));
            }
        }
        if let Some(t) = &self.destination {
            if !check_bus_name(t.as_str()) {
                return Err(Error::Name("invalid bus name".to_owned()));
            }
        }
        if let Some(t) = &self.sender {
            if !check_unique_name(t.as_str()) {
                return Err(Error::Name("invalid unique name".to_owned()));
            }
        }
        if let Some(t) = &self.signature {
            if !check_signature(t.as_str()) {
                return Err(Error::Signature("invalid signature".to_owned()));
            }
        }
        Ok(())
    }

    /// Writes the field array. Fails with [`Error::ExcessData`] exactly where
    /// the array alone is larger than a message may be.
    pub fn to_bytes(&self, endian: EndianSig) -> (r: Result<Vec<u8>, Error>)
        requires
            self@.wf(),
        ensures
            match r {
                Ok(bytes) => bytes@ == self@.spec_bytes(endian) && bytes@.len()
                    <= MAX_MESSAGE_SIZE,
                Err(e) => e is ExcessData && self@.spec_bytes(endian).len() > MAX_MESSAGE_SIZE,
            },
    {
        let mut out: Vec<u8> = Vec::new();
        let mut n: u8 = 0;
        while n < 9
            invariant
                n <= 9,
                self@.wf(),
                out@.len() <= MAX_MESSAGE_SIZE,
                self@.spec_bytes(endian) == out@ + self@.spec_bytes_from(
                    endian,
                    n as nat,
                    16 + out@.len() as int,
                ),
            decreases 9 - n,
        {
            let ghost before = out@;
            let ghost rest = self@.spec_bytes_from(endian, n as nat, 16 + out@.len() as int);
            match self.write_field(&mut out, n, endian) {
                Err(e) => {
                    return Err(e);
                },
                Ok(_) => {},
            }
            proof {
                let after = self@.spec_bytes_from(endian, (n + 1) as nat, 16 + out@.len() as int);
                assert(out@ + after == before + rest);
            }
            if out.len() > MAX_MESSAGE_SIZE {
                return Err(Error::ExcessData);
            }
            n = n + 1;
        }
        assert(self@.spec_bytes_from(endian, 9, 16 + out@.len() as int) =~= Seq::<u8>::empty());
        assert(self@.spec_bytes(endian) =~= out@);
        Ok(out)
    }

    /// Writes the entry of the field at place `n` of the wire order, if the
    /// field is present.
    #[verifier::rlimit(60)]
    fn write_field(&self, out: &mut Vec<u8>, n: u8, endian: EndianSig) -> (r: Result<(), Error>)
        requires
            n < 9,
            self@.wf(),
        ensures
            match r {
                Ok(_) => final(out)@ + self@.spec_bytes_from(
                    endian,
                    (n + 1) as nat,
                    16 + final(out)@.len() as int,
                ) == old(out)@ + self@.spec_bytes_from(
                    endian,
                    n as nat,
                    16 + old(out)@.len() as int,
                ),
                Err(e) => e is ExcessData && self@.spec_bytes_from(
                    endian,
                    n as nat,
                    16 + old(out)@.len() as int,
                ).len() > MAX_MESSAGE_SIZE,
            },
    {
        let code = FieldCode::from_u8(n + 1).unwrap();
        let ghost at: int = 16 + out@.len() as int;
        proof {
            assert(code == spec_code_at(n as nat));
            self@.lemma_bytes_from_unfold(endian, n as nat, at);
        }
        if code.is_number() {
            if let Some(value) = self.number_of(code) {
                write_number_entry(out, code, value, endian);
                proof {
                    let entry = spec_padded_entry(at, code, FieldValue::Number(value), endian);
                    let after = self@.spec_bytes_from(endian, (n + 1) as nat, at + entry.len());
                    assert((old(out)@ + entry) + after =~= old(out)@ + (entry + after));
                }
            }
        } else {
            if let Some(text) = self.text_of(code) {
                let ghost value = FieldValue::Text(text@);
                let ghost entry = spec_padded_entry(at, code, value, endian);
                let ghost after = self@.spec_bytes_from(endian, (n + 1) as nat, at + entry.len());
                let len = text.as_str().as_bytes().len();
                assert(len == encode_utf8(text@).len());
                assert(spec_entry_bytes(code, value, endian).len() >= len);
                if len > MAX_MESSAGE_SIZE {
                    return Err(Error::ExcessData);
                }
                assert(spec_value_fits(code, value)) by {
                    if code is Signature {
                        assert(self@.signature == Some(text@));
                    }
                }
                write_text_entry(out, code, text.as_str(), endian);
                proof {
                    assert((old(out)@ + entry) + after =~= old(out)@ + (entry + after));
                }
            }
        }
        Ok(())
    }

    /// Reads the field array that stands in `buf` from offset 16 up to `end`.
    pub fn read(buf: &[u8], end: usize, endian: EndianSig) -> (r: Result<Fields, Error>)
        requires
            16 <= end <= buf.len(),
        ensures
            match r {
                Ok(fields) => {
                    &&& spec_parse_fields(buf@, 16, end as int, endian, FieldsView::spec_empty())
                        == Ok::<_, ErrorKind>(fields@)
                    &&& fields@.wf()
                },
                Err(e) => spec_parse_fields(buf@, 16, end as int, endian, FieldsView::spec_empty())
                    == Err::<FieldsView, _>(e.spec_kind()),
            },
    {
        let mut fields = Fields::new();
        let mut pos: usize = 16;
        while pos < end
            invariant
                16 <= pos <= end <= buf.len(),
                fields@.wf(),
                spec_parse_fields(buf@, 16, end as int, endian, FieldsView::spec_empty())
                    == spec_parse_fields(buf@, pos as int, end as int, endian, fields@),
            decreases end - pos,
        {
            let pad = padding_for_8_bytes(pos);
            if pad >= end - pos {
                return Err(Error::Type("header fields are cut short".to_owned()));
            }
            let start: usize = pos + pad;
            if !all_zero(buf, pos, start) {
                return Err(Error::Type("padding is not zero".to_owned()));
            }
            let (field, next) = read_entry(buf, start, end, endian)?;
            fields.replace(field);
            pos = next;
        }
        Ok(fields)
    }
}

/// An entry that was written is read back as the field it was written for,
/// wherever in a message it stands.
#[verifier::rlimit(40)]
pub proof fn lemma_parse_entry_bytes(
    code: FieldCode,
    value: FieldValue,
    endian: EndianSig,
    buf: Seq<u8>,
    start: int,
    end: int,
)
    requires
        spec_value_fits(code, value),
        0 <= start,
        start + spec_entry_bytes(code, value, endian).len() <= end <= buf.len(),
        buf.subrange(start, start + spec_entry_bytes(code, value, endian).len())
            == spec_entry_bytes(code, value, endian),
    ensures
        spec_parse_entry(buf, start, end, endian) == Ok::<_, ErrorKind>(
            (code, value, start + spec_entry_bytes(code, value, endian).len()),
        ),
{
    let entry = spec_entry_bytes(code, value, endian);
    let part = buf.subrange(start, start + entry.len());
    assert(entry.len() >= 6);
    assert(buf[start] == part[0] && buf[start + 1] == part[1] && buf[start + 2] == part[2]);
    assert(FieldCode::spec_from_u8(code.spec_to_u8()) == Some(code));
    match value {
        FieldValue::Number(n) => {
            assert(buf.subrange(start + 4, start + 8) =~= part.subrange(4, 8));
            assert(part.subrange(4, 8) =~= spec_u32_bytes(n, endian));
            lemma_u32_at_within(buf, start + 4, n, endian);
        },
        FieldValue::Text(t) => {
            let bytes = encode_utf8(t);
            encode_utf8_valid_utf8(t);
            encode_utf8_decode_utf8(t);
            if code is Signature {
                assert(buf[start + 4] == part[4]);
                assert(buf.subrange(start + 5, start + 5 + bytes.len()) =~= part.subrange(
                    5,
                    5 + bytes.len() as int,
                ));
                assert(part.subrange(5, 5 + bytes.len() as int) =~= bytes);
            } else {
                assert(buf.subrange(start + 4, start + 8) =~= part.subrange(4, 8));
                assert(part.subrange(4, 8) =~= spec_u32_bytes(bytes.len() as u32, endian));
                lemma_u32_at_within(buf, start + 4, bytes.len() as u32, endian);
                assert(buf.subrange(start + 8, start + 8 + bytes.len()) =~= part.subrange(
                    8,
                    8 + bytes.len() as int,
                ));
                assert(part.subrange(8, 8 + bytes.len() as int) =~= bytes);
            }
        },
    }
}

/// Every value that fields hold fits the field it is the value of, where
/// the fields are well formed.
pub proof fn lemma_values_fit(fields: FieldsView, code: FieldCode)
    requires
        fields.wf(),
        fields.spec_text_fits(),
    ensures
        fields.spec_get(code) matches Some(v) ==> spec_value_fits(code, v),
{
}

impl FieldsView {
    /// Every text but the signature fits a 32-bit length.
    pub open spec fn spec_text_fits(self) -> bool {
        forall|code: FieldCode|
            (#[trigger] self.spec_get(code)) matches Some(FieldValue::Text(t)) ==> encode_utf8(
                t,
            ).len() <= u32::MAX
    }

    /// The wire form of the fields from place `n` on is the entry of the
    /// field at place `n`, if it is present, and then the rest.
    pub proof fn lemma_bytes_from_unfold(self, endian: EndianSig, n: nat, at: int)
        requires
            n < 9,
        ensures
            self.spec_bytes_from(endian, n, at) == match self.spec_get(spec_code_at(n)) {
                None => self.spec_bytes_from(endian, n + 1, at),
                Some(value) => spec_padded_entry(at, spec_code_at(n), value, endian)
                    + self.spec_bytes_from(
                    endian,
                    n + 1,
                    at + spec_padded_entry(at, spec_code_at(n), value, endian).len(),
                ),
            },
    {
    }

    /// A field array that was written is read back as the fields that were
    /// written, put into what was read before: the statement for the fields
    /// from place `n` on, whose wire form stands in `buf` from `pos` to `end`.
    #[verifier::rlimit(40)]
    pub proof fn lemma_parse_bytes_from(
        self,
        endian: EndianSig,
        buf: Seq<u8>,
        n: nat,
        pos: int,
        end: int,
        acc: FieldsView,
    )
        requires
            self.wf(),
            self.spec_text_fits(),
            0 <= pos <= end <= buf.len(),
            buf.subrange(pos, end) == self.spec_bytes_from(endian, n, pos),
        ensures
            spec_parse_fields(buf, pos, end, endian, acc) == Ok::<_, ErrorKind>(
                self.spec_merge_from(n, acc),
            ),
        decreases 9 - n,
    {
        if n >= 9 {
            assert(buf.subrange(pos, end).len() == 0);
        } else {
            let code = spec_code_at(n);
            self.lemma_bytes_from_unfold(endian, n, pos);
            match self.spec_get(code) {
                None => {
                    self.lemma_parse_bytes_from(endian, buf, n + 1, pos, end, acc);
                },
                Some(value) => {
                    lemma_values_fit(self, code);
                    let pad = spec_padding_for_8_bytes(pos);
                    let zeros = spec_zeros(pad);
                    let body = spec_entry_bytes(code, value, endian);
                    let rest = self.spec_bytes_from(endian, n + 1, pos + pad + body.len());
                    assert(spec_padded_entry(pos, code, value, endian).len() == pad + body.len());
                    assert(buf.subrange(pos, end) == zeros + body + rest);
                    lemma_subrange_parts(buf, pos, end, zeros, body, rest);
                    let start = pos + pad;
                    let next = start + body.len();
                    assert(body.len() >= 6);
                    assert forall|i: int| pos <= i < start implies #[trigger] buf[i] == 0 by {
                        assert(buf[i] == buf.subrange(pos, start)[i - pos]);
                    }
                    lemma_parse_entry_bytes(code, value, endian, buf, start, end);
                    self.lemma_parse_bytes_from(
                        endian,
                        buf,
                        n + 1,
                        next,
                        end,
                        acc.spec_replace(code, value),
                    );
                },
            }
        }
    }

    /// The wire form of the fields from place `n` on holds the bytes of the
    /// text of each field from that place on.
    pub proof fn lemma_text_within(self, endian: EndianSig, n: nat, at: int, k: nat)
        requires
            n <= k < 9,
            self.spec_get(spec_code_at(k)) is Some,
        ensures
            self.spec_get(spec_code_at(k)) matches Some(FieldValue::Text(t)) ==> encode_utf8(
                t,
            ).len() <= self.spec_bytes_from(endian, n, at).len(),
        decreases 9 - n,
    {
        self.lemma_bytes_from_unfold(endian, n, at);
        if n < k {
            match self.spec_get(spec_code_at(n)) {
                None => {
                    self.lemma_text_within(endian, n + 1, at, k);
                },
                Some(value) => {
                    let entry = spec_padded_entry(at, spec_code_at(n), value, endian);
                    self.lemma_text_within(endian, n + 1, at + entry.len(), k);
                },
            }
        }
    }

    /// Where the field array is no longer than `u32::MAX` bytes, every
    /// text fits a 32-bit length.
    pub proof fn lemma_text_fits(self, endian: EndianSig)
        requires
            self.spec_bytes(endian).len() <= u32::MAX,
        ensures
            self.spec_text_fits(),
    {
        assert forall|code: FieldCode|
            (#[trigger] self.spec_get(code)) matches Some(FieldValue::Text(t)) ==> encode_utf8(
                t,
            ).len() <= u32::MAX by {
            if self.spec_get(code) is Some {
                let k = (code.spec_to_u8() - 1) as nat;
                assert(spec_code_at(k) == code);
                self.lemma_text_within(endian, 0, 16, k);
            }
        }
    }

    /// Putting every field of a collection into an empty one gives the
    /// collection.
    pub proof fn lemma_merge_into_empty(self)
        ensures
            self.spec_merge_from(0, FieldsView::spec_empty()) == self,
    {
        reveal_with_fuel(FieldsView::spec_merge_from, 10);
    }

    /// The field array that [`Fields::to_bytes`] writes is read back by
    /// [`Fields::read`] as the same fields, whatever surrounds it in the
    /// message.
    pub proof fn lemma_read_to_bytes(self, endian: EndianSig, buf: Seq<u8>)
        requires
            self.wf(),
            self.spec_text_fits(),
            16 + self.spec_bytes(endian).len() as int <= buf.len(),
            buf.subrange(16, 16 + self.spec_bytes(endian).len() as int) == self.spec_bytes(endian),
        ensures
            spec_parse_fields(
                buf,
                16,
                16 + self.spec_bytes(endian).len() as int,
                endian,
                FieldsView::spec_empty(),
            ) == Ok::<_, ErrorKind>(self),
    {
        self.lemma_parse_bytes_from(
            endian,
            buf,
            0,
            16,
            16 + self.spec_bytes(endian).len() as int,
            FieldsView::spec_empty(),
        );
        self.lemma_merge_into_empty();
    }
}

} // verus!
