//! Building messages.

use vstd::prelude::*;
use vstd::string::StrSliceExecFns;

use crate::error::{Error, ErrorKind};
use crate::message::field_code::FieldCode;
use crate::message::fields::{Field, FieldValue, Fields, FieldsView};
use crate::message::header::{EndianSig, FlagSet, Flags, Header, HeaderView, PrimaryHeader};
use crate::message::header::{SerialCounter, Type, MAX_MESSAGE_SIZE};
use crate::message::{lemma_parse_message_bytes, spec_body_offset, spec_message_bytes, Message};
use crate::names::{check_bus_name, check_error_name, check_interface_name, check_member_name};
use crate::names::{check_object_path, check_signature, check_unique_name};
use crate::names::{is_bus_name, is_error_name, is_interface_name, is_member_name};
use crate::names::{is_object_path, is_signature, is_unique_name};

verus! {

/// The signature that goes into the header for a body of the given
/// signature: a signature that opens with `(` loses its first and its last
/// character, as the body of a message is a structure without saying so.
pub open spec fn spec_field_signature(signature: Seq<char>) -> Seq<char> {
    if signature.len() >= 2 && signature[0] == '(' {
        signature.subrange(1, signature.len() - 1)
    } else {
        signature
    }
}

/// The header of the message that is built from a builder with header `h`
/// for a body of `body_len` bytes with the given signature and `fds` file
/// descriptors: the body length is set, the signature field is put in
/// unless the signature is empty, and so is the descriptor count unless it
/// is zero.
pub open spec fn spec_built_header(h: HeaderView, signature: Seq<char>, body_len: u32, fds: u32)
    -> HeaderView {
    let with_signature = if signature.len() > 0 {
        h.fields.spec_replace(
            FieldCode::Signature,
            FieldValue::Text(spec_field_signature(signature)),
        )
    } else {
        h.fields
    };
    let with_fds = if fds != 0 {
        with_signature.spec_replace(FieldCode::UnixFDs, FieldValue::Number(fds))
    } else {
        with_signature
    };
    HeaderView { primary: PrimaryHeader { body_len, ..h.primary }, fields: with_fds }
}

/// What building gives: the header and the bytes of the message, or the
/// kind of error. In this order: a signature that, once its outer
/// parentheses are gone, is no signature is [`ErrorKind::Signature`]; file
/// descriptors without a signature are [`ErrorKind::InvalidField`]; a body
/// or a number of descriptors that does not fit 32 bits, and a message of
/// more than [`MAX_MESSAGE_SIZE`] bytes, are [`ErrorKind::ExcessData`].
pub open spec fn spec_build(h: HeaderView, signature: Seq<char>, body: Seq<u8>, fds: nat)
    -> core::result::Result<(HeaderView, Seq<u8>), ErrorKind> {
    match spec_body_error(signature, body.len(), fds) {
        Some(k) => Err(k),
        None => {
            let header = spec_built_header(h, signature, body.len() as u32, fds as u32);
            let bytes = spec_message_bytes(header, body);
            if bytes.len() > MAX_MESSAGE_SIZE {
                Err(ErrorKind::ExcessData)
            } else {
                Ok((header, bytes))
            }
        },
    }
}

/// The kind of error that a body of `body_len` bytes with the given
/// signature and `fds` file descriptors is, whatever message it is for; the
/// first three cases of [`spec_build`].
pub open spec fn spec_body_error(signature: Seq<char>, body_len: nat, fds: nat) -> Option<
    ErrorKind,
> {
    if signature.len() > 0 && !is_signature(spec_field_signature(signature)) {
        Some(ErrorKind::Signature)
    } else if fds > 0 && signature.len() == 0 {
        Some(ErrorKind::InvalidField)
    } else if body_len > u32::MAX || fds > u32::MAX {
        Some(ErrorKind::ExcessData)
    } else {
        None
    }
}

/// Size bound: no message that is built is larger than
/// [`MAX_MESSAGE_SIZE`], and every body whose message would be larger is
/// refused with [`ErrorKind::ExcessData`], unless it is refused for its
/// signature or its file descriptors before its size is looked at.
pub proof fn lemma_size_bound(h: HeaderView, signature: Seq<char>, body: Seq<u8>, fds: nat)
    ensures
        spec_build(h, signature, body, fds) matches Ok((_, bytes)) ==> bytes.len()
            <= MAX_MESSAGE_SIZE,
        spec_body_error(signature, body.len(), fds) is None && spec_message_bytes(
            spec_built_header(h, signature, body.len() as u32, fds as u32),
            body,
        ).len() > MAX_MESSAGE_SIZE ==> spec_build(h, signature, body, fds) == Err::<
            (HeaderView, Seq<u8>),
            _,
        >(ErrorKind::ExcessData),
{
}

/// Whether a header has the fields that its message type requires: a method
/// call its path and member, a signal its path, interface and member, a
/// method return its reply serial, an error its error name and reply serial.
pub open spec fn spec_has_required_fields(h: HeaderView) -> bool {
    match h.primary.msg_type {
        Type::MethodCall => h.fields.path is Some && h.fields.member is Some,
        Type::Signal => h.fields.path is Some && h.fields.interface is Some && h.fields.member
            is Some,
        Type::MethodReturn => h.fields.reply_serial is Some,
        Type::Error => h.fields.error_name is Some && h.fields.reply_serial is Some,
    }
}

/// Whether a header can be the start of a builder: its primary header can go
/// on the wire, its reply serial is not zero, it has the fields that its
/// message type requires, and only flags that its message type allows.
pub open spec fn spec_can_be_built(h: HeaderView) -> bool {
    &&& h.primary.wf()
    &&& h.fields.reply_serial != Some(0u32)
    &&& spec_has_required_fields(h)
    &&& spec_flags_allowed(h)
}

/// Whether the flags of a header are allowed for its message type: only a
/// method call can do without a reply.
pub open spec fn spec_flags_allowed(h: HeaderView) -> bool {
    h.primary.flags.no_reply_expected ==> h.primary.msg_type == Type::MethodCall
}

/// A builder for [`Message`]
///
/// A builder always holds the fields that its message type requires, and
/// only flags that its message type allows.
#[derive(Debug)]
pub struct Builder {
    header: Header,
}

impl View for Builder {
    type V = HeaderView;

    closed spec fn view(&self) -> HeaderView {
        self.header@
    }
}

impl Clone for Builder {
    fn clone(&self) -> (copy: Builder)
        ensures
            copy@ == self@,
    {
        proof {
            use_type_invariant(self);
        }
        Builder { header: self.header.duplicate() }
    }
}

impl Builder {
    #[verifier::type_invariant]
    closed spec fn inv(&self) -> bool {
        &&& self.header@.primary.wf()
        &&& self.header@.fields.wf()
        &&& self.header@.fields.spec_names_valid()
        &&& self.header@.fields.signature is None
        &&& self.header@.fields.unix_fds is None
        &&& spec_has_required_fields(self.header@)
        &&& spec_flags_allowed(self.header@)
    }

    /// The primary header of a new message of the given type, with the next
    /// serial number of `serials`.
    fn primary(msg_type: Type, serials: &mut SerialCounter) -> (r: Result<PrimaryHeader, Error>)
        ensures
            *final(serials) == old(serials).spec_drawn(),
            match r {
                Ok(p) => {
                    &&& !old(serials).spec_is_exhausted()
                    &&& p.wf()
                    &&& p.msg_type == msg_type
                    &&& p.serial_num == old(serials).spec_next()
                    &&& p.body_len == 0
                    &&& p.flags == FlagSet::spec_from_bits(0).unwrap()
                },
                Err(e) => e is ExcessData && old(serials).spec_is_exhausted(),
            },
    {
        if serials.is_exhausted() {
            let _ = serials.next();
            return Err(Error::ExcessData);
        }
        Ok(PrimaryHeader::new(msg_type, 0, serials))
    }

    /// Makes a message a reply to the message with the given header: the
    /// reply serial is that message's serial number, the byte order is that
    /// message's byte order, and the destination is that message's sender,
    /// if it has one.
    fn reply_to(primary: PrimaryHeader, fields: Fields, reply_to: &Header) -> (r: Result<
        Builder,
        Error,
    >)
        requires
            primary.wf(),
            primary.flags == FlagSet::spec_from_bits(0).unwrap(),
            primary.msg_type == Type::MethodReturn || primary.msg_type == Type::Error,
            primary.msg_type == Type::Error ==> fields@.error_name is Some,
            fields@.wf(),
            fields@.spec_names_valid(),
            fields@.signature is None,
            fields@.unix_fds is None,
            fields@.destination is None,
        ensures
            match r {
                Ok(b) => {
                    &&& reply_to@.primary.serial_num != 0
                    &&& reply_to@.fields.sender matches Some(sender) ==> is_bus_name(sender)
                    &&& b@ == (HeaderView {
                        primary: PrimaryHeader {
                            endian_sig: reply_to@.primary.endian_sig,
                            ..primary
                        },
                        fields: FieldsView {
                            reply_serial: Some(reply_to@.primary.serial_num),
                            destination: reply_to@.fields.sender,
                            ..fields@
                        },
                    })
                },
                Err(e) => if reply_to@.primary.serial_num == 0 {
                    e is InvalidField
                } else {
                    e is Name && (reply_to@.fields.sender matches Some(sender) && !is_bus_name(
                        sender,
                    ))
                },
            },
    {
        let serial = reply_to.primary().serial_num();
        if serial == 0 {
            return Err(Error::InvalidField);
        }
        let mut primary = primary;
        let mut fields = fields;
        primary.set_endian_sig(reply_to.primary().endian_sig());
        fields.replace(Field::ReplySerial(serial));
        match reply_to.sender() {
            Some(sender) => {
                if !check_bus_name(sender.as_str()) {
                    return Err(Error::Name("invalid bus name".to_owned()));
                }
                fields.replace(Field::Destination(sender.clone()));
            },
            None => {},
        }
        Ok(Builder { header: Header::new(primary, fields) })
    }

    /// A builder that starts from a header that exists, without its
    /// signature and its descriptor count, which building sets. A header
    /// that cannot go on the wire is refused with [`Error::InvalidField`]:
    /// one with a serial number or reply serial of zero, with a protocol
    /// version other than 1, without a field that its message type requires,
    /// or with a flag that its message type does not allow. A header with an
    /// ill-formed name is refused as [`FieldsView::spec_first_invalid`]
    /// says.
    pub fn from_header(header: Header) -> (r: Result<Builder, Error>)
        ensures
            match r {
                Ok(b) => {
                    &&& spec_can_be_built(header@)
                    &&& b@ == (HeaderView {
                        primary: header@.primary,
                        fields: header@.fields.spec_remove(FieldCode::Signature).spec_remove(
                            FieldCode::UnixFDs,
                        ),
                    })
                    &&& spec_has_required_fields(b@)
                },
                Err(e) => if !spec_can_be_built(header@) {
                    e is InvalidField
                } else {
                    header@.fields.spec_remove(FieldCode::Signature).spec_first_invalid() == Some(
                        e.spec_kind(),
                    )
                },
            },
    {
        let primary = *header.primary();
        let mut fields = header.into_fields();
        if primary.serial_num == 0 || primary.protocol_version != 1 {
            return Err(Error::InvalidField);
        }
        let is_call = match primary.msg_type {
            Type::MethodCall => true,
            _ => false,
        };
        if primary.flags.no_reply_expected && !is_call {
            return Err(Error::InvalidField);
        }
        match fields.reply_serial {
            Some(n) => {
                if n == 0 {
                    return Err(Error::InvalidField);
                }
            },
            None => {},
        }
        let complete = match primary.msg_type {
            Type::MethodCall => fields.path.is_some() && fields.member.is_some(),
            Type::Signal => fields.path.is_some() && fields.interface.is_some()
                && fields.member.is_some(),
            Type::MethodReturn => fields.reply_serial.is_some(),
            Type::Error => fields.error_name.is_some() && fields.reply_serial.is_some(),
        };
        if !complete {
            return Err(Error::InvalidField);
        }
        // Signature and Fds are added by building.
        fields.remove(FieldCode::Signature);
        fields.remove(FieldCode::UnixFDs);
        fields.validate()?;
        Ok(Builder { header: Header::new(primary, fields) })
    }

    /// Create a message of type [`Type::MethodCall`].
    pub fn method_call(path: &str, method_name: &str, serials: &mut SerialCounter) -> (r: Result<
        Builder,
        Error,
    >)
        ensures
            *final(serials) == old(serials).spec_drawn(),
            match r {
                Ok(b) => {
                    &&& b@.primary.msg_type == Type::MethodCall
                    &&& b@.primary.serial_num == old(serials).spec_next()
                    &&& b@.primary.flags == FlagSet::spec_from_bits(0).unwrap()
                    &&& b@.fields == (FieldsView {
                        path: Some(path@),
                        member: Some(method_name@),
                        ..FieldsView::spec_empty()
                    })
                    &&& spec_has_required_fields(b@)
                },
                Err(e) => e.spec_kind() == if old(serials).spec_is_exhausted() {
                    ErrorKind::ExcessData
                } else if !is_object_path(path@) {
                    ErrorKind::Type
                } else {
                    ErrorKind::Name
                },
            },
            r is Ok <==> !old(serials).spec_is_exhausted() && is_object_path(path@)
                && is_member_name(method_name@),
    {
        let primary = Self::primary(Type::MethodCall, serials)?;
        if !check_object_path(path) {
            return Err(Error::Type("invalid object path".to_owned()));
        }
        if !check_member_name(method_name) {
            return Err(Error::Name("invalid member name".to_owned()));
        }
        let mut fields = Fields::new();
        fields.replace(Field::Path(path.to_owned()));
        fields.replace(Field::Member(method_name.to_owned()));
        Ok(Builder { header: Header::new(primary, fields) })
    }

    /// Create a message of type [`Type::Signal`].
    pub fn signal(path: &str, interface: &str, name: &str, serials: &mut SerialCounter) -> (r:
        Result<Builder, Error>)
        ensures
            *final(serials) == old(serials).spec_drawn(),
            match r {
                Ok(b) => {
                    &&& b@.primary.msg_type == Type::Signal
                    &&& b@.primary.serial_num == old(serials).spec_next()
                    &&& b@.primary.flags == FlagSet::spec_from_bits(0).unwrap()
                    &&& b@.fields == (FieldsView {
                        path: Some(path@),
                        interface: Some(interface@),
                        member: Some(name@),
                        ..FieldsView::spec_empty()
                    })
                    &&& spec_has_required_fields(b@)
                },
                Err(e) => e.spec_kind() == if old(serials).spec_is_exhausted() {
                    ErrorKind::ExcessData
                } else if !is_object_path(path@) {
                    ErrorKind::Type
                } else {
                    ErrorKind::Name
                },
            },
            r is Ok <==> !old(serials).spec_is_exhausted() && is_object_path(path@)
                && is_interface_name(interface@) && is_member_name(name@),
    {
        let primary = Self::primary(Type::Signal, serials)?;
        if !check_object_path(path) {
            return Err(Error::Type("invalid object path".to_owned()));
        }
        if !check_interface_name(interface) {
            return Err(Error::Name("invalid interface name".to_owned()));
        }
        if !check_member_name(name) {
            return Err(Error::Name("invalid member name".to_owned()));
        }
        let mut fields = Fields::new();
        fields.replace(Field::Path(path.to_owned()));
        fields.replace(Field::Interface(interface.to_owned()));
        fields.replace(Field::Member(name.to_owned()));
        Ok(Builder { header: Header::new(primary, fields) })
    }

    /// Create a message of type [`Type::MethodReturn`].
    pub fn method_return(reply_to: &Header, serials: &mut SerialCounter) -> (r: Result<
        Builder,
        Error,
    >)
        ensures
            *final(serials) == old(serials).spec_drawn(),
            match r {
                Ok(b) => {
                    &&& b@.primary.msg_type == Type::MethodReturn
                    &&& b@.primary.serial_num == old(serials).spec_next()
                    &&& b@.primary.endian_sig == reply_to@.primary.endian_sig
                    &&& b@.fields == (FieldsView {
                        reply_serial: Some(reply_to@.primary.serial_num),
                        destination: reply_to@.fields.sender,
                        ..FieldsView::spec_empty()
                    })
                    &&& spec_has_required_fields(b@)
                },
                Err(e) => e.spec_kind() == if old(serials).spec_is_exhausted() {
                    ErrorKind::ExcessData
                } else if reply_to@.primary.serial_num == 0 {
                    ErrorKind::InvalidField
                } else {
                    ErrorKind::Name
                },
            },
            r is Ok <==> !old(serials).spec_is_exhausted() && reply_to@.primary.serial_num != 0 && (
            reply_to@.fields.sender matches Some(sender) ==> is_bus_name(sender)),
    {
        let primary = Self::primary(Type::MethodReturn, serials)?;
        Self::reply_to(primary, Fields::new(), reply_to)
    }

    /// Create a message of type [`Type::Error`].
    pub fn error(reply_to: &Header, name: &str, serials: &mut SerialCounter) -> (r: Result<
        Builder,
        Error,
    >)
        ensures
            *final(serials) == old(serials).spec_drawn(),
            match r {
                Ok(b) => {
                    &&& b@.primary.msg_type == Type::Error
                    &&& b@.primary.serial_num == old(serials).spec_next()
                    &&& b@.primary.endian_sig == reply_to@.primary.endian_sig
                    &&& b@.fields == (FieldsView {
                        error_name: Some(name@),
                        reply_serial: Some(reply_to@.primary.serial_num),
                        destination: reply_to@.fields.sender,
                        ..FieldsView::spec_empty()
                    })
                    &&& spec_has_required_fields(b@)
                },
                Err(e) => e.spec_kind() == if old(serials).spec_is_exhausted() {
                    ErrorKind::ExcessData
                } else if !is_error_name(name@) {
                    ErrorKind::Name
                } else if reply_to@.primary.serial_num == 0 {
                    ErrorKind::InvalidField
                } else {
                    ErrorKind::Name
                },
            },
            r is Ok <==> !old(serials).spec_is_exhausted() && is_error_name(name@)
                && reply_to@.primary.serial_num != 0 && (reply_to@.fields.sender matches Some(
                sender,
            ) ==> is_bus_name(sender)),
    {
        let primary = Self::primary(Type::Error, serials)?;
        if !check_error_name(name) {
            return Err(Error::Name("invalid error name".to_owned()));
        }
        let mut fields = Fields::new();
        fields.replace(Field::ErrorName(name.to_owned()));
        Self::reply_to(primary, fields, reply_to)
    }

    /// Add flags to the message.
    ///
    /// See [`Flags`] documentation for the meaning of the flags.
    ///
    /// The function will return [`Error::InvalidField`] if invalid flags are
    /// given for the message type: only a method call can do without a
    /// reply.
    pub fn with_flags(self, flag: Flags) -> (r: Result<Builder, Error>)
        ensures
            match r {
                Ok(b) => {
                    &&& !(self@.primary.msg_type != Type::MethodCall && flag
                        == Flags::NoReplyExpected)
                    &&& b@ == (HeaderView {
                        primary: PrimaryHeader {
                            flags: self@.primary.flags.spec_insert(flag),
                            ..self@.primary
                        },
                        ..self@
                    })
                },
                Err(e) => e is InvalidField && self@.primary.msg_type != Type::MethodCall && flag
                    == Flags::NoReplyExpected,
            },
    {
        proof {
            use_type_invariant(&self);
        }
        let mut header = self.header;
        let mut primary = *header.primary();
        let is_call = match primary.msg_type {
            Type::MethodCall => true,
            _ => false,
        };
        let no_reply = match flag {
            Flags::NoReplyExpected => true,
            _ => false,
        };
        if !is_call && no_reply {
            return Err(Error::InvalidField);
        }
        let mut flags = primary.flags;
        flags.insert(flag);
        primary.set_flags(flags);
        header.set_primary(primary);
        Ok(Builder { header })
    }

    /// Puts a text field whose value was found well formed into the header.
    fn with_field(self, field: Field) -> (b: Builder)
        requires
            !field.spec_code().spec_is_number(),
            field.spec_code() != FieldCode::Signature,
            self@.fields.spec_replace(field.spec_code(), field.spec_value()).spec_names_valid(),
        ensures
            b@ == (HeaderView {
                fields: self@.fields.spec_replace(field.spec_code(), field.spec_value()),
                ..self@
            }),
    {
        proof {
            use_type_invariant(&self);
        }
        let primary = *self.header.primary();
        let mut fields = self.header.into_fields();
        fields.replace(field);
        Builder { header: Header::new(primary, fields) }
    }

    /// Set the unique name of the sending connection. A text that is no
    /// unique name is [`Error::Name`].
    pub fn sender(self, sender: &str) -> (r: Result<Builder, Error>)
        ensures
            match r {
                Ok(b) => is_unique_name(sender@) && b@ == (HeaderView {
                    fields: FieldsView { sender: Some(sender@), ..self@.fields },
                    ..self@
                }),
                Err(e) => e is Name && !is_unique_name(sender@),
            },
    {
        proof {
            use_type_invariant(&self);
        }
        if !check_unique_name(sender) {
            return Err(Error::Name("invalid unique name".to_owned()));
        }
        Ok(self.with_field(Field::Sender(sender.to_owned())))
    }

    /// Set the object to send a call to, or the object a signal is emitted
    /// from. A text that is no object path is [`Error::Type`].
    pub fn path(self, path: &str) -> (r: Result<Builder, Error>)
        ensures
            match r {
                Ok(b) => is_object_path(path@) && b@ == (HeaderView {
                    fields: FieldsView { path: Some(path@), ..self@.fields },
                    ..self@
                }),
                Err(e) => e is Type && !is_object_path(path@),
            },
    {
        proof {
            use_type_invariant(&self);
        }
        if !check_object_path(path) {
            return Err(Error::Type("invalid object path".to_owned()));
        }
        Ok(self.with_field(Field::Path(path.to_owned())))
    }

    /// Set the interface to invoke a method call on, or that a signal is
    /// emitted from. A text that is no interface name is [`Error::Name`].
    pub fn interface(self, interface: &str) -> (r: Result<Builder, Error>)
        ensures
            match r {
                Ok(b) => is_interface_name(interface@) && b@ == (HeaderView {
                    fields: FieldsView { interface: Some(interface@), ..self@.fields },
                    ..self@
                }),
                Err(e) => e is Name && !is_interface_name(interface@),
            },
    {
        proof {
            use_type_invariant(&self);
        }
        if !check_interface_name(interface) {
            return Err(Error::Name("invalid interface name".to_owned()));
        }
        Ok(self.with_field(Field::Interface(interface.to_owned())))
    }

    /// Set the member, either the method name or signal name. A text that is
    /// no member name is [`Error::Name`].
    pub fn member(self, member: &str) -> (r: Result<Builder, Error>)
        ensures
            match r {
                Ok(b) => is_member_name(member@) && b@ == (HeaderView {
                    fields: FieldsView { member: Some(member@), ..self@.fields },
                    ..self@
                }),
                Err(e) => e is Name && !is_member_name(member@),
            },
    {
        proof {
            use_type_invariant(&self);
        }
        if !check_member_name(member) {
            return Err(Error::Name("invalid member name".to_owned()));
        }
        Ok(self.with_field(Field::Member(member.to_owned())))
    }

    /// Set the name of the error that a message of type [`Type::Error`]
    /// reports. A text that is no error name is [`Error::Name`].
    pub fn error_name(self, error: &str) -> (r: Result<Builder, Error>)
        ensures
            match r {
                Ok(b) => is_error_name(error@) && b@ == (HeaderView {
                    fields: FieldsView { error_name: Some(error@), ..self@.fields },
                    ..self@
                }),
                Err(e) => e is Name && !is_error_name(error@),
            },
    {
        proof {
            use_type_invariant(&self);
        }
        if !check_error_name(error) {
            return Err(Error::Name("invalid error name".to_owned()));
        }
        Ok(self.with_field(Field::ErrorName(error.to_owned())))
    }

    /// Set the name of the connection this message is intended for. A text
    /// that is no bus name is [`Error::Name`].
    pub fn destination(self, destination: &str) -> (r: Result<Builder, Error>)
        ensures
            match r {
                Ok(b) => is_bus_name(destination@) && b@ == (HeaderView {
                    fields: FieldsView { destination: Some(destination@), ..self@.fields },
                    ..self@
                }),
                Err(e) => e is Name && !is_bus_name(destination@),
            },
    {
        proof {
            use_type_invariant(&self);
        }
        if !check_bus_name(destination) {
            return Err(Error::Name("invalid bus name".to_owned()));
        }
        Ok(self.with_field(Field::Destination(destination.to_owned())))
    }

    /// The endianness of the message.
    pub fn endian_sig(&self) -> (endian: EndianSig)
        ensures
            endian == self@.primary.endian_sig,
    {
        self.header.primary().endian_sig()
    }

    /// Set the endianness of the message.
    ///
    /// The default endianness is native.
    pub fn endian(self, endian: EndianSig) -> (b: Builder)
        ensures
            b@ == (HeaderView {
                primary: PrimaryHeader { endian_sig: endian, ..self@.primary },
                ..self@
            }),
    {
        proof {
            use_type_invariant(&self);
        }
        let mut header = self.header;
        let mut primary = *header.primary();
        primary.set_endian_sig(endian);
        header.set_primary(primary);
        Builder { header }
    }

    /// Create a new message from a raw slice of bytes to populate the body
    /// with, rather than by serializing a value. The message body will be
    /// the exact bytes.
    ///
    /// A text that is no signature is [`Error::Signature`]; for the rest see
    /// [`Builder::build_generic`].
    pub fn build_raw_body(self, body_bytes: &[u8], signature: &str, fds: Vec<i32>) -> (r: Result<
        Message,
        Error,
    >)
        ensures
            match r {
                Ok(m) => {
                    &&& is_signature(signature@)
                    &&& spec_build(self@, signature@, body_bytes@, fds@.len()) == Ok::<
                        _,
                        ErrorKind,
                    >((m.spec_header(), m.spec_data()))
                    &&& m.wf()
                    &&& m.spec_body() == body_bytes@
                    &&& m.spec_fds() == fds@
                    &&& m.spec_recv_seq() == 0
                    &&& spec_has_required_fields(m.spec_header())
                    &&& spec_flags_allowed(m.spec_header())
                },
                Err(e) => if !is_signature(signature@) {
                    e is Signature
                } else {
                    spec_build(self@, signature@, body_bytes@, fds@.len()) == Err::<
                        (HeaderView, Seq<u8>),
                        _,
                    >(e.spec_kind())
                },
            },
    {
        if !check_signature(signature) {
            return Err(Error::Signature("invalid signature".to_owned()));
        }
        self.build_generic(signature, body_bytes, fds)
    }

    /// Completes the header for a body of `body_len` bytes with the given
    /// signature and `fds` file descriptors.
    fn finish_header(self, signature: &str, body_len: usize, fds: usize) -> (r: Result<
        Header,
        Error,
    >)
        ensures
            match r {
                Ok(h) => {
                    &&& spec_body_error(signature@, body_len as nat, fds as nat) is None
                    &&& h@ == spec_built_header(self@, signature@, body_len as u32, fds as u32)
                    &&& h@.primary.wf()
                    &&& h@.fields.wf()
                    &&& h@.fields.spec_names_valid()
                    &&& spec_has_required_fields(h@)
                    &&& spec_flags_allowed(h@)
                },
                Err(e) => spec_body_error(signature@, body_len as nat, fds as nat) == Some(
                    e.spec_kind(),
                ),
            },
    {
        proof {
            use_type_invariant(&self);
        }
        let mut primary = *self.header.primary();
        let mut fields = self.header.into_fields();
        let chars = signature.unicode_len();
        if chars > 0 {
            // Remove leading and trailing STRUCT delimiters
            let stripped = if chars >= 2 && signature.get_char(0) == '(' {
                signature.substring_char(1, chars - 1)
            } else {
                signature
            };
            if !check_signature(stripped) {
                return Err(Error::Signature("invalid signature".to_owned()));
            }
            fields.replace(Field::Signature(stripped.to_owned()));
        }
        if fds > 0 && chars == 0 {
            return Err(Error::InvalidField);
        }
        if body_len > 0xffff_ffff || fds > 0xffff_ffff {
            return Err(Error::ExcessData);
        }
        primary.set_body_len(body_len as u32);
        if fds != 0 {
            fields.replace(Field::UnixFDs(fds as u32));
        }
        Ok(Header::new(primary, fields))
    }

    /// Builds the message: puts the signature and the descriptor count into
    /// the header, sets the body length, writes the header, the padding and
    /// the body, and reads the result back. What comes out, and each error,
    /// is what [`spec_build`] says; the message's header is the builder's
    /// header with those fields set, as [`spec_built_header`] says.
    #[verifier::rlimit(50)]
    pub fn build_generic(self, signature: &str, body_bytes: &[u8], fds: Vec<i32>) -> (r: Result<
        Message,
        Error,
    >)
        ensures
            match r {
                Ok(m) => {
                    &&& spec_build(self@, signature@, body_bytes@, fds@.len()) == Ok::<
                        _,
                        ErrorKind,
                    >((m.spec_header(), m.spec_data()))
                    &&& m.wf()
                    &&& m.spec_body() == body_bytes@
                    &&& m.spec_body_offset() + body_bytes@.len() == m.spec_data().len()
                    &&& m.spec_fds() == fds@
                    &&& m.spec_recv_seq() == 0
                    &&& spec_has_required_fields(m.spec_header())
                    &&& spec_flags_allowed(m.spec_header())
                },
                Err(e) => spec_build(self@, signature@, body_bytes@, fds@.len()) == Err::<
                    (HeaderView, Seq<u8>),
                    _,
                >(e.spec_kind()),
            },
    {
        let header = self.finish_header(signature, body_bytes.len(), fds.len())?;
        let bytes = crate::message::message_bytes(&header, body_bytes)?;
        proof {
            lemma_parse_message_bytes(header@, body_bytes@);
        }
        Message::from_raw_parts(bytes, fds, 0)
    }
}

} // verus!
