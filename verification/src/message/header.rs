//! The fixed part of a message header and the types it is made of.

use vstd::prelude::*;

use crate::error::{Error, ErrorKind};
use crate::message::fields::{Fields, FieldsView};
pub use crate::message::wire::EndianSig;
use crate::message::wire::{lemma_u32_at_within, read_u32, spec_u32_at, spec_u32_bytes, write_u32};

verus! {

/// The size of the primary header on the wire.
pub const PRIMARY_HEADER_SIZE: usize = 12;

/// The primary header and the length prefix of the field array.
pub const MIN_MESSAGE_SIZE: usize = 16;

/// No message may be larger than this: 128 MiB.
pub const MAX_MESSAGE_SIZE: usize = 134217728;

impl EndianSig {
    /// The marker byte of an endianness: `B` or `l`.
    pub open spec fn spec_to_u8(self) -> u8 {
        match self {
            EndianSig::Big => 0x42,
            EndianSig::Little => 0x6c,
        }
    }

    /// The endianness that a marker byte stands for, if any.
    pub open spec fn spec_try_from(val: u8) -> Option<EndianSig> {
        if val == 0x42 {
            Some(EndianSig::Big)
        } else if val == 0x6c {
            Some(EndianSig::Little)
        } else {
            None
        }
    }

    /// The marker byte of this endianness.
    pub fn to_u8(self) -> (b: u8)
        ensures
            b == self.spec_to_u8(),
    {
        match self {
            EndianSig::Big => 0x42,
            EndianSig::Little => 0x6c,
        }
    }

    /// Reads an endianness from its marker byte; any byte but `B` and `l`
    /// is [`Error::IncorrectEndian`].
    pub fn try_from(val: u8) -> (r: Result<EndianSig, Error>)
        ensures
            match r {
                Ok(e) => Self::spec_try_from(val) == Some(e),
                Err(e) => Self::spec_try_from(val) is None && e is IncorrectEndian,
            },
    {
        if val == 0x42 {
            Ok(EndianSig::Big)
        } else if val == 0x6c {
            Ok(EndianSig::Little)
        } else {
            Err(Error::IncorrectEndian)
        }
    }
}

/// Reports the byte order of the machine the code runs on, taken from
/// `zvariant::NATIVE_ENDIAN`. Nothing is promised of the answer.
#[verifier::external_body]
fn native_endian_sig() -> EndianSig {
    match zvariant::NATIVE_ENDIAN {
        zvariant::Endian::Little => EndianSig::Little,
        zvariant::Endian::Big => EndianSig::Big,
    }
}

/// Message header representing the D-Bus type of the message.
#[derive(Debug, Copy, Clone, PartialEq, Eq, Hash, Structural)]
pub enum Type {
    /// Method call. This message type may prompt a reply (and typically does).
    MethodCall,
    /// A reply to a method call.
    MethodReturn,
    /// An error in response to a method call.
    Error,
    /// Signal emission.
    Signal,
}

impl Type {
    /// The wire code of a message type.
    pub open spec fn spec_to_u8(self) -> u8 {
        match self {
            Type::MethodCall => 1,
            Type::MethodReturn => 2,
            Type::Error => 3,
            Type::Signal => 4,
        }
    }

    /// The message type that a wire code stands for, if any.
    pub open spec fn spec_from_u8(val: u8) -> Option<Type> {
        if val == 1 {
            Some(Type::MethodCall)
        } else if val == 2 {
            Some(Type::MethodReturn)
        } else if val == 3 {
            Some(Type::Error)
        } else if val == 4 {
            Some(Type::Signal)
        } else {
            None
        }
    }

    /// The wire code of this message type.
    pub fn to_u8(self) -> (b: u8)
        ensures
            b == self.spec_to_u8(),
    {
        match self {
            Type::MethodCall => 1,
            Type::MethodReturn => 2,
            Type::Error => 3,
            Type::Signal => 4,
        }
    }

    /// The message type with the given wire code, if there is one.
    pub fn from_u8(val: u8) -> (t: Option<Type>)
        ensures
            t == Self::spec_from_u8(val),
    {
        if val == 1 {
            Some(Type::MethodCall)
        } else if val == 2 {
            Some(Type::MethodReturn)
        } else if val == 3 {
            Some(Type::Error)
        } else if val == 4 {
            Some(Type::Signal)
        } else {
            None
        }
    }
}

/// Pre-defined flags that can be passed in Message header.
#[derive(Debug, Copy, Clone, PartialEq, Eq, Structural)]
pub enum Flags {
    /// This message does not expect method return replies or error replies,
    /// even if it is of a type that can have a reply; the reply should be
    /// omitted.
    NoReplyExpected,
    /// The bus must not launch an owner for the destination name in response
    /// to this message.
    NoAutoStart,
    /// The caller is prepared to wait for interactive authorization, which
    /// might take a considerable time to complete.
    AllowInteractiveAuth,
}

impl Flags {
    /// The bit of a flag in the flags byte.
    pub open spec fn spec_bit(self) -> u8 {
        match self {
            Flags::NoReplyExpected => 1,
            Flags::NoAutoStart => 2,
            Flags::AllowInteractiveAuth => 4,
        }
    }

    /// The bit of this flag in the flags byte.
    pub fn bit(self) -> (b: u8)
        ensures
            b == self.spec_bit(),
    {
        match self {
            Flags::NoReplyExpected => 1,
            Flags::NoAutoStart => 2,
            Flags::AllowInteractiveAuth => 4,
        }
    }
}

/// A set of [`Flags`].
#[derive(Debug, Copy, Clone, PartialEq, Eq, Structural)]
pub struct FlagSet {
    /// Whether [`Flags::NoReplyExpected`] is in the set.
    pub no_reply_expected: bool,
    /// Whether [`Flags::NoAutoStart`] is in the set.
    pub no_auto_start: bool,
    /// Whether [`Flags::AllowInteractiveAuth`] is in the set.
    pub allow_interactive_auth: bool,
}

impl FlagSet {
    /// Whether `flag` is in the set.
    pub open spec fn spec_contains(self, flag: Flags) -> bool {
        match flag {
            Flags::NoReplyExpected => self.no_reply_expected,
            Flags::NoAutoStart => self.no_auto_start,
            Flags::AllowInteractiveAuth => self.allow_interactive_auth,
        }
    }

    /// The set with `flag` added.
    pub open spec fn spec_insert(self, flag: Flags) -> FlagSet {
        match flag {
            Flags::NoReplyExpected => FlagSet { no_reply_expected: true, ..self },
            Flags::NoAutoStart => FlagSet { no_auto_start: true, ..self },
            Flags::AllowInteractiveAuth => FlagSet { allow_interactive_auth: true, ..self },
        }
    }

    /// The flags byte: the sum of the bits of the flags in the set.
    pub open spec fn spec_bits(self) -> u8 {
        ((if self.no_reply_expected {
            1int
        } else {
            0int
        }) + (if self.no_auto_start {
            2int
        } else {
            0int
        }) + (if self.allow_interactive_auth {
            4int
        } else {
            0int
        })) as u8
    }

    /// The set that a flags byte stands for; a byte with an unknown bit
    /// stands for none.
    pub open spec fn spec_from_bits(bits: u8) -> Option<FlagSet> {
        if bits >= 8 {
            None
        } else {
            Some(
                FlagSet {
                    no_reply_expected: bits % 2 == 1,
                    no_auto_start: bits / 2 % 2 == 1,
                    allow_interactive_auth: bits / 4 == 1,
                },
            )
        }
    }

    /// The set without any flag.
    pub fn empty() -> (s: FlagSet)
        ensures
            s == (FlagSet {
                no_reply_expected: false,
                no_auto_start: false,
                allow_interactive_auth: false,
            }),
            forall|f: Flags| !s.spec_contains(f),
    {
        FlagSet { no_reply_expected: false, no_auto_start: false, allow_interactive_auth: false }
    }

    /// Whether `flag` is in the set.
    pub fn contains(&self, flag: Flags) -> (b: bool)
        ensures
            b == self.spec_contains(flag),
    {
        match flag {
            Flags::NoReplyExpected => self.no_reply_expected,
            Flags::NoAutoStart => self.no_auto_start,
            Flags::AllowInteractiveAuth => self.allow_interactive_auth,
        }
    }

    /// Adds `flag` to the set.
    pub fn insert(&mut self, flag: Flags)
        ensures
            *final(self) == old(self).spec_insert(flag),
            final(self).spec_contains(flag),
            forall|f: Flags| f != flag ==> final(self).spec_contains(f) == old(self).spec_contains(f),
    {
        match flag {
            Flags::NoReplyExpected => {
                self.no_reply_expected = true;
            },
            Flags::NoAutoStart => {
                self.no_auto_start = true;
            },
            Flags::AllowInteractiveAuth => {
                self.allow_interactive_auth = true;
            },
        }
    }

    /// The flags byte of this set.
    pub fn bits(&self) -> (b: u8)
        ensures
            b == self.spec_bits(),
            b < 8,
    {
        let mut b: u8 = 0;
        if self.no_reply_expected {
            b = b + 1;
        }
        if self.no_auto_start {
            b = b + 2;
        }
        if self.allow_interactive_auth {
            b = b + 4;
        }
        b
    }

    /// The set that the flags byte stands for, or `None` where the byte has
    /// a bit that is no flag.
    pub fn from_bits(bits: u8) -> (s: Option<FlagSet>)
        ensures
            s == Self::spec_from_bits(bits),
    {
        if bits >= 8 {
            None
        } else {
            Some(
                FlagSet {
                    no_reply_expected: bits % 2 == 1,
                    no_auto_start: bits / 2 % 2 == 1,
                    allow_interactive_auth: bits / 4 == 1,
                },
            )
        }
    }

    /// A set is recovered from its flags byte.
    pub proof fn lemma_bits_round_trip(self)
        ensures
            Self::spec_from_bits(self.spec_bits()) == Some(self),
    {
    }
}

/// The source of message serial numbers: a counter that starts at 1 and
/// never hands out the same number twice, nor zero.
#[derive(Debug)]
pub struct SerialCounter {
    next: u64,
}

impl SerialCounter {
    #[verifier::type_invariant]
    closed spec fn inv(&self) -> bool {
        1 <= self.next <= 0x1_0000_0000
    }

    /// The counter holds a number from 1 up to the first one past
    /// `u32::MAX`. This holds of every counter that this library hands out.
    pub closed spec fn wf(&self) -> bool {
        self.inv()
    }

    /// The serial number that the next message gets; past `u32::MAX` the
    /// counter is exhausted.
    pub closed spec fn spec_next(&self) -> nat {
        self.next as nat
    }

    /// Whether every serial number has been handed out.
    pub open spec fn spec_is_exhausted(&self) -> bool {
        self.spec_next() > u32::MAX
    }

    /// The counter after one number was drawn from it; an exhausted counter
    /// stays as it is.
    pub closed spec fn spec_drawn(&self) -> SerialCounter {
        if self.next > u32::MAX {
            *self
        } else {
            SerialCounter { next: (self.next + 1) as u64 }
        }
    }

    /// The counter after `n` numbers were drawn from it.
    pub open spec fn spec_drawn_times(&self, n: nat) -> SerialCounter
        decreases n,
    {
        if n == 0 {
            *self
        } else {
            self.spec_drawn().spec_drawn_times((n - 1) as nat)
        }
    }

    /// A counter whose first serial number is 1.
    pub fn new() -> (c: SerialCounter)
        ensures
            c.wf(),
            c.spec_next() == 1,
    {
        SerialCounter { next: 1 }
    }

    /// Whether every serial number has been handed out.
    pub fn is_exhausted(&self) -> (b: bool)
        ensures
            b == self.spec_is_exhausted(),
    {
        self.next > 0xffff_ffff
    }

    /// Hands out the next serial number, or `None` once all of them are
    /// used up. Each number is one more than the one before.
    pub fn next(&mut self) -> (serial: Option<u32>)
        ensures
            final(self).wf(),
            *final(self) == old(self).spec_drawn(),
            match serial {
                Some(s) => {
                    &&& s == old(self).spec_next()
                    &&& s != 0
                    &&& final(self).spec_next() == s + 1
                },
                None => old(self).spec_is_exhausted() && *final(self) == *old(self),
            },
    {
        proof {
            use_type_invariant(&*self);
        }
        if self.next > 0xffff_ffff {
            None
        } else {
            let s: u32 = self.next as u32;
            self.next = self.next + 1;
            Some(s)
        }
    }

    /// Drawing a number moves the counter on by one, unless it is exhausted.
    pub proof fn lemma_drawn(self)
        requires
            self.wf(),
        ensures
            self.spec_drawn().wf(),
            self.spec_is_exhausted() ==> self.spec_drawn() == self,
            !self.spec_is_exhausted() ==> self.spec_drawn().spec_next() == self.spec_next() + 1,
    {
    }

    /// A counter never goes back.
    pub proof fn lemma_drawn_times(self, n: nat)
        requires
            self.wf(),
        ensures
            self.spec_drawn_times(n).wf(),
            self.spec_drawn_times(n).spec_next() >= self.spec_next(),
        decreases n,
    {
        if n > 0 {
            self.lemma_drawn();
            self.spec_drawn().lemma_drawn_times((n - 1) as nat);
        }
    }

    /// Serial numbers strictly increase: of two numbers that are drawn from
    /// one counter, with any number of draws between them, the later one is
    /// the larger.
    pub proof fn lemma_serials_increase(self, between: nat)
        requires
            self.wf(),
            !self.spec_drawn().spec_drawn_times(between).spec_is_exhausted(),
        ensures
            !self.spec_is_exhausted(),
            self.spec_drawn().spec_drawn_times(between).spec_next() > self.spec_next(),
    {
        self.lemma_drawn();
        self.spec_drawn().lemma_drawn_times(between);
    }
}

/// The primary message header, which is present in all D-Bus messages.
///
/// This header contains all the essential information about a message,
/// regardless of its type.
#[derive(Debug, Copy, Clone, PartialEq, Eq, Structural)]
pub struct PrimaryHeader {
    /// D-Bus code for endian encoding of the message.
    pub endian_sig: EndianSig,
    /// The message type.
    pub msg_type: Type,
    /// The message flags.
    pub flags: FlagSet,
    /// The major version of the protocol; only 1 is valid.
    pub protocol_version: u8,
    /// The byte length of the message body.
    pub body_len: u32,
    /// The serial number of the message; never zero.
    pub serial_num: u32,
}

impl PrimaryHeader {
    /// The header can go on the wire: its serial number is not zero and its
    /// protocol version is 1.
    pub open spec fn wf(&self) -> bool {
        &&& self.serial_num != 0
        &&& self.protocol_version == 1
    }

    /// The sixteen bytes that open a message with this primary header and a
    /// field array of `fields_len` bytes.
    pub open spec fn spec_bytes(&self, fields_len: u32) -> Seq<u8> {
        seq![
            self.endian_sig.spec_to_u8(),
            self.msg_type.spec_to_u8(),
            self.flags.spec_bits(),
            self.protocol_version,
        ] + spec_u32_bytes(self.body_len, self.endian_sig) + spec_u32_bytes(
            self.serial_num,
            self.endian_sig,
        ) + spec_u32_bytes(fields_len, self.endian_sig)
    }

    /// The primary header and the length of the field array that the first
    /// sixteen bytes of `buf` encode, or the kind of error that they are:
    /// [`ErrorKind::IncorrectEndian`] for an unknown endian marker,
    /// [`ErrorKind::Type`] for fewer than sixteen bytes, an unknown message
    /// type or flag, a protocol version other than 1, or a zero serial number.
    pub open spec fn spec_read(buf: Seq<u8>) -> core::result::Result<(PrimaryHeader, u32), ErrorKind> {
        if buf.len() < 16 {
            Err(ErrorKind::Type)
        } else {
            match EndianSig::spec_try_from(buf[0]) {
                None => Err(ErrorKind::IncorrectEndian),
                Some(endian_sig) => match (Type::spec_from_u8(buf[1]), FlagSet::spec_from_bits(buf[2])) {
                    (Some(msg_type), Some(flags)) => {
                        let serial_num = spec_u32_at(buf, 8, endian_sig);
                        if buf[3] != 1 || serial_num == 0 {
                            Err(ErrorKind::Type)
                        } else {
                            Ok(
                                (
                                    PrimaryHeader {
                                        endian_sig,
                                        msg_type,
                                        flags,
                                        protocol_version: 1,
                                        body_len: spec_u32_at(buf, 4, endian_sig),
                                        serial_num,
                                    },
                                    spec_u32_at(buf, 12, endian_sig),
                                ),
                            )
                        }
                    },
                    _ => Err(ErrorKind::Type),
                },
            }
        }
    }

    /// Create a new `PrimaryHeader` instance in the byte order of this
    /// machine, without flags, with the next serial number of `serials`.
    pub fn new(msg_type: Type, body_len: u32, serials: &mut SerialCounter) -> (h: PrimaryHeader)
        requires
            !old(serials).spec_is_exhausted(),
        ensures
            h.wf(),
            h.msg_type == msg_type,
            h.body_len == body_len,
            h.flags == FlagSet::spec_from_bits(0).unwrap(),
            h.protocol_version == 1,
            h.serial_num == old(serials).spec_next(),
            *final(serials) == old(serials).spec_drawn(),
            final(serials).spec_next() == old(serials).spec_next() + 1,
    {
        let serial = serials.next();
        PrimaryHeader {
            endian_sig: native_endian_sig(),
            msg_type,
            flags: FlagSet::empty(),
            protocol_version: 1,
            body_len,
            serial_num: serial.unwrap(),
        }
    }

    /// Reads the primary header and the length of the field array from the
    /// first sixteen bytes of `buf`.
    pub fn read(buf: &[u8]) -> (r: Result<(PrimaryHeader, u32), Error>)
        ensures
            match r {
                Ok(v) => Self::spec_read(buf@) == Ok::<_, ErrorKind>(v) && v.0.wf(),
                Err(e) => Self::spec_read(buf@) == Err::<(PrimaryHeader, u32), _>(e.spec_kind()),
            },
    {
        if buf.len() < 16 {
            return Err(Error::Type("not enough data for a message header".to_owned()));
        }
        let endian_sig = EndianSig::try_from(buf[0])?;
        let msg_type = match Type::from_u8(buf[1]) {
            Some(t) => t,
            None => {
                return Err(Error::Type("unknown message type".to_owned()));
            },
        };
        let flags = match FlagSet::from_bits(buf[2]) {
            Some(f) => f,
            None => {
                return Err(Error::Type("unknown message flag".to_owned()));
            },
        };
        let body_len = read_u32(buf, 4, endian_sig);
        let serial_num = read_u32(buf, 8, endian_sig);
        let fields_len = read_u32(buf, 12, endian_sig);
        if buf[3] != 1 {
            return Err(Error::Type("unsupported protocol version".to_owned()));
        }
        if serial_num == 0 {
            return Err(Error::Type("serial number is zero".to_owned()));
        }
        Ok(
            (
                PrimaryHeader {
                    endian_sig,
                    msg_type,
                    flags,
                    protocol_version: 1,
                    body_len,
                    serial_num,
                },
                fields_len,
            ),
        )
    }

    /// Appends the sixteen bytes that open a message with this primary
    /// header and a field array of `fields_len` bytes.
    pub fn write(&self, fields_len: u32, out: &mut Vec<u8>)
        ensures
            final(out)@ == old(out)@ + self.spec_bytes(fields_len),
            self.spec_bytes(fields_len).len() == 16,
    {
        out.push(self.endian_sig.to_u8());
        out.push(self.msg_type.to_u8());
        out.push(self.flags.bits());
        out.push(self.protocol_version);
        write_u32(out, self.body_len, self.endian_sig);
        write_u32(out, self.serial_num, self.endian_sig);
        write_u32(out, fields_len, self.endian_sig);
        assert(out@ =~= old(out)@ + self.spec_bytes(fields_len));
    }

    /// What [`PrimaryHeader::write`] writes, [`PrimaryHeader::read`] reads
    /// back, whatever follows the sixteen bytes.
    pub proof fn lemma_read_write(self, fields_len: u32, rest: Seq<u8>)
        requires
            self.wf(),
        ensures
            self.spec_bytes(fields_len).len() == 16,
            Self::spec_read(self.spec_bytes(fields_len) + rest) == Ok::<_, ErrorKind>(
                (self, fields_len),
            ),
    {
        let e = self.endian_sig;
        let buf = self.spec_bytes(fields_len) + rest;
        assert(buf.subrange(4, 8) =~= spec_u32_bytes(self.body_len, e));
        assert(buf.subrange(8, 12) =~= spec_u32_bytes(self.serial_num, e));
        assert(buf.subrange(12, 16) =~= spec_u32_bytes(fields_len, e));
        lemma_u32_at_within(buf, 4, self.body_len, e);
        lemma_u32_at_within(buf, 8, self.serial_num, e);
        lemma_u32_at_within(buf, 12, fields_len, e);
        self.flags.lemma_bits_round_trip();
        assert(buf[0] == e.spec_to_u8());
        assert(buf[1] == self.msg_type.spec_to_u8());
        assert(buf[2] == self.flags.spec_bits());
        assert(buf[3] == 1);
    }

    /// D-Bus code for endian encoding of the message.
    pub fn endian_sig(&self) -> (sig: EndianSig)
        ensures
            sig == self.endian_sig,
    {
        self.endian_sig
    }

    /// Set the D-Bus code for endian encoding of the message.
    pub fn set_endian_sig(&mut self, sig: EndianSig)
        ensures
            *final(self) == (PrimaryHeader { endian_sig: sig, ..*old(self) }),
    {
        self.endian_sig = sig;
    }

    /// The message type.
    pub fn msg_type(&self) -> (t: Type)
        ensures
            t == self.msg_type,
    {
        self.msg_type
    }

    /// Set the message type.
    pub fn set_msg_type(&mut self, msg_type: Type)
        ensures
            *final(self) == (PrimaryHeader { msg_type, ..*old(self) }),
    {
        self.msg_type = msg_type;
    }

    /// The message flags.
    pub fn flags(&self) -> (f: FlagSet)
        ensures
            f == self.flags,
    {
        self.flags
    }

    /// Set the message flags.
    pub fn set_flags(&mut self, flags: FlagSet)
        ensures
            *final(self) == (PrimaryHeader { flags, ..*old(self) }),
    {
        self.flags = flags;
    }

    /// The major version of the protocol the message is compliant to.
    ///
    /// Currently only `1` is valid.
    pub fn protocol_version(&self) -> (v: u8)
        ensures
            v == self.protocol_version,
    {
        self.protocol_version
    }

    /// Set the major version of the protocol the message is compliant to.
    ///
    /// Currently only `1` is valid.
    pub fn set_protocol_version(&mut self, version: u8)
        ensures
            *final(self) == (PrimaryHeader { protocol_version: version, ..*old(self) }),
    {
        self.protocol_version = version;
    }

    /// The byte length of the message body.
    pub fn body_len(&self) -> (len: u32)
        ensures
            len == self.body_len,
    {
        self.body_len
    }

    /// Set the byte length of the message body.
    pub fn set_body_len(&mut self, len: u32)
        ensures
            *final(self) == (PrimaryHeader { body_len: len, ..*old(self) }),
    {
        self.body_len = len;
    }

    /// The serial number of the message.
    ///
    /// This is used to match a reply to a method call.
    pub fn serial_num(&self) -> (serial: u32)
        ensures
            serial == self.serial_num,
    {
        self.serial_num
    }

    /// Set the serial number of the message, which may not be zero.
    ///
    /// This is used to match a reply to a method call.
    pub fn set_serial_num(&mut self, serial_num: u32)
        requires
            serial_num != 0,
        ensures
            *final(self) == (PrimaryHeader { serial_num, ..*old(self) }),
    {
        self.serial_num = serial_num;
    }
}


/// What a header holds: the primary header and the fields.
pub struct HeaderView {
    /// The primary header.
    pub primary: PrimaryHeader,
    /// The header fields.
    pub fields: FieldsView,
}

/// The message header, containing all the metadata about the message.
///
/// This includes both the [`PrimaryHeader`] and the [`Fields`].
#[derive(Debug, Clone)]
pub struct Header {
    primary: PrimaryHeader,
    fields: Fields,
}

impl View for Header {
    type V = HeaderView;

    closed spec fn view(&self) -> HeaderView {
        HeaderView { primary: self.primary, fields: self.fields@ }
    }
}

impl Header {
    /// Create a new `Header` instance.
    pub fn new(primary: PrimaryHeader, fields: Fields) -> (header: Header)
        ensures
            header@ == (HeaderView { primary, fields: fields@ }),
    {
        Header { primary, fields }
    }

    /// A copy of this header.
    pub fn duplicate(&self) -> (copy: Header)
        ensures
            copy@ == self@,
    {
        Header { primary: self.primary, fields: self.fields.duplicate() }
    }

    /// Get a reference to the primary header.
    pub fn primary(&self) -> (primary: &PrimaryHeader)
        ensures
            *primary == self@.primary,
    {
        &self.primary
    }

    /// Get a mutable reference to the primary header.
    pub fn primary_mut(&mut self) -> (primary: &mut PrimaryHeader)
        ensures
            *primary == old(self)@.primary,
            final(self)@ == (HeaderView { primary: *final(primary), fields: old(self)@.fields }),
    {
        &mut self.primary
    }

    /// Replace the primary header.
    pub fn set_primary(&mut self, primary: PrimaryHeader)
        ensures
            final(self)@ == (HeaderView { primary, fields: old(self)@.fields }),
    {
        self.primary = primary;
    }

    /// Get the primary header, consuming `self`.
    pub fn into_primary(self) -> (primary: PrimaryHeader)
        ensures
            primary == self@.primary,
    {
        self.primary
    }

    /// Get a reference to the message fields.
    pub fn fields(&self) -> (fields: &Fields)
        ensures
            fields@ == self@.fields,
    {
        &self.fields
    }

    /// Replace the message fields.
    pub fn set_fields(&mut self, fields: Fields)
        ensures
            final(self)@ == (HeaderView { primary: old(self)@.primary, fields: fields@ }),
    {
        self.fields = fields;
    }

    /// Get the message fields, consuming `self`.
    pub fn into_fields(self) -> (fields: Fields)
        ensures
            fields@ == self@.fields,
    {
        self.fields
    }

    /// The message type
    pub fn message_type(&self) -> (t: Type)
        ensures
            t == self@.primary.msg_type,
    {
        self.primary.msg_type
    }

    /// The object to send a call to, or the object a signal is emitted from.
    pub fn path(&self) -> (path: Option<&String>)
        ensures
            crate::message::fields::spec_text_ref(path) == self@.fields.path,
    {
        self.fields.path.as_ref()
    }

    /// The interface to invoke a method call on, or that a signal is emitted from.
    pub fn interface(&self) -> (interface: Option<&String>)
        ensures
            crate::message::fields::spec_text_ref(interface) == self@.fields.interface,
    {
        self.fields.interface.as_ref()
    }

    /// The member, either the method name or signal name.
    pub fn member(&self) -> (member: Option<&String>)
        ensures
            crate::message::fields::spec_text_ref(member) == self@.fields.member,
    {
        self.fields.member.as_ref()
    }

    /// The name of the error that occurred, for errors.
    pub fn error_name(&self) -> (name: Option<&String>)
        ensures
            crate::message::fields::spec_text_ref(name) == self@.fields.error_name,
    {
        self.fields.error_name.as_ref()
    }

    /// The serial number of the message this message is a reply to.
    pub fn reply_serial(&self) -> (serial: Option<u32>)
        ensures
            serial == self@.fields.reply_serial,
    {
        self.fields.reply_serial
    }

    /// The name of the connection this message is intended for.
    pub fn destination(&self) -> (destination: Option<&String>)
        ensures
            crate::message::fields::spec_text_ref(destination) == self@.fields.destination,
    {
        self.fields.destination.as_ref()
    }

    /// Unique name of the sending connection.
    pub fn sender(&self) -> (sender: Option<&String>)
        ensures
            crate::message::fields::spec_text_ref(sender) == self@.fields.sender,
    {
        self.fields.sender.as_ref()
    }

    /// The signature of the message body.
    pub fn signature(&self) -> (signature: Option<&String>)
        ensures
            crate::message::fields::spec_text_ref(signature) == self@.fields.signature,
    {
        self.fields.signature.as_ref()
    }

    /// The number of Unix file descriptors that accompany the message.
    pub fn unix_fds(&self) -> (fds: Option<u32>)
        ensures
            fds == self@.fields.unix_fds,
    {
        self.fields.unix_fds
    }
}

} // verus!
