//! Well-formedness of the names that header fields carry.
//!
//! The grammar of each kind of name is the one that `zvariant` and
//! `zbus_names` enforce; the checks here call into those crates. The
//! grammars of the names are written out as specifications; the grammar of
//! type signatures, which is recursive, is not.

use vstd::prelude::*;

verus! {

/// `c` is an ASCII letter or digit.
pub open spec fn is_ascii_alphanumeric(c: char) -> bool {
    ('0' <= c && c <= '9') || ('A' <= c && c <= 'Z') || ('a' <= c && c <= 'z')
}

/// `c` is an ASCII digit.
pub open spec fn is_ascii_digit(c: char) -> bool {
    '0' <= c && c <= '9'
}

/// The object path grammar: a leading `/`, elements of letters, digits and
/// `_` separated by single `/`, and no trailing `/` except in the root path.
#[verifier::opaque]
pub open spec fn is_object_path(path: Seq<char>) -> bool {
    &&& path.len() > 0
    &&& path[0] == '/'
    &&& forall|i: int|
        0 <= i < path.len() ==> is_ascii_alphanumeric(#[trigger] path[i]) || path[i] == '/'
            || path[i] == '_'
    &&& forall|i: int| 0 < i < path.len() ==> !(#[trigger] path[i] == '/' && path[i - 1] == '/')
    &&& path.len() > 1 ==> path[path.len() - 1] != '/'
}

/// The member name grammar: 1 to 255 letters, digits and `_`, not starting
/// with a digit.
#[verifier::opaque]
pub open spec fn is_member_name(name: Seq<char>) -> bool {
    &&& 1 <= name.len() <= 255
    &&& !is_ascii_digit(name[0])
    &&& forall|i: int|
        0 <= i < name.len() ==> is_ascii_alphanumeric(#[trigger] name[i]) || name[i] == '_'
}

/// `c` may stand in an element of a dotted name: a letter, a digit or `_`,
/// and `-` where hyphens are allowed.
pub open spec fn is_element_char(c: char, hyphen: bool) -> bool {
    is_ascii_alphanumeric(c) || c == '_' || (hyphen && c == '-')
}

/// The grammar of names that are made of elements with dots between them: 3
/// to 255 characters, at least one dot, no dot at the start or behind
/// another dot, and no digit at the start of an element. A dot may end the
/// name.
#[verifier::opaque]
pub open spec fn is_dotted_name(name: Seq<char>, hyphen: bool) -> bool {
    &&& 3 <= name.len() <= 255
    &&& forall|i: int|
        0 <= i < name.len() ==> (#[trigger] name[i]) == '.' || is_element_char(name[i], hyphen)
    &&& forall|i: int|
        0 <= i < name.len() && (#[trigger] name[i]) == '.' ==> i > 0 && name[i - 1] != '.'
    &&& forall|i: int|
        0 <= i < name.len() && is_ascii_digit(#[trigger] name[i]) ==> i > 0 && name[i - 1] != '.'
    &&& exists|i: int| 0 <= i < name.len() && #[trigger] name[i] == '.'
}

/// The interface name grammar: a dotted name without hyphens.
pub open spec fn is_interface_name(name: Seq<char>) -> bool {
    is_dotted_name(name, false)
}

/// The error name grammar: a dotted name without hyphens.
pub open spec fn is_error_name(name: Seq<char>) -> bool {
    is_dotted_name(name, false)
}

/// The well-known bus name grammar: a dotted name, with hyphens.
pub open spec fn is_well_known_name(name: Seq<char>) -> bool {
    is_dotted_name(name, true)
}

/// The unique connection name grammar: the name of the bus itself, or a
/// colon and then at most 254 letters, digits, `_`, `-` and dots, with at
/// least one dot and no dot behind another.
#[verifier::opaque]
pub open spec fn is_unique_name(name: Seq<char>) -> bool {
    ||| name == "org.freedesktop.DBus"@
    ||| {
        &&& 1 <= name.len() <= 255
        &&& name[0] == ':'
        &&& forall|i: int|
            1 <= i < name.len() ==> (#[trigger] name[i]) == '.' || is_element_char(name[i], true)
        &&& forall|i: int|
            1 <= i < name.len() && (#[trigger] name[i]) == '.' ==> name[i - 1] != '.'
        &&& exists|i: int| 1 <= i < name.len() && #[trigger] name[i] == '.'
    }
}

/// The bus name grammar: a unique name or a well-known name.
pub open spec fn is_bus_name(name: Seq<char>) -> bool {
    is_unique_name(name) || is_well_known_name(name)
}

/// Whether `zvariant` accepts the text as a type signature.
pub uninterp spec fn is_signature(signature: Seq<char>) -> bool;

/// Runs `zvariant::ObjectPath::try_from` on the text and reports whether it
/// was accepted. Trusted: that the crate accepts exactly the paths of
/// [`is_object_path`].
#[verifier::external_body]
pub(crate) fn check_object_path(path: &str) -> (ok: bool)
    ensures
        ok == is_object_path(path@),
{
    zvariant::ObjectPath::try_from(path).is_ok()
}

/// Runs `zbus_names::MemberName::try_from` on the text and reports whether it
/// was accepted. Trusted: that the crate accepts exactly the names of
/// [`is_member_name`].
#[verifier::external_body]
pub(crate) fn check_member_name(name: &str) -> (ok: bool)
    ensures
        ok == is_member_name(name@),
{
    zbus_names::MemberName::try_from(name).is_ok()
}

/// Runs `zbus_names::InterfaceName::try_from` on the text and reports whether
/// it was accepted. Trusted: that the crate accepts exactly the names of
/// [`is_interface_name`].
#[verifier::external_body]
pub(crate) fn check_interface_name(name: &str) -> (ok: bool)
    ensures
        ok == is_interface_name(name@),
{
    zbus_names::InterfaceName::try_from(name).is_ok()
}

/// Runs `zbus_names::ErrorName::try_from` on the text and reports whether it
/// was accepted. Trusted: that the crate accepts exactly the names of
/// [`is_error_name`].
#[verifier::external_body]
pub(crate) fn check_error_name(name: &str) -> (ok: bool)
    ensures
        ok == is_error_name(name@),
{
    zbus_names::ErrorName::try_from(name).is_ok()
}

/// Runs `zbus_names::BusName::try_from` on the text and reports whether it
/// was accepted. Trusted: that the crate accepts exactly the names of
/// [`is_bus_name`].
#[verifier::external_body]
pub(crate) fn check_bus_name(name: &str) -> (ok: bool)
    ensures
        ok == is_bus_name(name@),
{
    zbus_names::BusName::try_from(name).is_ok()
}

/// Runs `zbus_names::UniqueName::try_from` on the text and reports whether it
/// was accepted. Trusted: that the crate accepts exactly the names of
/// [`is_unique_name`].
#[verifier::external_body]
pub(crate) fn check_unique_name(name: &str) -> (ok: bool)
    ensures
        ok == is_unique_name(name@),
{
    zbus_names::UniqueName::try_from(name).is_ok()
}

/// Runs `zvariant::Signature::try_from` on the text and reports whether it
/// was accepted. Trusted: that the answer depends on the text alone, and
/// that no text of more than 255 bytes is accepted.
#[verifier::external_body]
pub(crate) fn check_signature(signature: &str) -> (ok: bool)
    ensures
        ok == is_signature(signature@),
        ok ==> vstd::utf8::encode_utf8(signature@).len() <= 255,
{
    zvariant::Signature::try_from(signature).is_ok()
}

} // verus!
