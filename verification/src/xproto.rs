//! The protocol constants this library takes from `x11rb`.
//!
//! Every function here is a thin, unverified call into `x11rb`; its contract
//! records the value the constant has in the protocol definition.

use vstd::prelude::*;
use x11rb::protocol::xproto::{AtomEnum, EventMask, WindowClass};

verus! {

/// The atom that stands for "no atom", also used as the wildcard type.
pub const NONE: u32 = 0;

/// The predefined `PRIMARY` selection atom.
pub const PRIMARY: u32 = 1;

/// The predefined `ATOM` type atom.
pub const ATOM: u32 = 4;

/// The predefined `STRING` target atom.
pub const STRING: u32 = 31;

/// The timestamp that stands for "now" at the server.
pub const CURRENT_TIME: u32 = 0;

/// The depth that stands for "as the parent".
pub const COPY_DEPTH_FROM_PARENT: u8 = 0;

/// The class of a window that shows output and takes input.
pub const INPUT_OUTPUT: u16 = 1;

/// Event mask bit: structure changes of a window.
pub const STRUCTURE_NOTIFY: u32 = 0x2_0000;

/// Event mask bit: property changes of a window.
pub const PROPERTY_CHANGE: u32 = 0x40_0000;

/// `AtomEnum::NONE` as a number. Trusted: the protocol definition gives it the
/// value 0.
#[verifier::external_body]
pub(crate) fn atom_none() -> (atom: u32)
    ensures
        atom == NONE,
{
    u32::from(AtomEnum::NONE)
}

/// `AtomEnum::ANY` as a number. Trusted: the protocol definition gives it the
/// value 0, the same as `NONE`.
#[verifier::external_body]
pub(crate) fn atom_any() -> (atom: u32)
    ensures
        atom == NONE,
{
    u32::from(AtomEnum::ANY)
}

/// `AtomEnum::PRIMARY` as a number. Trusted: the protocol definition gives it
/// the value 1.
#[verifier::external_body]
pub(crate) fn atom_primary() -> (atom: u32)
    ensures
        atom == PRIMARY,
{
    u32::from(AtomEnum::PRIMARY)
}

/// `AtomEnum::ATOM` as a number. Trusted: the protocol definition gives it the
/// value 4.
#[verifier::external_body]
pub(crate) fn atom_atom() -> (atom: u32)
    ensures
        atom == ATOM,
{
    u32::from(AtomEnum::ATOM)
}

/// `AtomEnum::STRING` as a number. Trusted: the protocol definition gives it
/// the value 31.
#[verifier::external_body]
pub(crate) fn atom_string() -> (atom: u32)
    ensures
        atom == STRING,
{
    u32::from(AtomEnum::STRING)
}

/// `x11rb::CURRENT_TIME`. Trusted: the crate defines it as 0.
#[verifier::external_body]
pub(crate) fn current_time() -> (time: u32)
    ensures
        time == CURRENT_TIME,
{
    x11rb::CURRENT_TIME
}

/// `x11rb::COPY_DEPTH_FROM_PARENT`. Trusted: the crate defines it as 0.
#[verifier::external_body]
pub(crate) fn copy_depth_from_parent() -> (depth: u8)
    ensures
        depth == COPY_DEPTH_FROM_PARENT,
{
    x11rb::COPY_DEPTH_FROM_PARENT
}

/// `WindowClass::INPUT_OUTPUT` as a number. Trusted: the protocol definition
/// gives it the value 1.
#[verifier::external_body]
pub(crate) fn class_input_output() -> (class: u16)
    ensures
        class == INPUT_OUTPUT,
{
    u16::from(WindowClass::INPUT_OUTPUT)
}

/// `EventMask::STRUCTURE_NOTIFY` as a number. Trusted: the protocol definition
/// gives it bit 17.
#[verifier::external_body]
pub(crate) fn mask_structure_notify() -> (mask: u32)
    ensures
        mask == STRUCTURE_NOTIFY,
{
    u32::from(EventMask::STRUCTURE_NOTIFY)
}

/// `EventMask::PROPERTY_CHANGE` as a number. Trusted: the protocol definition
/// gives it bit 22.
#[verifier::external_body]
pub(crate) fn mask_property_change() -> (mask: u32)
    ensures
        mask == PROPERTY_CHANGE,
{
    u32::from(EventMask::PROPERTY_CHANGE)
}

} // verus!
