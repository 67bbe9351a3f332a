//! Packed firmware versions.
//!
//! A version is carried in the low three bytes of a `u32`: the major number
//! in bits 16 to 23, the minor number in bits 8 to 15 and the patch number in
//! bits 0 to 7. The top byte carries nothing and is never looked at when a
//! version is taken apart.

use vstd::prelude::*;
use vstd::string::*;
use crate::usbdm::decimal::{decimal, push_decimal};

verus! {

/// The major number of a packed version.
pub open spec fn major_of(v: u32) -> nat {
    (v as nat / 0x1_0000) % 0x100
}

/// The minor number of a packed version.
pub open spec fn minor_of(v: u32) -> nat {
    (v as nat / 0x100) % 0x100
}

/// The patch number of a packed version.
pub open spec fn patch_of(v: u32) -> nat {
    v as nat % 0x100
}

/// The dotted text of a packed version: the three numbers in decimal,
/// major first, with a full stop between neighbours.
pub open spec fn version_text(v: u32) -> Seq<char> {
    decimal(major_of(v)) + seq!['.'] + decimal(minor_of(v)) + seq!['.'] + decimal(patch_of(v))
}

/// Reads the major number out of a packed version.
pub fn version_major(v: u32) -> (n: u8)
    ensures
        n as nat == major_of(v),
{
    assert((v & 0x00FF_0000) >> 16 == (v / 0x1_0000) % 0x100) by (bit_vector);
    ((v & 0x00FF_0000) >> 16) as u8
}

/// Reads the minor number out of a packed version.
pub fn version_minor(v: u32) -> (n: u8)
    ensures
        n as nat == minor_of(v),
{
    assert((v & 0x0000_FF00) >> 8 == (v / 0x100) % 0x100) by (bit_vector);
    ((v & 0x0000_FF00) >> 8) as u8
}

/// Reads the patch number out of a packed version.
pub fn version_patch(v: u32) -> (n: u8)
    ensures
        n as nat == patch_of(v),
{
    assert(v & 0x0000_00FF == v % 0x100) by (bit_vector);
    (v & 0x0000_00FF) as u8
}

/// Renders a packed version as `major.minor.patch`.
pub fn format_version(v: u32) -> (text: String)
    ensures
        text@ == version_text(v),
{
    let mut text = String::new();
    push_decimal(&mut text, version_major(v));
    text.append(".");
    push_decimal(&mut text, version_minor(v));
    text.append(".");
    push_decimal(&mut text, version_patch(v));
    proof {
        reveal_strlit(".");
        assert("."@ =~= seq!['.']);
        assert(text@ =~= version_text(v));
    }
    text
}

} // verus!

verus! {

/// Among versions whose top byte is clear, the packed numbers are ordered as
/// the versions are: by major number, then minor, then patch.
pub proof fn lemma_packed_order(v: u32, w: u32)
    requires
        v <= 0xFF_FFFF,
        w <= 0xFF_FFFF,
    ensures
        v < w <==> (major_of(v) < major_of(w) || (major_of(v) == major_of(w) && (minor_of(v)
            < minor_of(w) || (minor_of(v) == minor_of(w) && patch_of(v) < patch_of(w))))),
        v == w <==> (major_of(v) == major_of(w) && minor_of(v) == minor_of(w) && patch_of(v)
            == patch_of(w)),
{
}

} // verus!
