use vstd::prelude::*;

verus! {

/// The base of a tool's request codes, as Valgrind's `VG_USERREQ_TOOL_BASE`
/// lays it out: the low byte of `a` in bits 24..32, the low byte of `b` in
/// bits 16..24, and zero below.
pub open spec fn tool_base(a: u32, b: u32) -> int {
    (a % 256) * 0x100_0000 + (b % 256) * 0x1_0000
}

/// Valgrind's `VG_IS_TOOL_USERREQ`: `code` belongs to the tool named by the
/// two letters `a` and `b` when its upper half is that tool's base.
pub open spec fn is_tool_request(a: u32, b: u32, code: u32) -> bool {
    code - code % 0x1_0000 == tool_base(a, b)
}

/// The base of the Krabcake tool's codes: the letters `K` and `C`.
pub open spec fn krabcake_base() -> int {
    tool_base(75, 67)
}

/// The Krabcake tool's codes start at `0x4B43_0000`.
pub proof fn lemma_krabcake_base_value()
    ensures
        krabcake_base() == 0x4B43_0000,
{
}

/// Computes the base of the request codes of the tool named by `a` and `b`.
pub fn vg_userreq_tool_base(a: u32, b: u32) -> (base: u32)
    ensures
        base == tool_base(a, b),
        base % 0x1_0000 == 0,
{
    let base = ((a & 0xff) << 24) | ((b & 0xff) << 16);
    assert(((a & 0xff) << 24) | ((b & 0xff) << 16) == (a % 256) * 0x100_0000 + (b % 256) * 0x1_0000)
        by (bit_vector);
    base
}

/// Two tools whose names differ in a letter get bases that differ.
pub proof fn lemma_tool_base_injective(a1: u32, b1: u32, a2: u32, b2: u32)
    requires
        tool_base(a1, b1) == tool_base(a2, b2),
    ensures
        a1 % 256 == a2 % 256,
        b1 % 256 == b2 % 256,
{
}

/// Every code from a tool's base up to 0xffff above it is one of that tool's
/// requests.
pub proof fn lemma_offset_is_tool_request(a: u32, b: u32, offset: u32)
    requires
        offset < 0x1_0000,
    ensures
        tool_base(a, b) + offset <= u32::MAX,
        is_tool_request(a, b, (tool_base(a, b) + offset) as u32),
{
}

} // verus!
