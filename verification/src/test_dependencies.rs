//! What the test programs use to talk to the Krabcake tool: the full set of
//! request codes, the request record, and the requests that print a tag or
//! an item-stack and that announce a `&mut` borrow.

use vstd::prelude::*;
use crate::tool_base::{krabcake_base, is_tool_request, lemma_offset_is_tool_request, vg_userreq_tool_base};

verus! {

/// The client requests that the Krabcake tool understands.
#[derive(Clone, Copy, Debug, PartialEq, Eq, Structural)]
pub enum VgKrabcakeClientRequest {
    BorrowMut,
    BorrowShr,
    AsRaw,
    AsBorrowMut,
    AsBorrowShr,
    RetagFnPrologue,
    RetagAssign,
    RetagRaw,
    IntrinsicsAssume,
    PrintTagOf,
    PrintStackOf,
    KrabcakeRecordOverlapError,
}

impl VgKrabcakeClientRequest {
    /// How far above the tool's base this request's code lies: the requests
    /// are numbered in order from the base, and the overlap error sits 256
    /// above it.
    pub open spec fn offset(self) -> u32 {
        match self {
            VgKrabcakeClientRequest::BorrowMut => 0,
            VgKrabcakeClientRequest::BorrowShr => 1,
            VgKrabcakeClientRequest::AsRaw => 2,
            VgKrabcakeClientRequest::AsBorrowMut => 3,
            VgKrabcakeClientRequest::AsBorrowShr => 4,
            VgKrabcakeClientRequest::RetagFnPrologue => 5,
            VgKrabcakeClientRequest::RetagAssign => 6,
            VgKrabcakeClientRequest::RetagRaw => 7,
            VgKrabcakeClientRequest::IntrinsicsAssume => 8,
            VgKrabcakeClientRequest::PrintTagOf => 9,
            VgKrabcakeClientRequest::PrintStackOf => 10,
            VgKrabcakeClientRequest::KrabcakeRecordOverlapError => 256,
        }
    }

    /// The request's code: the tool's base plus the request's offset.
    pub open spec fn spec_code(self) -> int {
        krabcake_base() + self.offset()
    }

    /// The code that a client request carries for this request.
    pub fn code(&self) -> (c: u32)
        ensures
            c == self.spec_code(),
    {
        let base = vg_userreq_tool_base('K' as u32, 'C' as u32);
        let offset: u32 = match self {
            VgKrabcakeClientRequest::BorrowMut => 0,
            VgKrabcakeClientRequest::BorrowShr => 1,
            VgKrabcakeClientRequest::AsRaw => 2,
            VgKrabcakeClientRequest::AsBorrowMut => 3,
            VgKrabcakeClientRequest::AsBorrowShr => 4,
            VgKrabcakeClientRequest::RetagFnPrologue => 5,
            VgKrabcakeClientRequest::RetagAssign => 6,
            VgKrabcakeClientRequest::RetagRaw => 7,
            VgKrabcakeClientRequest::IntrinsicsAssume => 8,
            VgKrabcakeClientRequest::PrintTagOf => 9,
            VgKrabcakeClientRequest::PrintStackOf => 10,
            VgKrabcakeClientRequest::KrabcakeRecordOverlapError => 256,
        };
        base + offset
    }
}

/// Distinct requests carry distinct codes.
pub proof fn lemma_codes_distinct(r1: VgKrabcakeClientRequest, r2: VgKrabcakeClientRequest)
    requires
        r1 != r2,
    ensures
        r1.spec_code() != r2.spec_code(),
{
}

/// Every request's code is one of the Krabcake tool's requests, as Valgrind
/// tells a tool's requests apart from its own and from other tools'.
pub proof fn lemma_codes_belong_to_krabcake(r: VgKrabcakeClientRequest)
    ensures
        r.spec_code() <= u32::MAX,
        is_tool_request(75, 67, r.spec_code() as u32),
{
    lemma_offset_is_tool_request(75, 67, r.offset());
}

/// The record whose address a client request hands to Valgrind: the code,
/// then five arguments. The first argument is an address.
#[derive(Clone, Copy, Debug, PartialEq, Eq, Structural)]
pub struct VgKrabcakeClientRequestData {
    pub request_code: u64,
    pub arg1: u64,
    pub arg2: u64,
    pub arg3: u64,
    pub arg4: u64,
    pub arg5: u64,
}

/// A client request ready to be issued: the record, and the value that the
/// request yields when the program does not run under Valgrind.
#[derive(Clone, Copy, Debug, PartialEq, Eq, Structural)]
pub struct ClientRequest {
    pub default: u64,
    pub data: VgKrabcakeClientRequestData,
}

/// What a request yields when the program runs outside Valgrind.
pub const NOT_UNDER_VALGRIND: u64 = 0x90;

/// Assembles a client request from its default result, its code and its
/// five arguments.
pub fn client_request(default: u64, request_code: u64, arg1: u64, arg2: u64, arg3: u64, arg4: u64, arg5: u64) -> (req: ClientRequest)
    ensures
        req.default == default,
        req.data.request_code == request_code,
        req.data.arg1 == arg1,
        req.data.arg2 == arg2,
        req.data.arg3 == arg3,
        req.data.arg4 == arg4,
        req.data.arg5 == arg5,
{
    ClientRequest {
        default,
        data: VgKrabcakeClientRequestData { request_code, arg1, arg2, arg3, arg4, arg5 },
    }
}

/// The request that asks the tool to print what it knows of a pointer: the
/// address of the slot that holds the pointer goes first, the address of
/// the pointer's name (a NUL-terminated string) second.
pub open spec fn print_request(kind: VgKrabcakeClientRequest, name: u64, stash: u64) -> ClientRequest {
    ClientRequest {
        default: 0x90,
        data: VgKrabcakeClientRequestData {
            request_code: kind.spec_code() as u64,
            arg1: stash,
            arg2: name,
            arg3: 0x92,
            arg4: 0x93,
            arg5: 0x94,
        },
    }
}

/// A printing request carries the slot's address unchanged as its first
/// argument and the name's address unchanged as its second, for every
/// 64-bit address; its code is that of the printing request asked for, and
/// outside Valgrind it yields `0x90`.
pub proof fn lemma_print_request_carries_addresses(kind: VgKrabcakeClientRequest, name: u64, stash: u64)
    ensures
        print_request(kind, name, stash).default == 0x90,
        print_request(kind, name, stash).data.request_code == kind.spec_code(),
        print_request(kind, name, stash).data.arg1 == stash,
        print_request(kind, name, stash).data.arg2 == name,
        print_request(kind, name, stash).data.arg3 == 0x92,
        print_request(kind, name, stash).data.arg4 == 0x93,
        print_request(kind, name, stash).data.arg5 == 0x94,
{
    lemma_codes_belong_to_krabcake(kind);
}

/// Two printing requests for the same slot and name differ in their code
/// alone: the tag and the item-stack are asked of the same pointer, and two
/// different slots never give the same request.
pub proof fn lemma_print_requests_differ_only_in_code(name: u64, stash1: u64, stash2: u64)
    ensures
        print_request(VgKrabcakeClientRequest::PrintTagOf, name, stash1).data.request_code
            != print_request(VgKrabcakeClientRequest::PrintStackOf, name, stash1).data.request_code,
        print_request(VgKrabcakeClientRequest::PrintTagOf, name, stash1).data.arg1
            == print_request(VgKrabcakeClientRequest::PrintStackOf, name, stash1).data.arg1,
        stash1 != stash2 ==> print_request(VgKrabcakeClientRequest::PrintTagOf, name, stash1).data.arg1
            != print_request(VgKrabcakeClientRequest::PrintTagOf, name, stash2).data.arg1,
        stash1 != stash2 ==> print_request(VgKrabcakeClientRequest::PrintStackOf, name, stash1).data.arg1
            != print_request(VgKrabcakeClientRequest::PrintStackOf, name, stash2).data.arg1,
{
    lemma_print_request_carries_addresses(VgKrabcakeClientRequest::PrintTagOf, name, stash1);
    lemma_print_request_carries_addresses(VgKrabcakeClientRequest::PrintStackOf, name, stash1);
    lemma_print_request_carries_addresses(VgKrabcakeClientRequest::PrintTagOf, name, stash2);
    lemma_print_request_carries_addresses(VgKrabcakeClientRequest::PrintStackOf, name, stash2);
}

/// The request that prints the tag of the pointer held at `stash`, under the
/// name found at `name`.
pub fn print_tag_of(name: u64, stash: u64) -> (req: ClientRequest)
    ensures
        req == print_request(VgKrabcakeClientRequest::PrintTagOf, name, stash),
        req.default == 0x90,
        req.data.request_code == VgKrabcakeClientRequest::PrintTagOf.spec_code(),
        req.data.arg1 == stash,
        req.data.arg2 == name,
        req.data.arg3 == 0x92,
        req.data.arg4 == 0x93,
        req.data.arg5 == 0x94,
{
    let code = VgKrabcakeClientRequest::PrintTagOf.code();
    client_request(NOT_UNDER_VALGRIND, code as u64, stash, name, 0x92, 0x93, 0x94)
}

/// The request that prints the item-stack of the location that the pointer
/// held at `stash` points to, under the name found at `name`.
pub fn print_stack_of(name: u64, stash: u64) -> (req: ClientRequest)
    ensures
        req == print_request(VgKrabcakeClientRequest::PrintStackOf, name, stash),
        req.default == 0x90,
        req.data.request_code == VgKrabcakeClientRequest::PrintStackOf.spec_code(),
        req.data.arg1 == stash,
        req.data.arg2 == name,
        req.data.arg3 == 0x92,
        req.data.arg4 == 0x93,
        req.data.arg5 == 0x94,
{
    let code = VgKrabcakeClientRequest::PrintStackOf.code();
    client_request(NOT_UNDER_VALGRIND, code as u64, stash, name, 0x92, 0x93, 0x94)
}

/// The request that announces a `&mut` borrow: `stash` is the address of
/// the slot that holds the new reference, which the tool tags in place.
pub fn kc_borrow_mut_request(stash: u64) -> (req: ClientRequest)
    ensures
        req.default == 0x90,
        req.data.request_code == VgKrabcakeClientRequest::BorrowMut.spec_code(),
        req.data.arg1 == stash,
        req.data.arg2 == 0x91,
        req.data.arg3 == 0x92,
        req.data.arg4 == 0x93,
        req.data.arg5 == 0x94,
{
    let code = VgKrabcakeClientRequest::BorrowMut.code();
    client_request(NOT_UNDER_VALGRIND, code as u64, stash, 0x91, 0x92, 0x93, 0x94)
}

} // verus!
