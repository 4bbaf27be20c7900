//! The request codes as the stacked-borrows port knows them: the tests' set
//! without the intrinsic and the two printing requests, and the request
//! that port issues for a `&mut` borrow.

use vstd::prelude::*;
use crate::tool_base::{krabcake_base, vg_userreq_tool_base};
use crate::test_dependencies;
use crate::test_dependencies::{client_request, ClientRequest};

verus! {

/// The client requests of the stacked-borrows port.
#[derive(Clone, Copy, Debug, PartialEq, Eq, Structural)]
pub enum VgKrabcakeClientRequest {
    BorrowMut,
    BorrowShr,
    AsRaw,
    AsBorrowMut,
    AsBorrowShr,
    RetagFnPrologue,
    RetagAssign,
    RetagRaw,
    KrabcakeRecordOverlapError,
}

impl VgKrabcakeClientRequest {
    /// How far above the tool's base this request's code lies.
    pub open spec fn offset(self) -> u32 {
        match self {
            VgKrabcakeClientRequest::BorrowMut => 0,
            VgKrabcakeClientRequest::BorrowShr => 1,
            VgKrabcakeClientRequest::AsRaw => 2,
            VgKrabcakeClientRequest::AsBorrowMut => 3,
            VgKrabcakeClientRequest::AsBorrowShr => 4,
            VgKrabcakeClientRequest::RetagFnPrologue => 5,
            VgKrabcakeClientRequest::RetagAssign => 6,
            VgKrabcakeClientRequest::RetagRaw => 7,
            VgKrabcakeClientRequest::KrabcakeRecordOverlapError => 256,
        }
    }

    /// The request's code: the tool's base plus the request's offset.
    pub open spec fn spec_code(self) -> int {
        krabcake_base() + self.offset()
    }

    /// The request of the same name in the tests' set.
    pub open spec fn in_test_set(self) -> test_dependencies::VgKrabcakeClientRequest {
        match self {
            VgKrabcakeClientRequest::BorrowMut => test_dependencies::VgKrabcakeClientRequest::BorrowMut,
            VgKrabcakeClientRequest::BorrowShr => test_dependencies::VgKrabcakeClientRequest::BorrowShr,
            VgKrabcakeClientRequest::AsRaw => test_dependencies::VgKrabcakeClientRequest::AsRaw,
            VgKrabcakeClientRequest::AsBorrowMut => test_dependencies::VgKrabcakeClientRequest::AsBorrowMut,
            VgKrabcakeClientRequest::AsBorrowShr => test_dependencies::VgKrabcakeClientRequest::AsBorrowShr,
            VgKrabcakeClientRequest::RetagFnPrologue => test_dependencies::VgKrabcakeClientRequest::RetagFnPrologue,
            VgKrabcakeClientRequest::RetagAssign => test_dependencies::VgKrabcakeClientRequest::RetagAssign,
            VgKrabcakeClientRequest::RetagRaw => test_dependencies::VgKrabcakeClientRequest::RetagRaw,
            VgKrabcakeClientRequest::KrabcakeRecordOverlapError => test_dependencies::VgKrabcakeClientRequest::KrabcakeRecordOverlapError,
        }
    }

    /// The code that a client request carries for this request.
    pub fn code(&self) -> (c: u32)
        ensures
            c == self.spec_code(),
    {
        let base = vg_userreq_tool_base('K' as u32, 'C' as u32);
        let offset: u32 = match self {
            VgKrabcakeClientRequest::BorrowMut => 0,
            VgKrabcakeClientRequest::BorrowShr => 1,
            VgKrabcakeClientRequest::AsRaw => 2,
            VgKrabcakeClientRequest::AsBorrowMut => 3,
            VgKrabcakeClientRequest::AsBorrowShr => 4,
            VgKrabcakeClientRequest::RetagFnPrologue => 5,
            VgKrabcakeClientRequest::RetagAssign => 6,
            VgKrabcakeClientRequest::RetagRaw => 7,
            VgKrabcakeClientRequest::KrabcakeRecordOverlapError => 256,
        };
        base + offset
    }
}

/// Both sides of the protocol agree: each request the port knows carries
/// the same code as the request of the same name in the tests' set.
pub proof fn lemma_codes_agree_with_test_set(r: VgKrabcakeClientRequest)
    ensures
        r.spec_code() == r.in_test_set().spec_code(),
{
}

/// Distinct requests carry distinct codes.
pub proof fn lemma_codes_distinct(r1: VgKrabcakeClientRequest, r2: VgKrabcakeClientRequest)
    requires
        r1 != r2,
    ensures
        r1.spec_code() != r2.spec_code(),
{
}

/// The request that the port issues for a `&mut` borrow of the location at
/// `place`: the address goes first, and it is also what the request yields
/// outside Valgrind, so that the borrow then points where it did.
pub fn kc_borrow_mut_request(place: u64) -> (req: ClientRequest)
    ensures
        req.default == place,
        req.data.request_code == VgKrabcakeClientRequest::BorrowMut.spec_code(),
        req.data.arg1 == place,
        req.data.arg2 == 0x91,
        req.data.arg3 == 0x92,
        req.data.arg4 == 0x93,
        req.data.arg5 == 0x94,
{
    let code = VgKrabcakeClientRequest::BorrowMut.code();
    client_request(place, code as u64, place, 0x91, 0x92, 0x93, 0x94)
}

} // verus!
