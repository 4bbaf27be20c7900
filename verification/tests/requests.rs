use krabcake::krabcake as port;
use krabcake::test_dependencies::{
    client_request, kc_borrow_mut_request, print_stack_of, print_tag_of, ClientRequest,
    VgKrabcakeClientRequest, VgKrabcakeClientRequestData, NOT_UNDER_VALGRIND,
};
use krabcake::tool_base::vg_userreq_tool_base;

const ALL: [VgKrabcakeClientRequest; 12] = [
    VgKrabcakeClientRequest::BorrowMut,
    VgKrabcakeClientRequest::BorrowShr,
    VgKrabcakeClientRequest::AsRaw,
    VgKrabcakeClientRequest::AsBorrowMut,
    VgKrabcakeClientRequest::AsBorrowShr,
    VgKrabcakeClientRequest::RetagFnPrologue,
    VgKrabcakeClientRequest::RetagAssign,
    VgKrabcakeClientRequest::RetagRaw,
    VgKrabcakeClientRequest::IntrinsicsAssume,
    VgKrabcakeClientRequest::PrintTagOf,
    VgKrabcakeClientRequest::PrintStackOf,
    VgKrabcakeClientRequest::KrabcakeRecordOverlapError,
];

#[test]
fn tool_base_of_krabcake() {
    assert_eq!(vg_userreq_tool_base('K' as u32, 'C' as u32), 0x4B43_0000);
}

#[test]
fn tool_base_keeps_only_low_bytes() {
    assert_eq!(vg_userreq_tool_base(0x1234_5678, 0xffff_ff01), 0x7801_0000);
    assert_eq!(vg_userreq_tool_base(0, 0), 0);
    assert_eq!(vg_userreq_tool_base(0xff, 0xff), 0xffff_0000);
}

#[test]
fn borrow_mut_code_printed_in_hex() {
    assert_eq!(format!("{:x}", VgKrabcakeClientRequest::BorrowMut.code()), "4b430000");
}

#[test]
fn codes_follow_the_base_in_order() {
    for (i, r) in ALL.iter().enumerate().take(11) {
        assert_eq!(r.code(), 0x4B43_0000 + i as u32);
    }
    assert_eq!(VgKrabcakeClientRequest::KrabcakeRecordOverlapError.code(), 0x4B43_0100);
}

#[test]
fn codes_are_distinct_and_belong_to_krabcake() {
    for (i, a) in ALL.iter().enumerate() {
        assert_eq!(a.code() & 0xffff_0000, vg_userreq_tool_base('K' as u32, 'C' as u32));
        for (j, b) in ALL.iter().enumerate() {
            assert_eq!(i == j, a.code() == b.code());
        }
    }
}

#[test]
fn port_codes_agree_with_test_set() {
    let pairs = [
        (port::VgKrabcakeClientRequest::BorrowMut, VgKrabcakeClientRequest::BorrowMut),
        (port::VgKrabcakeClientRequest::BorrowShr, VgKrabcakeClientRequest::BorrowShr),
        (port::VgKrabcakeClientRequest::AsRaw, VgKrabcakeClientRequest::AsRaw),
        (port::VgKrabcakeClientRequest::AsBorrowMut, VgKrabcakeClientRequest::AsBorrowMut),
        (port::VgKrabcakeClientRequest::AsBorrowShr, VgKrabcakeClientRequest::AsBorrowShr),
        (port::VgKrabcakeClientRequest::RetagFnPrologue, VgKrabcakeClientRequest::RetagFnPrologue),
        (port::VgKrabcakeClientRequest::RetagAssign, VgKrabcakeClientRequest::RetagAssign),
        (port::VgKrabcakeClientRequest::RetagRaw, VgKrabcakeClientRequest::RetagRaw),
        (
            port::VgKrabcakeClientRequest::KrabcakeRecordOverlapError,
            VgKrabcakeClientRequest::KrabcakeRecordOverlapError,
        ),
    ];
    for (p, t) in pairs.iter() {
        assert_eq!(p.code(), t.code());
    }
}

#[test]
fn client_request_keeps_its_arguments() {
    let req = client_request(7, 8, 9, 10, 11, 12, 13);
    assert_eq!(
        req,
        ClientRequest {
            default: 7,
            data: VgKrabcakeClientRequestData {
                request_code: 8,
                arg1: 9,
                arg2: 10,
                arg3: 11,
                arg4: 12,
                arg5: 13,
            },
        }
    );
}

#[test]
fn print_tag_of_request() {
    let req = print_tag_of(0x1000, 0x2000);
    assert_eq!(req.default, NOT_UNDER_VALGRIND);
    assert_eq!(req.default, 0x90);
    assert_eq!(
        req.data,
        VgKrabcakeClientRequestData {
            request_code: 0x4B43_0009,
            arg1: 0x2000,
            arg2: 0x1000,
            arg3: 0x92,
            arg4: 0x93,
            arg5: 0x94,
        }
    );
}

#[test]
fn print_stack_of_request() {
    let req = print_stack_of(0x1000, 0x2000);
    assert_eq!(req.default, 0x90);
    assert_eq!(
        req.data,
        VgKrabcakeClientRequestData {
            request_code: 0x4B43_000A,
            arg1: 0x2000,
            arg2: 0x1000,
            arg3: 0x92,
            arg4: 0x93,
            arg5: 0x94,
        }
    );
}

#[test]
fn borrow_mut_request_of_test_set() {
    let req = kc_borrow_mut_request(0xdead_0000);
    assert_eq!(req.default, 0x90);
    assert_eq!(
        req.data,
        VgKrabcakeClientRequestData {
            request_code: 0x4B43_0000,
            arg1: 0xdead_0000,
            arg2: 0x91,
            arg3: 0x92,
            arg4: 0x93,
            arg5: 0x94,
        }
    );
}

#[test]
fn borrow_mut_request_of_port_yields_place_outside_valgrind() {
    let req = port::kc_borrow_mut_request(0x7fff_1234);
    assert_eq!(req.default, 0x7fff_1234);
    assert_eq!(
        req.data,
        VgKrabcakeClientRequestData {
            request_code: 0x4B43_0000,
            arg1: 0x7fff_1234,
            arg2: 0x91,
            arg3: 0x92,
            arg4: 0x93,
            arg5: 0x94,
        }
    );
}
