use virt::connect::Connect;
use virt::error::{Error, ErrorKind, LastError};
use virt::interface::{
    Call, Interface, Outcome, Reply, UUID_BUFLEN, VIR_INTERFACE_XML_INACTIVE,
};
use virt::marshal::{contains_nul, decode_c_bytes, to_c_string};

fn conn() -> Connect {
    Connect::from_ptr(0x1000).unwrap()
}

fn interface(h: usize) -> Interface {
    let call = Interface::lookup_by_id(&conn(), 1);
    match call.complete(Reply::Handle(h), None).unwrap() {
        Outcome::Interface(i) => i,
        other => panic!("unexpected outcome {:?}", other),
    }
}

fn last(code: i32, message: &[u8]) -> Option<LastError> {
    Some(LastError { code, domain: 19, message: message.to_vec() })
}

fn text(o: Outcome) -> String {
    match o {
        Outcome::Text(s) => s,
        other => panic!("unexpected outcome {:?}", other),
    }
}

fn expect_err(r: Result<Outcome, Error>) -> Error {
    match r {
        Err(e) => e,
        Ok(o) => panic!("unexpected success {:?}", o),
    }
}

#[test]
fn lookup_of_missing_id_is_not_found() {
    let call = Interface::lookup_by_id(&conn(), 9999);
    match &call {
        Call::LookupById { conn, id } => {
            assert_eq!(*conn, 0x1000);
            assert_eq!(*id, 9999);
        }
        other => panic!("unexpected call {:?}", other),
    }
    let e = expect_err(call.complete(Reply::Handle(0), last(49, b"Interface not found")));
    assert_eq!(e.kind, ErrorKind::NotFound);
    assert_eq!(e.code, 49);
    assert_eq!(e.domain, 19);
    assert_eq!(e.message, "Interface not found");
}

#[test]
fn lookup_yields_live_handle() {
    let i = interface(0x2000);
    assert_eq!(i.as_ptr(), 0x2000);
    assert!(i.is_valid());
}

#[test]
fn lookup_by_name_passes_terminated_name() {
    match Interface::lookup_by_name(&conn(), "br0").unwrap() {
        Call::LookupByName { conn, name } => {
            assert_eq!(conn, 0x1000);
            assert_eq!(name, b"br0\0".to_vec());
        }
        other => panic!("unexpected call {:?}", other),
    }
}

#[test]
fn name_looked_up_is_name_read_back() {
    let name = "bond0.100";
    let sent = match Interface::lookup_by_name(&conn(), name).unwrap() {
        Call::LookupByName { name, .. } => name,
        other => panic!("unexpected call {:?}", other),
    };
    let i = interface(0x2000);
    let call = i.get_name().unwrap();
    let stored = sent[..sent.len() - 1].to_vec();
    let back = text(call.complete(Reply::Text(Some(stored)), None).unwrap());
    assert_eq!(back, name);
}

#[test]
fn embedded_nul_is_refused_everywhere() {
    let c = conn();
    let bad = "eth\u{0}0";
    for r in [
        Interface::lookup_by_name(&c, bad),
        Interface::lookup_by_mac_string(&c, bad),
        Interface::lookup_by_uuid_string(&c, bad),
        Interface::define_xml(&c, bad, 0),
    ] {
        match r {
            Err(e) => {
                assert_eq!(e.kind, ErrorKind::InvalidArgument);
                assert_eq!(e.code, 0);
            }
            Ok(call) => panic!("issued {:?}", call),
        }
    }
}

#[test]
fn mac_and_uuid_lookups_marshal_their_text() {
    let c = conn();
    match Interface::lookup_by_mac_string(&c, "52:54:00:12:34:56").unwrap() {
        Call::LookupByMacString { mac, .. } => assert_eq!(mac, b"52:54:00:12:34:56\0".to_vec()),
        other => panic!("unexpected call {:?}", other),
    }
    let u = "5b1c7e4a-8d3f-4e2b-9a61-0c2d3e4f5a6b";
    match Interface::lookup_by_uuid_string(&c, u).unwrap() {
        Call::LookupByUuidString { uuid, .. } => {
            assert_eq!(uuid.len(), 37);
            assert_eq!(&uuid[..36], u.as_bytes());
        }
        other => panic!("unexpected call {:?}", other),
    }
}

#[test]
fn is_active_is_strictly_boolean() {
    let i = interface(0x2000);
    let call = i.is_active().unwrap();
    assert!(call.accepts(&Reply::Status(0)));
    assert!(!call.accepts(&Reply::Handle(0)));
    match call.complete(Reply::Status(0), None).unwrap() {
        Outcome::Active(a) => assert!(!a),
        other => panic!("unexpected outcome {:?}", other),
    }
    match call.complete(Reply::Status(1), None).unwrap() {
        Outcome::Active(a) => assert!(a),
        other => panic!("unexpected outcome {:?}", other),
    }
    let e = expect_err(call.complete(Reply::Status(-1), None));
    assert_eq!(e.kind, ErrorKind::OperationFailed);
    assert_eq!(e.code, 0);
    assert_eq!(e.message, "");
}

#[test]
fn defined_xml_is_passed_verbatim_and_read_back() {
    let xml = "<interface type='bridge' name='br1'><start mode='onboot'/></interface>";
    let call = Interface::define_xml(&conn(), xml, 0).unwrap();
    match &call {
        Call::DefineXml { xml: sent, flags, .. } => {
            assert_eq!(*flags, 0);
            assert_eq!(&sent[..sent.len() - 1], xml.as_bytes());
            assert_eq!(sent[sent.len() - 1], 0);
        }
        other => panic!("unexpected call {:?}", other),
    }
    let i = match call.complete(Reply::Handle(0x3000), None).unwrap() {
        Outcome::Interface(i) => i,
        other => panic!("unexpected outcome {:?}", other),
    };
    let desc = i.get_xml_desc(VIR_INTERFACE_XML_INACTIVE).unwrap();
    match &desc {
        Call::GetXmlDesc { iface, flags } => {
            assert_eq!(*iface, 0x3000);
            assert_eq!(*flags, 1);
        }
        other => panic!("unexpected call {:?}", other),
    }
    let back = text(desc.complete(Reply::Text(Some(xml.as_bytes().to_vec())), None).unwrap());
    assert_eq!(back, xml);
}

#[test]
fn define_failure_is_operation_failed() {
    let call = Interface::define_xml(&conn(), "<interface/>", 0).unwrap();
    let e = expect_err(call.complete(Reply::Handle(0), last(27, b"XML error")));
    assert_eq!(e.kind, ErrorKind::OperationFailed);
    assert_eq!(e.code, 27);
}

#[test]
fn destroy_of_inactive_interface_fails() {
    let i = interface(0x2000);
    let call = i.destroy().unwrap();
    let e = expect_err(call.complete(Reply::Status(-1), last(55, b"interface is not running")));
    assert_eq!(e.kind, ErrorKind::OperationFailed);
    assert_eq!(e.message, "interface is not running");
}

#[test]
fn uuid_string_is_decoded_from_fixed_buffer() {
    let i = interface(0x2000);
    let call = i.get_uuid_string().unwrap();
    let u = "5b1c7e4a-8d3f-4e2b-9a61-0c2d3e4f5a6b";
    let mut buf = [0u8; UUID_BUFLEN];
    buf[..36].copy_from_slice(u.as_bytes());
    let s = text(call.complete(Reply::Uuid(0, buf), None).unwrap());
    assert_eq!(s.len(), 36);
    assert_eq!(s.matches('-').count(), 4);
    assert_eq!(s, u);
    let e = expect_err(call.complete(Reply::Uuid(-1, [0u8; UUID_BUFLEN]), None));
    assert_eq!(e.kind, ErrorKind::OperationFailed);
}

#[test]
fn create_on_defined_interface_then_active() {
    let define = Interface::define_xml(&conn(), "<interface type='ethernet' name='eth1'/>", 0).unwrap();
    let i = match define.complete(Reply::Handle(0x4000), None).unwrap() {
        Outcome::Interface(i) => i,
        other => panic!("unexpected outcome {:?}", other),
    };
    let create = i.create(0).unwrap();
    assert!(matches!(create.complete(Reply::Status(0), None).unwrap(), Outcome::Done));
    match i.is_active().unwrap().complete(Reply::Status(1), None).unwrap() {
        Outcome::Active(a) => assert!(a),
        other => panic!("unexpected outcome {:?}", other),
    }
}

#[test]
fn null_text_is_an_error() {
    let i = interface(0x2000);
    for call in [i.get_name().unwrap(), i.get_mac_string().unwrap(), i.get_xml_desc(0).unwrap()] {
        let e = expect_err(call.complete(Reply::Text(None), last(1, b"internal error")));
        assert_eq!(e.kind, ErrorKind::OperationFailed);
        assert_eq!(e.code, 1);
    }
}

#[test]
fn get_connect_wraps_connection() {
    let i = interface(0x2000);
    let call = i.get_connect().unwrap();
    match call.complete(Reply::Handle(0x1000), None).unwrap() {
        Outcome::Connect(c) => assert_eq!(c.as_ptr(), 0x1000),
        other => panic!("unexpected outcome {:?}", other),
    }
    let e = expect_err(call.complete(Reply::Handle(0), None));
    assert_eq!(e.kind, ErrorKind::OperationFailed);
}

#[test]
fn freed_handle_refuses_every_operation() {
    let mut i = interface(0x2000);
    let call = i.free().unwrap();
    match call {
        Call::Free { iface } => assert_eq!(iface, 0x2000),
        other => panic!("unexpected call {:?}", other),
    }
    i.complete_free(Reply::Status(0), None).unwrap();
    assert!(!i.is_valid());
    assert_eq!(i.as_ptr(), 0x2000);
    for r in [
        i.get_connect(),
        i.get_name(),
        i.get_uuid_string(),
        i.get_mac_string(),
        i.get_xml_desc(0),
        i.create(0),
        i.destroy(),
        i.undefine(),
        i.free(),
        i.is_active(),
    ] {
        match r {
            Err(e) => assert_eq!(e.kind, ErrorKind::InvalidHandle),
            Ok(call) => panic!("issued {:?}", call),
        }
    }
}

#[test]
fn failed_free_keeps_handle_live() {
    let mut i = interface(0x2000);
    let e = i.complete_free(Reply::Status(-1), last(48, b"invalid interface pointer")).unwrap_err();
    assert_eq!(e.kind, ErrorKind::OperationFailed);
    assert_eq!(e.code, 48);
    assert!(i.is_valid());
}

#[test]
fn undefine_succeeds_on_zero_status() {
    let i = interface(0x2000);
    let call = i.undefine().unwrap();
    assert!(matches!(call.complete(Reply::Status(0), None).unwrap(), Outcome::Done));
}

#[test]
fn invalid_utf8_is_decoded_lossily() {
    assert_eq!(decode_c_bytes(&[b'a', 0xff, b'b', 0, b'c']), "a\u{fffd}b");
    let e = expect_err(
        Interface::lookup_by_id(&conn(), 7).complete(Reply::Handle(0), last(49, &[0xc3, 0x28])),
    );
    assert_eq!(e.message, "\u{fffd}(");
}

#[test]
fn decoding_stops_at_terminator() {
    assert_eq!(decode_c_bytes(b"eth0\0garbage"), "eth0");
    assert_eq!(decode_c_bytes(b"no terminator"), "no terminator");
    assert_eq!(decode_c_bytes(b""), "");
    assert_eq!(decode_c_bytes(b"\0"), "");
}

#[test]
fn encoding_appends_terminator_and_refuses_nul() {
    assert_eq!(to_c_string("vlan10"), Some(b"vlan10\0".to_vec()));
    assert_eq!(to_c_string(""), Some(vec![0u8]));
    assert_eq!(to_c_string("a\u{0}"), None);
    assert!(contains_nul(&[1, 0, 2]));
    assert!(!contains_nul(&[1, 2]));
}

#[test]
fn null_connection_is_not_wrapped() {
    assert!(Connect::from_ptr(0).is_none());
    assert_eq!(Connect::from_ptr(7).unwrap().as_ptr(), 7);
}
