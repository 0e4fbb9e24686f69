//! Host network interfaces (bridges, bonds, VLANs) of a hypervisor
//! connection.
//!
//! Each operation is split at the foreign boundary. The operation itself
//! checks and marshals its arguments into a [`Call`]; whoever holds the
//! foreign library performs that call and hands its raw [`Reply`], with the
//! last-error state read right after it, to [`Call::complete`], which detects
//! the failure sentinel and builds the result.
use crate::connect::Connect;
use crate::error::{Error, ErrorKind, LastError};
use crate::marshal::{
    decode_c_bytes, decoded, has_nul, lemma_text_round_trip, lemma_until_nul_of_nul_free, terminated, to_c_string, until_nul,
};
use vstd::prelude::*;
use vstd::utf8::encode_utf8;

verus! {

/// The foreign interface object. It lives in the foreign library's memory and
/// is only ever addressed through a handle, never read.
#[allow(non_camel_case_types)]
pub struct virInterface {}

/// Flags of `get_xml_desc`.
pub type InterfaceXMLFlags = libc::c_uint;

/// Describe the persistent definition rather than the live state.
pub const VIR_INTERFACE_XML_INACTIVE: InterfaceXMLFlags = 1;

/// Size of the buffer the UUID is written into: 36 characters and a NUL.
pub const UUID_BUFLEN: usize = 37;

/// A foreign entry point with its marshalled arguments. Handles are the raw
/// foreign handles; strings are NUL-terminated.
#[derive(Debug)]
pub enum Call {
    LookupById { conn: usize, id: i32 },
    LookupByName { conn: usize, name: Vec<u8> },
    LookupByMacString { conn: usize, mac: Vec<u8> },
    LookupByUuidString { conn: usize, uuid: Vec<u8> },
    DefineXml { conn: usize, xml: Vec<u8>, flags: u32 },
    GetConnect { iface: usize },
    GetName { iface: usize },
    GetMacString { iface: usize },
    GetUuidString { iface: usize },
    GetXmlDesc { iface: usize, flags: u32 },
    Create { iface: usize, flags: u32 },
    Destroy { iface: usize },
    Undefine { iface: usize },
    Free { iface: usize },
    IsActive { iface: usize },
}

/// A [`Call`] with its strings as byte sequences.
pub ghost enum CallView {
    LookupById { conn: usize, id: i32 },
    LookupByName { conn: usize, name: Seq<u8> },
    LookupByMacString { conn: usize, mac: Seq<u8> },
    LookupByUuidString { conn: usize, uuid: Seq<u8> },
    DefineXml { conn: usize, xml: Seq<u8>, flags: u32 },
    GetConnect { iface: usize },
    GetName { iface: usize },
    GetMacString { iface: usize },
    GetUuidString { iface: usize },
    GetXmlDesc { iface: usize, flags: u32 },
    Create { iface: usize, flags: u32 },
    Destroy { iface: usize },
    Undefine { iface: usize },
    Free { iface: usize },
    IsActive { iface: usize },
}

impl View for Call {
    type V = CallView;

    open spec fn view(&self) -> CallView {
        match self {
            Call::LookupById { conn, id } => CallView::LookupById { conn: *conn, id: *id },
            Call::LookupByName { conn, name } => CallView::LookupByName { conn: *conn, name: name@ },
            Call::LookupByMacString { conn, mac } => CallView::LookupByMacString {
                conn: *conn,
                mac: mac@,
            },
            Call::LookupByUuidString { conn, uuid } => CallView::LookupByUuidString {
                conn: *conn,
                uuid: uuid@,
            },
            Call::DefineXml { conn, xml, flags } => CallView::DefineXml {
                conn: *conn,
                xml: xml@,
                flags: *flags,
            },
            Call::GetConnect { iface } => CallView::GetConnect { iface: *iface },
            Call::GetName { iface } => CallView::GetName { iface: *iface },
            Call::GetMacString { iface } => CallView::GetMacString { iface: *iface },
            Call::GetUuidString { iface } => CallView::GetUuidString { iface: *iface },
            Call::GetXmlDesc { iface, flags } => CallView::GetXmlDesc {
                iface: *iface,
                flags: *flags,
            },
            Call::Create { iface, flags } => CallView::Create { iface: *iface, flags: *flags },
            Call::Destroy { iface } => CallView::Destroy { iface: *iface },
            Call::Undefine { iface } => CallView::Undefine { iface: *iface },
            Call::Free { iface } => CallView::Free { iface: *iface },
            Call::IsActive { iface } => CallView::IsActive { iface: *iface },
        }
    }
}

/// The raw result of a foreign entry point.
#[derive(Debug)]
pub enum Reply {
    /// A handle; 0 is the null handle.
    Handle(usize),
    /// A status; negative means failure.
    Status(i32),
    /// A borrowed string, copied out up to its terminator; `None` for a null
    /// pointer.
    Text(Option<Vec<u8>>),
    /// The status of a UUID query and the buffer it wrote into.
    Uuid(i32, [u8; UUID_BUFLEN]),
}

/// A [`Reply`] with its bytes as sequences.
pub ghost enum ReplyView {
    Handle(usize),
    Status(i32),
    Text(Option<Seq<u8>>),
    Uuid(i32, Seq<u8>),
}

impl View for Reply {
    type V = ReplyView;

    open spec fn view(&self) -> ReplyView {
        match self {
            Reply::Handle(h) => ReplyView::Handle(*h),
            Reply::Status(s) => ReplyView::Status(*s),
            Reply::Text(t) => ReplyView::Text(
                match t {
                    Some(b) => Some(b@),
                    None => None,
                },
            ),
            Reply::Uuid(s, buf) => ReplyView::Uuid(*s, buf@),
        }
    }
}

impl ReplyView {
    /// The failure sentinel: a null handle or pointer, a negative status.
    pub open spec fn is_failure(self) -> bool {
        match self {
            ReplyView::Handle(h) => h == 0,
            ReplyView::Status(s) => s < 0,
            ReplyView::Text(t) => t is None,
            ReplyView::Uuid(s, _) => s < 0,
        }
    }
}

impl CallView {
    /// The handle of the interface the call is about, if it is about one.
    pub open spec fn iface(self) -> Option<usize> {
        match self {
            CallView::GetConnect { iface } => Some(iface),
            CallView::GetName { iface } => Some(iface),
            CallView::GetMacString { iface } => Some(iface),
            CallView::GetUuidString { iface } => Some(iface),
            CallView::GetXmlDesc { iface, .. } => Some(iface),
            CallView::Create { iface, .. } => Some(iface),
            CallView::Destroy { iface } => Some(iface),
            CallView::Undefine { iface } => Some(iface),
            CallView::Free { iface } => Some(iface),
            CallView::IsActive { iface } => Some(iface),
            _ => None,
        }
    }

    /// Whether the call looks an existing interface up.
    pub open spec fn is_lookup(self) -> bool {
        ||| self is LookupById
        ||| self is LookupByName
        ||| self is LookupByMacString
        ||| self is LookupByUuidString
    }

    /// The kind of error a failure of the call is reported as.
    pub open spec fn failure_kind(self) -> ErrorKind {
        if self.is_lookup() {
            ErrorKind::NotFound
        } else {
            ErrorKind::OperationFailed
        }
    }

    /// Whether `reply` has the shape that the call's entry point returns.
    pub open spec fn accepts(self, reply: ReplyView) -> bool {
        match self {
            CallView::GetName { .. } | CallView::GetMacString { .. } | CallView::GetXmlDesc {
                ..
            } => reply is Text,
            CallView::GetUuidString { .. } => reply is Uuid,
            CallView::Create { .. } | CallView::Destroy { .. } | CallView::Undefine { .. }
            | CallView::Free { .. } | CallView::IsActive { .. } => reply is Status,
            _ => reply is Handle,
        }
    }
}

/// What a successful call yields.
#[derive(Debug)]
pub enum Outcome {
    Interface(Interface),
    Connect(Connect),
    Text(String),
    Active(bool),
    Done,
}

/// `o` is what the call `call` yields on the successful reply `reply`.
pub open spec fn completes_as(call: CallView, reply: ReplyView, o: Outcome) -> bool {
    match reply {
        ReplyView::Handle(h) => if call is GetConnect {
            o matches Outcome::Connect(c) && c.ptr() == h
        } else {
            o matches Outcome::Interface(i) && i.handle() == h && i.is_live()
        },
        ReplyView::Text(t) => o matches Outcome::Text(s) && t matches Some(b) && s@ == decoded(
            until_nul(b),
        ),
        ReplyView::Uuid(_, buf) => o matches Outcome::Text(s) && s@ == decoded(until_nul(buf)),
        ReplyView::Status(st) => if call is IsActive {
            o matches Outcome::Active(a) && a == (st == 1)
        } else {
            o is Done
        },
    }
}

impl Call {
    /// Builds the result of this call from the foreign entry point's raw
    /// reply and the last-error state read right after it. A failure
    /// sentinel yields the error captured from `last`, of kind not-found for
    /// lookups and operation-failed otherwise; anything else yields the
    /// call's value.
    pub fn complete(&self, reply: Reply, last: Option<LastError>) -> (r: Result<Outcome, Error>)
        requires
            self@.accepts(reply@),
        ensures
            r is Err <==> reply@.is_failure(),
            r matches Err(e) ==> e.captures(self@.failure_kind(), last),
            r matches Ok(o) ==> completes_as(self@, reply@, o),
    {
        let kind = self.failure_kind();
        match reply {
            Reply::Handle(h) => {
                if h == 0 {
                    Err(Error::from_last(kind, last))
                } else if let Call::GetConnect { .. } = self {
                    match Connect::from_ptr(h) {
                        Some(c) => Ok(Outcome::Connect(c)),
                        None => Err(Error::from_last(kind, last)),
                    }
                } else {
                    Ok(Outcome::Interface(Interface { d: h, live: true }))
                }
            },
            Reply::Status(s) => {
                if s < 0 {
                    Err(Error::from_last(kind, last))
                } else if let Call::IsActive { .. } = self {
                    Ok(Outcome::Active(s == 1))
                } else {
                    Ok(Outcome::Done)
                }
            },
            Reply::Text(t) => match t {
                Some(b) => Ok(Outcome::Text(decode_c_bytes(b.as_slice()))),
                None => Err(Error::from_last(kind, last)),
            },
            Reply::Uuid(s, buf) => {
                if s < 0 {
                    Err(Error::from_last(kind, last))
                } else {
                    Ok(Outcome::Text(decode_c_bytes(buf.as_slice())))
                }
            },
        }
    }

    /// The kind of error a failure of this call is reported as.
    fn failure_kind(&self) -> (r: ErrorKind)
        ensures
            r == self@.failure_kind(),
    {
        match self {
            Call::LookupById { .. } | Call::LookupByName { .. } | Call::LookupByMacString { .. }
            | Call::LookupByUuidString { .. } => ErrorKind::NotFound,
            _ => ErrorKind::OperationFailed,
        }
    }

    /// Whether `reply` has the shape that this call's entry point returns.
    pub fn accepts(&self, reply: &Reply) -> (r: bool)
        ensures
            r == self@.accepts(reply@),
    {
        match self {
            Call::GetName { .. } | Call::GetMacString { .. } | Call::GetXmlDesc { .. } => {
                matches!(reply, Reply::Text(_))
            },
            Call::GetUuidString { .. } => matches!(reply, Reply::Uuid(..)),
            Call::Create { .. } | Call::Destroy { .. } | Call::Undefine { .. } | Call::Free { .. }
            | Call::IsActive { .. } => matches!(reply, Reply::Status(_)),
            _ => matches!(reply, Reply::Handle(_)),
        }
    }
}

/// A handle to a host network interface: a non-null foreign handle and
/// whether it is still live, that is, not yet released by `free`.
#[derive(Debug)]
pub struct Interface {
    d: usize,
    live: bool,
}

/// `r` is what an operation on `text` makes of it: the error for an argument
/// holding a NUL byte, or else the call `call`.
pub open spec fn marshalled(r: Result<Call, Error>, text: Seq<u8>, call: CallView) -> bool {
    if has_nul(text) {
        r matches Err(e) && e.is_local(ErrorKind::InvalidArgument)
    } else {
        r matches Ok(c) && c@ == call
    }
}

/// Checks and encodes a string argument.
fn c_string(s: &str) -> (r: Result<Vec<u8>, Error>)
    ensures
        has_nul(encode_utf8(s@)) ==> (r matches Err(e) && e.is_local(ErrorKind::InvalidArgument)),
        !has_nul(encode_utf8(s@)) ==> (r matches Ok(v) && v@ == terminated(encode_utf8(s@))),
{
    match to_c_string(s) {
        Some(v) => Ok(v),
        None => Err(Error::invalid_argument()),
    }
}

impl Interface {
    #[verifier::type_invariant]
    spec fn non_null(&self) -> bool {
        self.d != 0
    }

    /// The foreign handle.
    pub closed spec fn handle(&self) -> usize {
        self.d
    }

    /// Whether the handle has not been released by `free`.
    pub closed spec fn is_live(&self) -> bool {
        self.live
    }

    /// `r` is what an operation on this interface issues: the call `call`
    /// while the handle is live, the invalid-handle error once it was freed.
    pub open spec fn issues(&self, r: Result<Call, Error>, call: CallView) -> bool {
        if self.is_live() {
            r matches Ok(c) && c@ == call
        } else {
            r matches Err(e) && e.is_local(ErrorKind::InvalidHandle)
        }
    }

    /// The foreign handle, to pass back to foreign calls.
    pub fn as_ptr(&self) -> (r: usize)
        ensures
            r == self.handle(),
            r != 0,
    {
        proof {
            use_type_invariant(self);
        }
        self.d
    }

    /// Whether the handle has not been released by `free`.
    pub fn is_valid(&self) -> (r: bool)
        ensures
            r == self.is_live(),
    {
        self.live
    }

    /// The handle, once checked to be live.
    fn live_handle(&self) -> (r: Result<usize, Error>)
        ensures
            self.is_live() ==> r == Ok::<usize, Error>(self.handle()),
            !self.is_live() ==> (r matches Err(e) && e.is_local(ErrorKind::InvalidHandle)),
    {
        if self.live {
            Ok(self.d)
        } else {
            Err(Error::invalid_handle())
        }
    }

    /// The connection this interface belongs to; completes to
    /// [`Outcome::Connect`].
    pub fn get_connect(&self) -> (r: Result<Call, Error>)
        ensures
            self.issues(r, CallView::GetConnect { iface: self.handle() }),
    {
        let iface = self.live_handle()?;
        Ok(Call::GetConnect { iface })
    }

    /// Looks an interface up by its numeric id; completes to
    /// [`Outcome::Interface`].
    pub fn lookup_by_id(conn: &Connect, id: u32) -> (r: Call)
        ensures
            r@ == (CallView::LookupById { conn: conn.ptr(), id: id as i32 }),
    {
        Call::LookupById { conn: conn.as_ptr(), id: id as i32 }
    }

    /// Looks an interface up by its name; completes to
    /// [`Outcome::Interface`].
    pub fn lookup_by_name(conn: &Connect, id: &str) -> (r: Result<Call, Error>)
        ensures
            marshalled(
                r,
                encode_utf8(id@),
                CallView::LookupByName { conn: conn.ptr(), name: terminated(encode_utf8(id@)) },
            ),
    {
        let name = c_string(id)?;
        Ok(Call::LookupByName { conn: conn.as_ptr(), name })
    }

    /// Defines (without starting) an interface from its XML description;
    /// completes to [`Outcome::Interface`].
    pub fn define_xml(conn: &Connect, xml: &str, flags: u32) -> (r: Result<Call, Error>)
        ensures
            marshalled(
                r,
                encode_utf8(xml@),
                CallView::DefineXml {
                    conn: conn.ptr(),
                    xml: terminated(encode_utf8(xml@)),
                    flags,
                },
            ),
    {
        let xml = c_string(xml)?;
        Ok(Call::DefineXml { conn: conn.as_ptr(), xml, flags })
    }

    /// Looks an interface up by its MAC address; completes to
    /// [`Outcome::Interface`].
    pub fn lookup_by_mac_string(conn: &Connect, id: &str) -> (r: Result<Call, Error>)
        ensures
            marshalled(
                r,
                encode_utf8(id@),
                CallView::LookupByMacString { conn: conn.ptr(), mac: terminated(encode_utf8(id@)) },
            ),
    {
        let mac = c_string(id)?;
        Ok(Call::LookupByMacString { conn: conn.as_ptr(), mac })
    }

    /// Looks an interface up by its UUID; completes to
    /// [`Outcome::Interface`].
    pub fn lookup_by_uuid_string(conn: &Connect, uuid: &str) -> (r: Result<Call, Error>)
        ensures
            marshalled(
                r,
                encode_utf8(uuid@),
                CallView::LookupByUuidString {
                    conn: conn.ptr(),
                    uuid: terminated(encode_utf8(uuid@)),
                },
            ),
    {
        let uuid = c_string(uuid)?;
        Ok(Call::LookupByUuidString { conn: conn.as_ptr(), uuid })
    }

    /// The interface's name; completes to [`Outcome::Text`].
    pub fn get_name(&self) -> (r: Result<Call, Error>)
        ensures
            self.issues(r, CallView::GetName { iface: self.handle() }),
    {
        let iface = self.live_handle()?;
        Ok(Call::GetName { iface })
    }

    /// The interface's UUID, decoded from a buffer of `UUID_BUFLEN` bytes;
    /// completes to [`Outcome::Text`].
    pub fn get_uuid_string(&self) -> (r: Result<Call, Error>)
        ensures
            self.issues(r, CallView::GetUuidString { iface: self.handle() }),
    {
        let iface = self.live_handle()?;
        Ok(Call::GetUuidString { iface })
    }

    /// The interface's MAC address; completes to [`Outcome::Text`].
    pub fn get_mac_string(&self) -> (r: Result<Call, Error>)
        ensures
            self.issues(r, CallView::GetMacString { iface: self.handle() }),
    {
        let iface = self.live_handle()?;
        Ok(Call::GetMacString { iface })
    }

    /// The interface's XML description, of its live state or, with
    /// `VIR_INTERFACE_XML_INACTIVE`, of its persistent definition; other bits
    /// are passed on as they are. Completes to [`Outcome::Text`].
    pub fn get_xml_desc(&self, flags: InterfaceXMLFlags) -> (r: Result<Call, Error>)
        ensures
            self.issues(r, CallView::GetXmlDesc { iface: self.handle(), flags }),
    {
        let iface = self.live_handle()?;
        Ok(Call::GetXmlDesc { iface, flags })
    }

    /// Starts the defined interface; completes to [`Outcome::Done`].
    pub fn create(&self, flags: InterfaceXMLFlags) -> (r: Result<Call, Error>)
        ensures
            self.issues(r, CallView::Create { iface: self.handle(), flags }),
    {
        let iface = self.live_handle()?;
        Ok(Call::Create { iface, flags })
    }

    /// Stops the active interface; completes to [`Outcome::Done`].
    pub fn destroy(&self) -> (r: Result<Call, Error>)
        ensures
            self.issues(r, CallView::Destroy { iface: self.handle() }),
    {
        let iface = self.live_handle()?;
        Ok(Call::Destroy { iface })
    }

    /// Removes the interface's persistent definition; completes to
    /// [`Outcome::Done`].
    pub fn undefine(&self) -> (r: Result<Call, Error>)
        ensures
            self.issues(r, CallView::Undefine { iface: self.handle() }),
    {
        let iface = self.live_handle()?;
        Ok(Call::Undefine { iface })
    }

    /// Releases this handle's reference to the foreign object; the reply goes
    /// to [`Interface::complete_free`].
    pub fn free(&self) -> (r: Result<Call, Error>)
        ensures
            self.issues(r, CallView::Free { iface: self.handle() }),
    {
        let iface = self.live_handle()?;
        Ok(Call::Free { iface })
    }

    /// Completes `free` with the status it returned: on success the handle
    /// is no longer live, and every later operation on it fails with the
    /// invalid-handle error.
    pub fn complete_free(&mut self, reply: Reply, last: Option<LastError>) -> (r: Result<(), Error>)
        requires
            reply@ is Status,
        ensures
            r is Err <==> reply@.is_failure(),
            r matches Err(e) ==> e.captures(ErrorKind::OperationFailed, last),
            final(self).handle() == old(self).handle(),
            final(self).is_live() == (old(self).is_live() && r is Err),
    {
        let call = Call::Free { iface: self.as_ptr() };
        match call.complete(reply, last) {
            Ok(_) => {
                self.live = false;
                Ok(())
            },
            Err(e) => Err(e),
        }
    }

    /// Whether the interface is active; completes to [`Outcome::Active`].
    pub fn is_active(&self) -> (r: Result<Call, Error>)
        ensures
            self.issues(r, CallView::IsActive { iface: self.handle() }),
    {
        let iface = self.live_handle()?;
        Ok(Call::IsActive { iface })
    }
}

/// An operation handed text that holds a NUL byte refuses it with the
/// invalid-argument error and issues no foreign call.
pub proof fn lemma_nul_text_refused(r: Result<Call, Error>, text: Seq<u8>, call: CallView)
    requires
        has_nul(text),
        marshalled(r, text, call),
    ensures
        r matches Err(e) && e.kind == ErrorKind::InvalidArgument,
        !(r is Ok),
{
}

/// A name that was looked up is the name read back: when `get_name` is
/// answered with the string that `lookup_by_name` handed over, up to its
/// terminator, it completes to exactly the name.
pub proof fn lemma_lookup_name_read_back(
    conn: usize,
    name: Seq<char>,
    lookup: Result<Call, Error>,
    iface: usize,
    o: Outcome,
)
    requires
        !has_nul(encode_utf8(name)),
        marshalled(
            lookup,
            encode_utf8(name),
            CallView::LookupByName { conn, name: terminated(encode_utf8(name)) },
        ),
        completes_as(
            CallView::GetName { iface },
            ReplyView::Text(Some(until_nul(terminated(encode_utf8(name))))),
            o,
        ),
    ensures
        lookup matches Ok(c) && c@ == (CallView::LookupByName {
            conn,
            name: terminated(encode_utf8(name)),
        }),
        o matches Outcome::Text(s) && s@ == name,
{
    lemma_text_round_trip(name);
    lemma_until_nul_of_nul_free(encode_utf8(name));
}

/// XML that was defined is read back verbatim: `define_xml` hands over the
/// text unchanged, and when `get_xml_desc` with `VIR_INTERFACE_XML_INACTIVE`
/// is answered with that same text it completes to exactly the XML.
pub proof fn lemma_defined_xml_read_back(
    conn: usize,
    xml: Seq<char>,
    flags: u32,
    define: Result<Call, Error>,
    iface: usize,
    o: Outcome,
)
    requires
        !has_nul(encode_utf8(xml)),
        marshalled(
            define,
            encode_utf8(xml),
            CallView::DefineXml { conn, xml: terminated(encode_utf8(xml)), flags },
        ),
        completes_as(
            CallView::GetXmlDesc { iface, flags: VIR_INTERFACE_XML_INACTIVE },
            ReplyView::Text(Some(until_nul(terminated(encode_utf8(xml))))),
            o,
        ),
    ensures
        define matches Ok(c) && c@ == (CallView::DefineXml {
            conn,
            xml: terminated(encode_utf8(xml)),
            flags,
        }),
        o matches Outcome::Text(s) && s@ == xml,
{
    lemma_text_round_trip(xml);
    lemma_until_nul_of_nul_free(encode_utf8(xml));
}

/// `is_active` yields a boolean on every status that is not a failure:
/// false for 0, true for 1.
pub proof fn lemma_active_is_boolean(iface: usize, status: i32, o: Outcome)
    requires
        !ReplyView::Status(status).is_failure(),
        completes_as(CallView::IsActive { iface }, ReplyView::Status(status), o),
    ensures
        o matches Outcome::Active(a) && (status == 0 ==> !a) && (status == 1 ==> a),
{
}

/// A failed state change, such as `destroy` of an interface that is not
/// active, is reported as operation-failed and never as success.
pub proof fn lemma_failed_state_change(call: CallView, status: i32)
    requires
        call is Create || call is Destroy || call is Undefine || call is Free,
        ReplyView::Status(status).is_failure(),
    ensures
        call.failure_kind() == ErrorKind::OperationFailed,
        call.accepts(ReplyView::Status(status)),
{
}

} // verus!
