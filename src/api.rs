//! The HTTP API: the responses of its operations, and the problems that
//! answer failed requests, with their status codes.
use crate::environment::{guest_error_text, GuestError};
use crate::hex::{encode, hex_text};
use crate::ids::{BinaryId, MachineId};
use vstd::prelude::*;
use vstd::string::*;

verus! {

pub const OK: u16 = 200;
pub const CREATED: u16 = 201;
pub const PERMANENT_REDIRECT: u16 = 308;
pub const BAD_REQUEST: u16 = 400;
pub const NOT_FOUND: u16 = 404;
pub const METHOD_NOT_ALLOWED: u16 = 405;
pub const MISDIRECTED_REQUEST: u16 = 421;
pub const INTERNAL_SERVER_ERROR: u16 = 500;

/// A failed request: what the client is told, what the host logs, the status,
/// and extra headers and body fields.
#[derive(Clone, Debug)]
pub struct Problem {
    pub client_desc: String,
    pub host_error: String,
    pub status: u16,
    pub extra_headers: Vec<(String, String)>,
    pub extra_fields: Vec<(String, String)>,
}

fn cat(a: &str, b: &str) -> (r: String)
    ensures
        r@ == a@ + b@,
{
    String::from_str(a).concat(b)
}

fn cat3(a: &str, b: &str, c: &str) -> (r: String)
    ensures
        r@ == a@ + b@ + c@,
{
    String::from_str(a).concat(b).concat(c)
}

impl Problem {
    /// A problem with no extra headers or fields.
    pub fn new(client_desc: String, host_error: String, status: u16) -> (r: Problem)
        ensures
            r.client_desc == client_desc,
            r.host_error == host_error,
            r.status == status,
            r.extra_headers@.len() == 0,
            r.extra_fields@.len() == 0,
    {
        Problem { client_desc, host_error, status, extra_headers: Vec::new(), extra_fields: Vec::new() }
    }

    /// A failed guest call: a panic is the client's problem (400) and shows its
    /// message and backtrace; any other fault is the server's (500).
    pub fn guest_error(guest_error: GuestError) -> (r: Problem)
        ensures
            match guest_error {
                GuestError::Panic { message, backtrace } => {
                    &&& r.status == BAD_REQUEST
                    &&& r.client_desc == message
                    &&& r.host_error@ == guest_error_text(guest_error)
                    &&& r.extra_headers@.len() == 0
                    &&& match backtrace {
                        Some(bt) => r.extra_fields@.len() == 1 && r.extra_fields@[0].0@ == "backtrace"@
                            && r.extra_fields@[0].1 == bt,
                        None => r.extra_fields@.len() == 0,
                    }
                },
                GuestError::Other(e) => r.status == INTERNAL_SERVER_ERROR && r.host_error == e
                    && r.client_desc@ == "internal server error"@
                    && r.extra_headers@.len() == 0 && r.extra_fields@.len() == 0,
            },
    {
        let text = guest_error.to_string();
        match guest_error {
            GuestError::Panic { message, backtrace } => {
                let mut extra_fields: Vec<(String, String)> = Vec::new();
                if let Some(bt) = backtrace {
                    extra_fields.push((String::from_str("backtrace"), bt));
                }
                Problem {
                    client_desc: message,
                    host_error: text,
                    status: BAD_REQUEST,
                    extra_headers: Vec::new(),
                    extra_fields,
                }
            },
            GuestError::Other(e) => Problem::internal_server_error(e),
        }
    }

    /// The client sent something unusable (400).
    pub fn bad_request(client_desc: String, host_error: String) -> (r: Problem)
        ensures
            r.client_desc == client_desc,
            r.host_error == host_error,
            r.status == BAD_REQUEST,
            r.extra_headers@.len() == 0,
            r.extra_fields@.len() == 0,
    {
        Problem::new(client_desc, host_error, BAD_REQUEST)
    }

    /// A fault of the server (500); the client learns nothing of it.
    pub fn internal_server_error(host_error: String) -> (r: Problem)
        ensures
            r.status == INTERNAL_SERVER_ERROR,
            r.client_desc@ == "internal server error"@,
            r.host_error == host_error,
            r.extra_headers@.len() == 0,
            r.extra_fields@.len() == 0,
    {
        Problem::new(String::from_str("internal server error"), host_error, INTERNAL_SERVER_ERROR)
    }

    /// The host named in the request addresses neither the API nor a machine (421).
    /// `host` is the header as text, or its raw bytes when it is not text.
    pub fn misdirected_request(host: Option<&str>, raw: &[u8]) -> (r: Problem)
        ensures
            r.status == MISDIRECTED_REQUEST,
            r.client_desc@ == "HOST "@ + match host {
                Some(h) => h@,
                None => "hex:\""@ + hex_text(raw@) + "\""@,
            } + " couldn't be resovled to a machine"@,
            r.host_error@ == r.client_desc@,
            r.extra_headers@.len() == 0,
            r.extra_fields@.len() == 0,
    {
        let shown = match host {
            Some(h) => String::from_str(h),
            None => cat3("hex:\"", encode(raw).as_str(), "\""),
        };
        let desc = cat3("HOST ", shown.as_str(), " couldn't be resovled to a machine");
        let host_error = desc.clone();
        Problem::new(desc, host_error, MISDIRECTED_REQUEST)
    }

    /// Nothing is at `path` (404).
    pub fn not_found(path: &str) -> (r: Problem)
        ensures
            r.status == NOT_FOUND,
            r.client_desc@ == path@ + " not found"@,
            r.host_error@ == "resource not found: "@ + path@,
            r.extra_headers@.len() == 0,
            r.extra_fields@.len() == 0,
    {
        Problem::new(cat(path, " not found"), cat("resource not found: ", path), NOT_FOUND)
    }

    /// No machine has this id (404).
    pub fn machine_not_found(machine_id: MachineId) -> (r: Problem)
        ensures
            r.status == NOT_FOUND,
            r.client_desc@ == "machine "@ + hex_text(machine_id.view()) + " not found"@,
            r.host_error@ == r.client_desc@,
            r.extra_headers@.len() == 0,
            r.extra_fields@.len() == 0,
    {
        let desc = cat3("machine ", machine_id.to_string().as_str(), " not found");
        let host_error = desc.clone();
        Problem::new(desc, host_error, NOT_FOUND)
    }

    /// No binary has this id (404).
    pub fn binary_not_found(binary_id: BinaryId) -> (r: Problem)
        ensures
            r.status == NOT_FOUND,
            r.client_desc@ == "binary "@ + hex_text(binary_id.view()) + " not found"@,
            r.host_error@ == r.client_desc@,
            r.extra_headers@.len() == 0,
            r.extra_fields@.len() == 0,
    {
        let desc = cat3("binary ", binary_id.to_string().as_str(), " not found");
        let host_error = desc.clone();
        Problem::new(desc, host_error, NOT_FOUND)
    }

    /// `method` is not supported on `path` (405); the `Allow` header lists the
    /// methods that are.
    pub fn method_not_allowed(path: &str, method: &str, allowed: &[&str]) -> (r: Problem)
        ensures
            r.status == METHOD_NOT_ALLOWED,
            r.client_desc@ == "HTTP method "@ + method@ + " not supported on "@ + path@,
            r.host_error@ == "HTTP method "@ + method@ + " called on "@ + path@ + " but it's not supported"@,
            r.extra_headers@.len() == 1,
            r.extra_headers@[0].0@ == "Allow"@,
            r.extra_headers@[0].1@ == join_comma(allowed@.map_values(|a: &str| a@)),
            r.extra_fields@.len() == 0,
    {
        let desc = cat(cat3("HTTP method ", method, " not supported on ").as_str(), path);
        let host_error = cat3(cat3("HTTP method ", method, " called on ").as_str(), path, " but it's not supported");
        let mut problem = Problem::new(desc, host_error, METHOD_NOT_ALLOWED);
        problem.extra_headers.push((String::from_str("Allow"), join_comma_exec(allowed)));
        problem
    }

    /// A path element is not a valid value of the kind `kind` (400).
    pub fn invalid_path_element(error: String, val: &str, kind: &str) -> (r: Problem)
        ensures
            r.status == BAD_REQUEST,
            r.client_desc@ == "path element "@ + val@ + " is not a valid "@ + kind@,
            r.host_error == error,
            r.extra_headers@.len() == 0,
            r.extra_fields@.len() == 0,
    {
        Problem::new(cat(cat3("path element ", val, " is not a valid ").as_str(), kind), error, BAD_REQUEST)
    }
}

/// Texts joined with `, ` between them.
pub open spec fn join_comma(items: Seq<Seq<char>>) -> Seq<char>
    decreases items.len(),
{
    if items.len() == 0 {
        Seq::empty()
    } else if items.len() == 1 {
        items[0]
    } else {
        join_comma(items.drop_last()) + ", "@ + items.last()
    }
}

fn join_comma_exec(items: &[&str]) -> (r: String)
    ensures
        r@ == join_comma(items@.map_values(|a: &str| a@)),
{
    let ghost all = items@.map_values(|a: &str| a@);
    let mut out = String::new();
    let mut i: usize = 0;
    while i < items.len()
        invariant
            all == items@.map_values(|a: &str| a@),
            i <= items@.len(),
            out@ == join_comma(all.subrange(0, i as int)),
        decreases items@.len() - i,
    {
        assert(all.subrange(0, i + 1).drop_last() =~= all.subrange(0, i as int));
        if i > 0 {
            out.append(", ");
        }
        out.append(items[i]);
        i = i + 1;
    }
    assert(all.subrange(0, items@.len() as int) =~= all);
    out
}

/// A binary was uploaded (201, or 200 when it already existed).
#[derive(Clone, Copy, Debug)]
pub struct BinaryCreated {
    pub id: BinaryId,
}

impl BinaryCreated {
    /// Where the binary can be found.
    pub fn location(&self) -> (r: String)
        ensures
            r@ == "/binaries/"@ + hex_text(self.id.view()),
    {
        cat("/binaries/", self.id.to_string().as_str())
    }

    /// The status of a first upload.
    pub fn status(&self) -> (r: u16)
        ensures
            r == CREATED,
    {
        CREATED
    }
}

/// A machine was created (201, or 200 when it already existed).
#[derive(Clone, Copy, Debug)]
pub struct MachineCreated {
    pub id: MachineId,
}

impl MachineCreated {
    /// Where the machine can be found.
    pub fn location(&self) -> (r: String)
        ensures
            r@ == "/machines/"@ + hex_text(self.id.view()),
    {
        cat("/machines/", self.id.to_string().as_str())
    }

    /// The status of a first creation.
    pub fn status(&self) -> (r: u16)
        ensures
            r == CREATED,
    {
        CREATED
    }
}

/// What a machine is, as the API shows it.
#[derive(Clone, Debug)]
pub struct GetMachine {
    pub binary_id: BinaryId,
    pub params: Vec<u8>,
}

/// The activations a binary exposes, by name.
#[derive(Clone, Debug)]
pub struct BinaryDescription {
    pub activations: Vec<(String, AcivationDescription)>,
}

/// What is known of one activation (nothing yet).
#[derive(Clone, Copy, Debug)]
pub struct AcivationDescription {}

} // verus!
