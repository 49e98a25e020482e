//! Turns the CLI's output into typed records. JSON output is read leniently
//! field by field (a missing text field reads as empty), while the shape of
//! the document is strict; the free-text output of `connect` is searched
//! for its `Address:` and `Port:` lines.

use vstd::prelude::*;
use crate::cli::owned;
use crate::error::BoundaryError;
use crate::json::{JsonValue, json_document, parse_json_text, array_field, str_field, text_or_empty, u64_field, i64_field};
use crate::model::{BoundaryAuthMethod, BoundaryScope, BoundaryTarget, BoundarySessionAuthorization, BoundaryConnection, BoundaryCommandResult, ConnectionType, connection_type_name};
use crate::text::{decimal_value, all_digits, parse_u16_digits};

verus! {

/// A list output must be a JSON object (or array); anything else is malformed.
pub open spec fn list_shape(doc: JsonValue) -> bool {
    doc is Object || doc is Array
}

/// The records of a list output: the `items` array, or none when absent.
pub open spec fn items_of(doc: JsonValue) -> Seq<JsonValue> {
    match array_field(doc, "items"@) {
        Some(a) => a,
        None => Seq::empty(),
    }
}

/// The records that a list output holds, or `None` for malformed output.
pub open spec fn listed_items(text: Seq<char>) -> Option<Seq<JsonValue>> {
    match json_document(text) {
        Some(doc) => if list_shape(doc) {
            Some(items_of(doc))
        } else {
            None
        },
        None => None,
    }
}

/// An optional text as an optional sequence of characters.
pub open spec fn opt_text(s: Option<String>) -> Option<Seq<char>> {
    match s {
        Some(x) => Some(x@),
        None => None,
    }
}

/// `m` is the auth method that `item` describes.
pub open spec fn auth_method_from(item: JsonValue, m: BoundaryAuthMethod) -> bool {
    &&& m.id@ == text_or_empty(item, "id"@)
    &&& m.name@ == text_or_empty(item, "name"@)
    &&& m.method_type@ == text_or_empty(item, "type"@)
    &&& m.description@ == text_or_empty(item, "description"@)
}

/// `s` is the scope that `item` describes.
pub open spec fn scope_from(item: JsonValue, s: BoundaryScope) -> bool {
    &&& s.id@ == text_or_empty(item, "id"@)
    &&& s.name@ == text_or_empty(item, "name"@)
    &&& s.scope_type@ == text_or_empty(item, "type"@)
    &&& s.description@ == text_or_empty(item, "description"@)
}

/// A port number read from JSON: kept when it fits a port.
pub open spec fn port_from(n: Option<u64>) -> Option<u16> {
    match n {
        Some(p) => if p <= u16::MAX {
            Some(p as u16)
        } else {
            None
        },
        None => None,
    }
}

/// `t` is the target that `item` describes.
pub open spec fn target_from(item: JsonValue, t: BoundaryTarget) -> bool {
    &&& t.id@ == text_or_empty(item, "id"@)
    &&& t.name@ == text_or_empty(item, "name"@)
    &&& t.target_type@ == text_or_empty(item, "type"@)
    &&& t.description@ == text_or_empty(item, "description"@)
    &&& opt_text(t.address) == str_field(item, "address"@)
    &&& t.default_port == port_from(u64_field(item, "default_port"@))
}

/// `r` is what parsing a list output `text` owes, given how one record is read.
pub open spec fn list_result<T>(text: Seq<char>, r: Result<Vec<T>, BoundaryError>, read: spec_fn(JsonValue, T) -> bool) -> bool {
    match (listed_items(text), r) {
        (None, Err(e)) => e is Parse,
        (Some(items), Ok(v)) => v@.len() == items.len() && forall|i: int|
            0 <= i < items.len() ==> #[trigger] read(items[i], v@[i]),
        _ => false,
    }
}

fn parse_error(what: &str) -> (r: BoundaryError)
    ensures
        r is Parse,
{
    BoundaryError::Parse(owned(what))
}

/// The records of a parsed list document, or `None` when its shape is wrong.
pub open spec fn document_items(doc: JsonValue) -> Option<Seq<JsonValue>> {
    if list_shape(doc) {
        Some(items_of(doc))
    } else {
        None
    }
}

/// `r` is what reading a list document `doc` owes, given how one record is read.
pub open spec fn document_list_result<T>(doc: JsonValue, r: Result<Vec<T>, BoundaryError>, read: spec_fn(JsonValue, T) -> bool) -> bool {
    match (document_items(doc), r) {
        (None, Err(e)) => e is Parse,
        (Some(items), Ok(v)) => v@.len() == items.len() && forall|i: int|
            0 <= i < items.len() ==> #[trigger] read(items[i], v@[i]),
        _ => false,
    }
}

fn is_list_shape(doc: &JsonValue) -> (r: bool)
    ensures
        r == list_shape(*doc),
{
    match doc {
        JsonValue::Object(_) => true,
        JsonValue::Array(_) => true,
        _ => false,
    }
}

/// The auth method that one record describes.
pub fn auth_method_of(item: &JsonValue) -> (r: BoundaryAuthMethod)
    ensures
        auth_method_from(*item, r),
{
    BoundaryAuthMethod {
        id: item.get_text_or_empty("id"),
        name: item.get_text_or_empty("name"),
        method_type: item.get_text_or_empty("type"),
        description: item.get_text_or_empty("description"),
    }
}

/// The scope that one record describes.
pub fn scope_of(item: &JsonValue) -> (r: BoundaryScope)
    ensures
        scope_from(*item, r),
{
    BoundaryScope {
        id: item.get_text_or_empty("id"),
        name: item.get_text_or_empty("name"),
        scope_type: item.get_text_or_empty("type"),
        description: item.get_text_or_empty("description"),
    }
}

/// The target that one record describes.
pub fn target_of(item: &JsonValue) -> (r: BoundaryTarget)
    ensures
        target_from(*item, r),
{
    let default_port = match item.get_u64("default_port") {
        Some(p) => if p <= 65535 {
            Some(p as u16)
        } else {
            None
        },
        None => None,
    };
    BoundaryTarget {
        id: item.get_text_or_empty("id"),
        name: item.get_text_or_empty("name"),
        target_type: item.get_text_or_empty("type"),
        description: item.get_text_or_empty("description"),
        address: item.get_str("address"),
        default_port,
    }
}

/// Reads the records of a parsed `auth methods` list document.
pub fn auth_methods_from_document(doc: &JsonValue) -> (r: Result<Vec<BoundaryAuthMethod>, BoundaryError>)
    ensures
        document_list_result(*doc, r, |item: JsonValue, m: BoundaryAuthMethod| auth_method_from(item, m)),
{
    if !is_list_shape(doc) {
        return Err(parse_error("output is not a JSON object"));
    }
    let mut out: Vec<BoundaryAuthMethod> = Vec::new();
    if let Some(items) = doc.get_array("items") {
        let mut i: usize = 0;
        while i < items.len()
            invariant
                i <= items@.len(),
                out@.len() == i,
                forall|j: int| 0 <= j < i ==> #[trigger] auth_method_from(items@[j], out@[j]),
            decreases items@.len() - i,
        {
            out.push(auth_method_of(&items[i]));
            i = i + 1;
        }
    }
    Ok(out)
}

/// Reads the auth methods of `auth-methods list` output: one per record of
/// its `items` array, in order.
pub fn parse_auth_methods(text: &str) -> (r: Result<Vec<BoundaryAuthMethod>, BoundaryError>)
    ensures
        list_result(text@, r, |item: JsonValue, m: BoundaryAuthMethod| auth_method_from(item, m)),
{
    match parse_json_text(text) {
        None => Err(parse_error("output is not valid JSON")),
        Some(doc) => auth_methods_from_document(&doc),
    }
}

/// Reads the records of a parsed `scopes` list document.
pub fn scopes_from_document(doc: &JsonValue) -> (r: Result<Vec<BoundaryScope>, BoundaryError>)
    ensures
        document_list_result(*doc, r, |item: JsonValue, s: BoundaryScope| scope_from(item, s)),
{
    if !is_list_shape(doc) {
        return Err(parse_error("output is not a JSON object"));
    }
    let mut out: Vec<BoundaryScope> = Vec::new();
    if let Some(items) = doc.get_array("items") {
        let mut i: usize = 0;
        while i < items.len()
            invariant
                i <= items@.len(),
                out@.len() == i,
                forall|j: int| 0 <= j < i ==> #[trigger] scope_from(items@[j], out@[j]),
            decreases items@.len() - i,
        {
            out.push(scope_of(&items[i]));
            i = i + 1;
        }
    }
    Ok(out)
}

/// Reads the scopes of `scopes list` output: one per record of its `items`
/// array, in order.
pub fn parse_scopes(text: &str) -> (r: Result<Vec<BoundaryScope>, BoundaryError>)
    ensures
        list_result(text@, r, |item: JsonValue, s: BoundaryScope| scope_from(item, s)),
{
    match parse_json_text(text) {
        None => Err(parse_error("output is not valid JSON")),
        Some(doc) => scopes_from_document(&doc),
    }
}

/// Reads the records of a parsed `targets` list document.
pub fn targets_from_document(doc: &JsonValue) -> (r: Result<Vec<BoundaryTarget>, BoundaryError>)
    ensures
        document_list_result(*doc, r, |item: JsonValue, t: BoundaryTarget| target_from(item, t)),
{
    if !is_list_shape(doc) {
        return Err(parse_error("output is not a JSON object"));
    }
    let mut out: Vec<BoundaryTarget> = Vec::new();
    if let Some(items) = doc.get_array("items") {
        let mut i: usize = 0;
        while i < items.len()
            invariant
                i <= items@.len(),
                out@.len() == i,
                forall|j: int| 0 <= j < i ==> #[trigger] target_from(items@[j], out@[j]),
            decreases items@.len() - i,
        {
            out.push(target_of(&items[i]));
            i = i + 1;
        }
    }
    Ok(out)
}

/// Reads the targets of `targets list` output: one per record of its `items`
/// array, in order.
pub fn parse_targets(text: &str) -> (r: Result<Vec<BoundaryTarget>, BoundaryError>)
    ensures
        list_result(text@, r, |item: JsonValue, t: BoundaryTarget| target_from(item, t)),
{
    match parse_json_text(text) {
        None => Err(parse_error("output is not valid JSON")),
        Some(doc) => targets_from_document(&doc),
    }
}

/// A connection limit read from JSON: the number when it fits an `i32`,
/// else -1 (no limit stated).
pub open spec fn limit_from(n: Option<i64>) -> i32 {
    match n {
        Some(v) => if i32::MIN <= v <= i32::MAX {
            v as i32
        } else {
            -1i32
        },
        None => -1i32,
    }
}

/// An authorization document can be used only when it is an object that
/// names both the authorization token and the session.
pub open spec fn authorization_usable(doc: JsonValue) -> bool {
    &&& doc is Object
    &&& text_or_empty(doc, "authorization_token"@).len() > 0
    &&& text_or_empty(doc, "session_id"@).len() > 0
}

/// `a` is the session authorization that `doc` describes.
pub open spec fn authorization_from(doc: JsonValue, a: BoundarySessionAuthorization) -> bool {
    &&& a.authorization_token@ == text_or_empty(doc, "authorization_token"@)
    &&& a.session_id@ == text_or_empty(doc, "session_id"@)
    &&& a.target_id@ == text_or_empty(doc, "target_id"@)
    &&& a.user_id@ == text_or_empty(doc, "user_id"@)
    &&& opt_text(a.host_id) == str_field(doc, "host_id"@)
    &&& a.scope_id@ == text_or_empty(doc, "scope_id"@)
    &&& a.created_time@ == text_or_empty(doc, "created_time"@)
    &&& opt_text(a.expiration_time) == str_field(doc, "expiration_time"@)
    &&& a.connection_limit == limit_from(i64_field(doc, "connection_limit"@))
}

/// `r` is what parsing `authorize-session` output `text` owes.
pub open spec fn authorization_result(text: Seq<char>, r: Result<BoundarySessionAuthorization, BoundaryError>) -> bool {
    match (json_document(text), r) {
        (Some(doc), Ok(a)) => authorization_usable(doc) && authorization_from(doc, a),
        (Some(doc), Err(e)) => !authorization_usable(doc) && e is Parse,
        (None, Err(e)) => e is Parse,
        (None, Ok(_)) => false,
    }
}

/// Reads a parsed `targets authorize-session` document: it must be an
/// object that names the authorization token and the session.
pub fn session_authorization_from_document(doc: &JsonValue) -> (r: Result<BoundarySessionAuthorization, BoundaryError>)
    ensures
        match r {
            Ok(a) => authorization_usable(*doc) && authorization_from(*doc, a),
            Err(e) => !authorization_usable(*doc) && e is Parse,
        },
{
    let is_object = match doc {
        JsonValue::Object(_) => true,
        _ => false,
    };
    if !is_object {
        return Err(parse_error("authorization is not a JSON object"));
    }
    let authorization_token = doc.get_text_or_empty("authorization_token");
    let session_id = doc.get_text_or_empty("session_id");
    if authorization_token.unicode_len() == 0 || session_id.unicode_len() == 0 {
        return Err(parse_error("authorization lacks its token or session id"));
    }
    let connection_limit = match doc.get_i64("connection_limit") {
        Some(v) => if -2147483648 <= v && v <= 2147483647 {
            v as i32
        } else {
            -1
        },
        None => -1,
    };
    Ok(BoundarySessionAuthorization {
        authorization_token,
        session_id,
        target_id: doc.get_text_or_empty("target_id"),
        user_id: doc.get_text_or_empty("user_id"),
        host_id: doc.get_str("host_id"),
        scope_id: doc.get_text_or_empty("scope_id"),
        created_time: doc.get_text_or_empty("created_time"),
        expiration_time: doc.get_str("expiration_time"),
        connection_limit,
    })
}

/// Reads the session authorization of `targets authorize-session` output.
pub fn parse_session_authorization(text: &str) -> (r: Result<BoundarySessionAuthorization, BoundaryError>)
    ensures
        authorization_result(text@, r),
{
    match parse_json_text(text) {
        Some(doc) => session_authorization_from_document(&doc),
        None => Err(parse_error("output is not valid JSON")),
    }
}

/// The pattern of the address line of `connect` output; group 1 is the address.
pub open spec fn address_pattern() -> Seq<char> {
    "Address:\\s+([^\\s]+)"@
}

/// The pattern of the port line of `connect` output; group 1 is the port.
pub open spec fn port_pattern() -> Seq<char> {
    "Port:\\s+(\\d+)"@
}

/// What the regex crate finds: the text of group 1 of the leftmost match of
/// `pattern` in `text`.
pub uninterp spec fn regex_first_group(pattern: Seq<char>, text: Seq<char>) -> Option<Seq<char>>;

/// Relies on regex::Regex::new and regex::Regex::captures: group 1 of the
/// leftmost match of `pattern` in `text`, `None` when nothing matches, the
/// group took no part, or the pattern does not compile; the result depends on
/// the two texts alone.
#[verifier::external_body]
fn first_capture(pattern: &str, text: &str) -> (r: Option<String>)
    ensures
        opt_text(r) == regex_first_group(pattern@, text@),
{
    let re = match regex::Regex::new(pattern) {
        Ok(re) => re,
        Err(_) => return None,
    };
    let caps = re.captures(text)?;
    caps.get(1).map(|m| m.as_str().to_string())
}

/// The loopback address, used when the output names no address.
pub open spec fn loopback() -> Seq<char> {
    "127.0.0.1"@
}

/// The port that a captured digit string gives: a non-zero value that fits.
pub open spec fn port_of_digits(port: Option<Seq<char>>) -> Option<u16> {
    match port {
        Some(d) => if d.len() > 0 && all_digits(d) && 0 < decimal_value(d) <= u16::MAX {
            Some(decimal_value(d) as u16)
        } else {
            None
        },
        None => None,
    }
}

/// The endpoint that the captured address and port texts give.
pub open spec fn endpoint_of(address: Option<Seq<char>>, port: Option<Seq<char>>) -> Option<(Seq<char>, u16)> {
    match port_of_digits(port) {
        Some(p) => Some((
            match address {
                Some(a) => a,
                None => loopback(),
            },
            p,
        )),
        None => None,
    }
}

/// The endpoint from the captured address and port texts: the address
/// defaults to the loopback address; a missing, unreadable or zero port is an
/// error, as no connection can be made without one.
pub fn connection_info_from_captures(address: Option<String>, port: Option<String>) -> (r: Result<(String, u16), BoundaryError>)
    ensures
        match (endpoint_of(opt_text(address), opt_text(port)), r) {
            (Some(e), Ok(v)) => v.0@ == e.0 && v.1 == e.1,
            (None, Err(err)) => err is ConnectionParse,
            _ => false,
        },
{
    let port_value = match &port {
        Some(d) => parse_u16_digits(d.as_str()),
        None => None,
    };
    match port_value {
        Some(p) if p != 0 => {
            let addr = match address {
                Some(a) => a,
                None => owned("127.0.0.1"),
            };
            Ok((addr, p))
        },
        _ => Err(BoundaryError::ConnectionParse(owned("no valid port in connection output"))),
    }
}

/// Reads the local endpoint from `connect` output: the text after
/// `Address:` and the number after `Port:`.
pub fn parse_connection_info(output: &str) -> (r: Result<(String, u16), BoundaryError>)
    ensures
        match (endpoint_of(regex_first_group(address_pattern(), output@), regex_first_group(port_pattern(), output@)), r) {
            (Some(e), Ok(v)) => v.0@ == e.0 && v.1 == e.1,
            (None, Err(err)) => err is ConnectionParse,
            _ => false,
        },
{
    let address = first_capture("Address:\\s+([^\\s]+)", output);
    let port = first_capture("Port:\\s+(\\d+)", output);
    connection_info_from_captures(address, port)
}

} // verus!
