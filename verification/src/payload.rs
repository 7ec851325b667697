//! The JSON payload an iOS shortcut sends on an SSH channel: trimmed,
//! parsed, sanitized, checked for its version and read into fields.

use vstd::prelude::*;
use vstd::string::*;
use vstd::utf8::*;
use crate::json::{
    json_document, json_get, json_number, json_rendering, json_sanitizable, json_text,
    parse_json, render_json, sanitize_json_value, sanitized_tree, tree_get, tree_number,
    tree_sanitizable, tree_text, JsonNumber, JsonTree, JsonValue,
};
use crate::text::{joined, same_text};

verus! {

/// The fields the server reads from a client's payload, all sanitized.
/// Positions are held as the decimal text of the JSON number.
#[derive(Debug)]
pub struct ClientPayload {
    pub time: Option<String>,
    pub device_model: Option<String>,
    pub device_name: Option<String>,
    pub device_hostname: Option<String>,
    pub device_os: Option<String>,
    pub device_version: Option<String>,
    pub latitude: Option<JsonNumber>,
    pub longitude: Option<JsonNumber>,
    pub altitude: Option<JsonNumber>,
    pub version: Option<String>,
    pub raw_sanitized: String,
}

/// The content of a `ClientPayload`.
pub struct PayloadView {
    pub time: Option<Seq<char>>,
    pub device_model: Option<Seq<char>>,
    pub device_name: Option<Seq<char>>,
    pub device_hostname: Option<Seq<char>>,
    pub device_os: Option<Seq<char>>,
    pub device_version: Option<Seq<char>>,
    pub latitude: Option<Seq<char>>,
    pub longitude: Option<Seq<char>>,
    pub altitude: Option<Seq<char>>,
    pub version: Option<Seq<char>>,
    pub raw_sanitized: Seq<char>,
}

pub open spec fn text_view(t: Option<String>) -> Option<Seq<char>> {
    match t {
        Some(s) => Some(s@),
        None => None,
    }
}

pub open spec fn number_view(n: Option<JsonNumber>) -> Option<Seq<char>> {
    match n {
        Some(x) => Some(x.repr@),
        None => None,
    }
}

impl View for ClientPayload {
    type V = PayloadView;

    open spec fn view(&self) -> PayloadView {
        PayloadView {
            time: text_view(self.time),
            device_model: text_view(self.device_model),
            device_name: text_view(self.device_name),
            device_hostname: text_view(self.device_hostname),
            device_os: text_view(self.device_os),
            device_version: text_view(self.device_version),
            latitude: number_view(self.latitude),
            longitude: number_view(self.longitude),
            altitude: number_view(self.altitude),
            version: text_view(self.version),
            raw_sanitized: self.raw_sanitized@,
        }
    }
}

impl ClientPayload {
    /// A field-by-field copy.
    pub fn duplicate(&self) -> (r: ClientPayload)
        ensures
            r == *self,
    {
        ClientPayload {
            time: self.time.clone(),
            device_model: self.device_model.clone(),
            device_name: self.device_name.clone(),
            device_hostname: self.device_hostname.clone(),
            device_os: self.device_os.clone(),
            device_version: self.device_version.clone(),
            latitude: copy_number(&self.latitude),
            longitude: copy_number(&self.longitude),
            altitude: copy_number(&self.altitude),
            version: self.version.clone(),
            raw_sanitized: self.raw_sanitized.clone(),
        }
    }
}

fn copy_number(n: &Option<JsonNumber>) -> (r: Option<JsonNumber>)
    ensures
        r == *n,
{
    match n {
        Some(x) => Some(JsonNumber { repr: x.repr.clone() }),
        None => None,
    }
}

/// Unicode's White_Space property, which `char::is_whitespace` tests.
pub open spec fn is_white_space(c: char) -> bool {
    ||| ('\u{9}' <= c && c <= '\u{d}')
    ||| c == ' '
    ||| c == '\u{85}'
    ||| c == '\u{a0}'
    ||| c == '\u{1680}'
    ||| ('\u{2000}' <= c && c <= '\u{200a}')
    ||| c == '\u{2028}'
    ||| c == '\u{2029}'
    ||| c == '\u{202f}'
    ||| c == '\u{205f}'
    ||| c == '\u{3000}'
}

pub open spec fn trim_start(s: Seq<char>) -> Seq<char>
    decreases s.len(),
{
    if s.len() > 0 && is_white_space(s[0]) {
        trim_start(s.drop_first())
    } else {
        s
    }
}

pub open spec fn trim_end(s: Seq<char>) -> Seq<char>
    decreases s.len(),
{
    if s.len() > 0 && is_white_space(s.last()) {
        trim_end(s.drop_last())
    } else {
        s
    }
}

/// `s` without leading and trailing white space.
pub open spec fn trimmed(s: Seq<char>) -> Seq<char> {
    trim_end(trim_start(s))
}

/// Removes leading and trailing white space through `str::trim`.
///
/// Trusted: std documents `trim` as removing leading and trailing characters
/// with Unicode's White_Space property.
#[verifier::external_body]
fn trim_text(s: &str) -> (r: &str)
    ensures
        r@ == trimmed(s@),
{
    s.trim()
}

/// What `String::from_utf8_lossy` makes of a byte sequence.
pub uninterp spec fn utf8_lossy(bytes: Seq<u8>) -> Seq<char>;

/// Decodes bytes as UTF-8 through `String::from_utf8_lossy`, invalid
/// sequences replaced by U+FFFD.
///
/// Trusted: the text depends on the bytes alone, and std documents that
/// valid UTF-8 is returned as the text it encodes; the replacement of
/// invalid sequences is named, not stated.
#[verifier::external_body]
pub(crate) fn text_from_bytes(bytes: &[u8]) -> (r: String)
    ensures
        r@ == utf8_lossy(bytes@),
        valid_utf8(bytes@) ==> r@ == decode_utf8(bytes@),
{
    String::from_utf8_lossy(bytes).into_owned()
}

/// `value.get(key)` applied to an optional value.
pub open spec fn opt_get(t: Option<JsonTree>, k: Seq<char>) -> Option<JsonTree> {
    match t {
        Some(x) => tree_get(x, k),
        None => None,
    }
}

/// The payload fields read from a sanitized document.
pub open spec fn payload_fields(doc: JsonTree) -> PayloadView {
    let device = tree_get(doc, "device"@);
    let position = tree_get(doc, "position"@);
    PayloadView {
        time: tree_text(opt_get(tree_get(doc, "time"@), "value"@)),
        device_model: tree_text(opt_get(device, "model"@)),
        device_name: tree_text(opt_get(device, "name"@)),
        device_hostname: tree_text(opt_get(device, "hostname"@)),
        device_os: tree_text(opt_get(device, "os"@)),
        device_version: tree_text(opt_get(device, "version"@)),
        latitude: tree_number(opt_get(position, "latitude"@)),
        longitude: tree_number(opt_get(position, "longitude"@)),
        altitude: tree_number(opt_get(position, "altitude"@)),
        version: tree_text(tree_get(doc, "version"@)),
        raw_sanitized: json_rendering(doc),
    }
}

/// The error reported for a payload whose version is not the expected one.
pub open spec fn version_mismatch_text(expected: Seq<char>, got: Seq<char>) -> Seq<char> {
    "version mismatch: expected '"@ + expected + "', got '"@ + got + "'"@
}

/// What the server makes of the text a client sent: nothing for blank input,
/// an error message for invalid JSON or a foreign version, otherwise the
/// payload fields of the sanitized document.
pub open spec fn payload_outcome(stdin: Seq<char>, expected: Seq<char>) -> Result<
    Option<PayloadView>,
    Seq<char>,
> {
    let text = trimmed(stdin);
    if text.len() == 0 {
        Ok(None)
    } else {
        match json_document(text) {
            Err(e) => Err("Invalid JSON: "@ + e),
            Ok(doc) => {
                let clean = sanitized_tree(doc);
                match tree_text(tree_get(clean, "version"@)) {
                    Some(v) if v != expected => Err(version_mismatch_text(expected, v)),
                    _ => Ok(Some(payload_fields(clean))),
                }
            },
        }
    }
}

/// Whether reading the payload cuts no text inside a character.
pub open spec fn payload_sanitizable(stdin: Seq<char>) -> bool {
    let text = trimmed(stdin);
    text.len() == 0 || match json_document(text) {
        Ok(doc) => tree_sanitizable(doc),
        Err(_) => true,
    }
}

pub open spec fn outcome_view(r: Result<Option<ClientPayload>, String>) -> Result<
    Option<PayloadView>,
    Seq<char>,
> {
    match r {
        Ok(Some(p)) => Ok(Some(p@)),
        Ok(None) => Ok(None),
        Err(e) => Err(e@),
    }
}

fn json_get_in<'a>(v: Option<&'a JsonValue>, key: &str) -> (r: Option<&'a JsonValue>)
    ensures
        match r {
            Some(x) => opt_get(crate::json::opt_tree(v), key@) == Some(x@),
            None => opt_get(crate::json::opt_tree(v), key@) is None,
        },
{
    match v {
        Some(x) => json_get(x, key),
        None => None,
    }
}

fn owned_text(t: Option<&String>) -> (r: Option<String>)
    ensures
        text_view(r) == match t {
            Some(s) => Some(s@),
            None => None::<Seq<char>>,
        },
{
    match t {
        Some(s) => Some(s.clone()),
        None => None,
    }
}

fn owned_number(n: Option<&JsonNumber>) -> (r: Option<JsonNumber>)
    ensures
        number_view(r) == match n {
            Some(x) => Some(x.repr@),
            None => None::<Seq<char>>,
        },
{
    match n {
        Some(x) => Some(JsonNumber { repr: x.repr.clone() }),
        None => None,
    }
}

/// Reads a client's payload: blank text gives no payload; otherwise the JSON
/// is parsed, sanitized, checked against the expected version, and its
/// fields are taken from the sanitized document.
pub fn parse_client_payload(stdin_str: &str, expected_version: &str) -> (r: Result<
    Option<ClientPayload>,
    String,
>)
    requires
        payload_sanitizable(stdin_str@),
    ensures
        outcome_view(r) == payload_outcome(stdin_str@, expected_version@),
{
    let text = trim_text(stdin_str);
    if text.is_empty() {
        return Ok(None);
    }
    let json = match parse_json(text) {
        Ok(v) => v,
        Err(e) => {
            proof { reveal_strlit("Invalid JSON: "); }
            return Err(joined("Invalid JSON: ", e.as_str()));
        },
    };
    let clean = sanitize_json_value(&json);
    let version = json_text(json_get(&clean, "version"));
    if let Some(v) = version {
        if !same_text(v.as_str(), expected_version) {
            return Err(version_mismatch_message(expected_version, v.as_str()));
        }
    }
    Ok(Some(payload_from_document(&clean)))
}

/// The report for a payload whose version is not the expected one.
pub fn version_mismatch_message(expected: &str, got: &str) -> (r: String)
    ensures
        r@ == version_mismatch_text(expected@, got@),
{
    proof {
        reveal_strlit("version mismatch: expected '");
        reveal_strlit("', got '");
        reveal_strlit("'");
    }
    let mut msg = String::from_str("version mismatch: expected '");
    msg.append(expected);
    msg.append("', got '");
    msg.append(got);
    msg.append("'");
    msg
}

/// Reads the payload fields out of a sanitized document.
pub fn payload_from_document(doc: &JsonValue) -> (r: ClientPayload)
    ensures
        r@ == payload_fields(doc@),
{
    let device = json_get(doc, "device");
    let position = json_get(doc, "position");
    let time = owned_text(json_text(json_get_in(json_get(doc, "time"), "value")));
    let device_model = owned_text(json_text(json_get_in(device, "model")));
    let device_name = owned_text(json_text(json_get_in(device, "name")));
    let device_hostname = owned_text(json_text(json_get_in(device, "hostname")));
    let device_os = owned_text(json_text(json_get_in(device, "os")));
    let device_version = owned_text(json_text(json_get_in(device, "version")));
    let latitude = owned_number(json_number(json_get_in(position, "latitude")));
    let longitude = owned_number(json_number(json_get_in(position, "longitude")));
    let altitude = owned_number(json_number(json_get_in(position, "altitude")));
    let version = owned_text(json_text(json_get(doc, "version")));
    let raw_sanitized = render_json(doc);
    ClientPayload {
        time,
        device_model,
        device_name,
        device_hostname,
        device_os,
        device_version,
        latitude,
        longitude,
        altitude,
        version,
        raw_sanitized,
    }
}

/// Whether reading this text as a payload cuts no text inside a character.
pub fn payload_is_sanitizable(stdin_str: &str) -> (r: bool)
    ensures
        r == payload_sanitizable(stdin_str@),
{
    let text = trim_text(stdin_str);
    if text.is_empty() {
        return true;
    }
    match parse_json(text) {
        Ok(v) => json_sanitizable(&v),
        Err(_) => true,
    }
}

/// Reads the bytes a client sent on its channel as a payload (invalid UTF-8
/// replaced); `None` where sanitizing would cut a text inside a character,
/// which a byte-range slice cannot do.
pub fn read_client_payload(stdin_data: &[u8], expected_version: &str) -> (r: Option<
    Result<Option<ClientPayload>, String>,
>)
    ensures
        r is Some <==> payload_sanitizable(utf8_lossy(stdin_data@)),
        r matches Some(o) ==> outcome_view(o) == payload_outcome(
            utf8_lossy(stdin_data@),
            expected_version@,
        ),
{
    let text = text_from_bytes(stdin_data);
    if payload_is_sanitizable(text.as_str()) {
        Some(parse_client_payload(text.as_str(), expected_version))
    } else {
        None
    }
}

} // verus!
