//! HTTP responses of the web server: status lines, headers, content types and JSON errors.
use vstd::prelude::*;
use vstd::string::StringSliceAdditionalSpecFns;
use vstd::utf8::encode_utf8;

use crate::text::{after_last_dot, decimal, eq_lit, extension_chars, push_decimal};

verus! {

/// The port the server listens on unless configured otherwise.
pub const DEFAULT_PORT: u16 = 3456;

/// The reason phrase of a status code.
pub open spec fn status_text_spec(status: u16) -> Seq<char> {
    if status == 200 {
        "OK"@
    } else if status == 201 {
        "Created"@
    } else if status == 204 {
        "No Content"@
    } else if status == 400 {
        "Bad Request"@
    } else if status == 401 {
        "Unauthorized"@
    } else if status == 403 {
        "Forbidden"@
    } else if status == 404 {
        "Not Found"@
    } else if status == 405 {
        "Method Not Allowed"@
    } else if status == 500 {
        "Internal Server Error"@
    } else {
        "Unknown"@
    }
}

/// The reason phrase of a status code.
pub fn status_text(status: u16) -> (r: &'static str)
    ensures
        r@ == status_text_spec(status),
{
    match status {
        200 => "OK",
        201 => "Created",
        204 => "No Content",
        400 => "Bad Request",
        401 => "Unauthorized",
        403 => "Forbidden",
        404 => "Not Found",
        405 => "Method Not Allowed",
        500 => "Internal Server Error",
        _ => "Unknown",
    }
}

/// The content type served for a file extension.
pub open spec fn mime_for_extension(e: Seq<char>) -> Seq<char> {
    if e == "html"@ || e == "htm"@ {
        "text/html; charset=utf-8"@
    } else if e == "css"@ {
        "text/css; charset=utf-8"@
    } else if e == "js"@ || e == "mjs"@ {
        "application/javascript; charset=utf-8"@
    } else if e == "json"@ {
        "application/json; charset=utf-8"@
    } else if e == "png"@ {
        "image/png"@
    } else if e == "jpg"@ || e == "jpeg"@ {
        "image/jpeg"@
    } else if e == "gif"@ {
        "image/gif"@
    } else if e == "svg"@ {
        "image/svg+xml"@
    } else if e == "ico"@ {
        "image/x-icon"@
    } else if e == "woff"@ {
        "font/woff"@
    } else if e == "woff2"@ {
        "font/woff2"@
    } else if e == "ttf"@ {
        "font/ttf"@
    } else if e == "otf"@ {
        "font/otf"@
    } else if e == "webp"@ {
        "image/webp"@
    } else if e == "webm"@ {
        "video/webm"@
    } else if e == "mp4"@ {
        "video/mp4"@
    } else if e == "mp3"@ {
        "audio/mpeg"@
    } else if e == "wasm"@ {
        "application/wasm"@
    } else if e == "xml"@ {
        "application/xml; charset=utf-8"@
    } else if e == "txt"@ {
        "text/plain; charset=utf-8"@
    } else if e == "csv"@ {
        "text/csv; charset=utf-8"@
    } else if e == "pdf"@ {
        "application/pdf"@
    } else if e == "zip"@ {
        "application/zip"@
    } else if e == "gz"@ || e == "gzip"@ {
        "application/gzip"@
    } else if e == "map"@ {
        "application/json"@
    } else {
        "application/octet-stream"@
    }
}

/// The content type of a file, by the extension after the last `.` of its path.
pub fn mime_type(path: &str) -> (r: &'static str)
    ensures
        r@ == mime_for_extension(after_last_dot(path@)),
{
    let e = extension_chars(path);
    if eq_lit(&e, "html") || eq_lit(&e, "htm") {
        "text/html; charset=utf-8"
    } else if eq_lit(&e, "css") {
        "text/css; charset=utf-8"
    } else if eq_lit(&e, "js") || eq_lit(&e, "mjs") {
        "application/javascript; charset=utf-8"
    } else if eq_lit(&e, "json") {
        "application/json; charset=utf-8"
    } else if eq_lit(&e, "png") {
        "image/png"
    } else if eq_lit(&e, "jpg") || eq_lit(&e, "jpeg") {
        "image/jpeg"
    } else if eq_lit(&e, "gif") {
        "image/gif"
    } else if eq_lit(&e, "svg") {
        "image/svg+xml"
    } else if eq_lit(&e, "ico") {
        "image/x-icon"
    } else if eq_lit(&e, "woff") {
        "font/woff"
    } else if eq_lit(&e, "woff2") {
        "font/woff2"
    } else if eq_lit(&e, "ttf") {
        "font/ttf"
    } else if eq_lit(&e, "otf") {
        "font/otf"
    } else if eq_lit(&e, "webp") {
        "image/webp"
    } else if eq_lit(&e, "webm") {
        "video/webm"
    } else if eq_lit(&e, "mp4") {
        "video/mp4"
    } else if eq_lit(&e, "mp3") {
        "audio/mpeg"
    } else if eq_lit(&e, "wasm") {
        "application/wasm"
    } else if eq_lit(&e, "xml") {
        "application/xml; charset=utf-8"
    } else if eq_lit(&e, "txt") {
        "text/plain; charset=utf-8"
    } else if eq_lit(&e, "csv") {
        "text/csv; charset=utf-8"
    } else if eq_lit(&e, "pdf") {
        "application/pdf"
    } else if eq_lit(&e, "zip") {
        "application/zip"
    } else if eq_lit(&e, "gz") || eq_lit(&e, "gzip") {
        "application/gzip"
    } else if eq_lit(&e, "map") {
        "application/json"
    } else {
        "application/octet-stream"
    }
}

/// The headers that let any origin call the API.
pub open spec fn cors_headers() -> Seq<char> {
    "Access-Control-Allow-Origin: *\r\nAccess-Control-Allow-Methods: GET, POST, PUT, DELETE, OPTIONS\r\nAccess-Control-Allow-Headers: Content-Type, Authorization\r\n"@
}

/// A complete HTTP/1.1 response: status line, content type, the body's length in bytes,
/// the CORS headers, a blank line and the body.
pub open spec fn response_text(status: u16, content_type: Seq<char>, body: Seq<char>) -> Seq<char> {
    "HTTP/1.1 "@ + decimal(status as nat) + " "@ + status_text_spec(status) + "\r\nContent-Type: "@
        + content_type + "\r\nContent-Length: "@ + decimal(encode_utf8(body).len() as usize as nat) + "\r\n"@
        + cors_headers() + "\r\n"@ + body
}

/// A complete HTTP/1.1 response with the given status, content type and body.
pub fn http_response(status: u16, content_type: &str, body: &str) -> (r: String)
    ensures
        r@ == response_text(status, content_type@, body@),
{
    let mut s = String::from_str("HTTP/1.1 ");
    push_decimal(&mut s, status as u64);
    s.append(" ");
    s.append(status_text(status));
    s.append("\r\nContent-Type: ");
    s.append(content_type);
    s.append("\r\nContent-Length: ");
    push_decimal(&mut s, body.len() as u64);
    s.append("\r\n");
    s.append(
        "Access-Control-Allow-Origin: *\r\nAccess-Control-Allow-Methods: GET, POST, PUT, DELETE, OPTIONS\r\nAccess-Control-Allow-Headers: Content-Type, Authorization\r\n",
    );
    s.append("\r\n");
    s.append(body);
    s
}

/// The answer to a CORS preflight request.
pub open spec fn preflight_text() -> Seq<char> {
    "HTTP/1.1 204 No Content\r\nAccess-Control-Allow-Origin: *\r\nAccess-Control-Allow-Headers: Content-Type, Authorization\r\nAccess-Control-Allow-Methods: GET, POST, PUT, DELETE, OPTIONS\r\nAccess-Control-Max-Age: 86400\r\nContent-Length: 0\r\n\r\n"@
}

/// The answer to a CORS preflight request.
pub fn cors_preflight_response() -> (r: String)
    ensures
        r@ == preflight_text(),
{
    String::from_str(
        "HTTP/1.1 204 No Content\r\nAccess-Control-Allow-Origin: *\r\nAccess-Control-Allow-Headers: Content-Type, Authorization\r\nAccess-Control-Allow-Methods: GET, POST, PUT, DELETE, OPTIONS\r\nAccess-Control-Max-Age: 86400\r\nContent-Length: 0\r\n\r\n",
    )
}

/// The lower-case hexadecimal digits.
pub open spec fn hex_digits_lower() -> Seq<char> {
    seq!['0', '1', '2', '3', '4', '5', '6', '7', '8', '9', 'a', 'b', 'c', 'd', 'e', 'f']
}

/// How `serde_json` writes one character inside a string literal: a quote and a
/// backslash behind a backslash, backspace, form feed, line feed, carriage return and
/// tab as `\b`, `\f`, `\n`, `\r`, `\t`, the other control characters below 0x20 as
/// `\u00` and two lower-case hex digits, and every other character as it is.
pub open spec fn json_char(c: char) -> Seq<char> {
    if c == '"' {
        seq!['\\', '"']
    } else if c == '\\' {
        seq!['\\', '\\']
    } else if c == '\u{8}' {
        seq!['\\', 'b']
    } else if c == '\u{c}' {
        seq!['\\', 'f']
    } else if c == '\n' {
        seq!['\\', 'n']
    } else if c == '\r' {
        seq!['\\', 'r']
    } else if c == '\t' {
        seq!['\\', 't']
    } else if (c as int) < 0x20 {
        seq!['\\', 'u', '0', '0', hex_digits_lower()[(c as int) / 16], hex_digits_lower()[(c as int) % 16]]
    } else {
        seq![c]
    }
}

/// The escaped characters of a text, in order.
pub open spec fn json_chars(s: Seq<char>) -> Seq<char>
    decreases s.len(),
{
    if s.len() == 0 {
        Seq::empty()
    } else {
        json_chars(s.drop_last()) + json_char(s.last())
    }
}

/// The JSON string literal that `serde_json` writes for a text: the escaped characters
/// between double quotes.
pub open spec fn json_string(s: Seq<char>) -> Seq<char> {
    seq!['"'] + json_chars(s) + seq!['"']
}

/// Calls `serde_json::to_string` on a `&str`, which never fails for a string: its JSON
/// string literal, escaped as its serializer's escape table says.
#[verifier::external_body]
pub(crate) fn json_quote(s: &str) -> (r: String)
    ensures
        r@ == json_string(s@),
{
    serde_json::to_string(s).unwrap_or_default()
}

/// The JSON body of an error: an object whose one field `error` holds the message.
pub open spec fn error_body(message: Seq<char>) -> Seq<char> {
    "{\"error\":"@ + json_string(message) + "}"@
}

/// An error response: the status and a JSON object holding the message.
pub fn json_error(status: u16, message: &str) -> (r: String)
    ensures
        r@ == response_text(status, "application/json"@, error_body(message@)),
{
    let mut body = String::from_str("{\"error\":");
    let quoted = json_quote(message);
    body.append(quoted.as_str());
    body.append("}");
    http_response(status, "application/json", body.as_str())
}

} // verus!
