//! The wire form of a response: the status line and the framed payload.
use crate::codes::ResponseCode;
use crate::strutil::spec_decimal;
use crate::strutil::u64_to_string;
use vstd::prelude::*;
use vstd::string::StrSliceExecFns;
use vstd::string::StringExecFns;
use vstd::string::StringSliceAdditionalSpecFns;

verus! {

/// The protocol version every response names.
pub const SUPPORTED_HTTP_VERSION: &'static str = "HTTP/1.1";

/// The first line of a response: version, numeric code, symbolic name.
pub struct StatusLine {
    pub version: &'static str,
    pub code: ResponseCode,
}

/// The rendering of a status line.
pub open spec fn spec_status_line(version: Seq<char>, code: ResponseCode) -> Seq<char> {
    version + " "@ + spec_decimal(code.spec_numeric()) + " "@ + code.spec_name()
}

impl StatusLine {
    pub fn new(code: ResponseCode) -> (r: StatusLine)
        ensures
            r.code == code,
            r.version@ == SUPPORTED_HTTP_VERSION@,
    {
        StatusLine { version: SUPPORTED_HTTP_VERSION, code }
    }

    /// Renders the line, e.g. `HTTP/1.1 404 Not_Found`.
    pub fn render(&self) -> (r: String)
        ensures
            r@ == spec_status_line(self.version@, self.code),
    {
        let num = u64_to_string(self.code.numeric() as u64);
        self.version.to_owned().concat(" ").concat(num.as_str()).concat(" ").concat(
            self.code.name_str(),
        )
    }
}

/// The full wire response for `code` and `content`: the status line, a
/// `Content-Length` header counting the content's bytes, a blank line, and
/// the content itself.
pub open spec fn spec_wire_response(code: ResponseCode, content: &str) -> Seq<char> {
    spec_status_line(SUPPORTED_HTTP_VERSION@, code) + "\r\nContent-Length: "@ + spec_decimal(
        content.len() as int,
    ) + "\r\n\r\n"@ + content@
}

/// Frames `content` under `code` for the wire.
pub fn format_response(code: ResponseCode, content: &str) -> (r: String)
    ensures
        r@ == spec_wire_response(code, content),
{
    let line = StatusLine::new(code).render();
    let len = u64_to_string(content.len() as u64);
    line.concat("\r\nContent-Length: ").concat(len.as_str()).concat("\r\n\r\n").concat(content)
}

} // verus!
