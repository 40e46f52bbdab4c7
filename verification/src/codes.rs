//! The closed set of HTTP status codes the server can answer with, and their
//! textual renderings.
use crate::strutil::spec_decimal;
use crate::strutil::u64_to_string;
use vstd::prelude::*;
use vstd::string::StringExecFns;

verus! {

#[allow(non_camel_case_types)]
#[derive(Clone, Copy, Debug, PartialEq, Eq, Structural)]
pub enum ResponseCode {
    Okay,
    Bad_Request,
    Unauthorized,
    Payment_Required,
    Forbidden,
    Not_Found,
    Method_Not_Allowed,
    Not_Acceptable,
    Proxy_Authentication_Required,
    Request_Timeout,
    Conflict,
    Gone,
    Length_Required,
    Internal_Server_Error,
    Not_Implemented,
    Bad_Gateway,
    Service_Unavailable,
    Gateway_Timeout,
    HTTP_Version_Not_Supported,
    Variant_Also_Negotiates,
    Insufficient_Storage,
    Loop_Detected,
    Not_Extended,
    Network_Authentication_Required,
}

/// `s` with every underscore replaced by a space.
pub open spec fn spec_underscores_to_spaces(s: Seq<char>) -> Seq<char> {
    Seq::new(s.len(), |i: int| if s[i] == '_' { ' ' } else { s[i] })
}

impl ResponseCode {
    /// The numeric status value of this code.
    pub open spec fn spec_numeric(self) -> int {
        match self {
            ResponseCode::Okay => 200,
            ResponseCode::Bad_Request => 400,
            ResponseCode::Unauthorized => 401,
            ResponseCode::Payment_Required => 402,
            ResponseCode::Forbidden => 403,
            ResponseCode::Not_Found => 404,
            ResponseCode::Method_Not_Allowed => 405,
            ResponseCode::Not_Acceptable => 406,
            ResponseCode::Proxy_Authentication_Required => 407,
            ResponseCode::Request_Timeout => 408,
            ResponseCode::Conflict => 409,
            ResponseCode::Gone => 410,
            ResponseCode::Length_Required => 411,
            ResponseCode::Internal_Server_Error => 500,
            ResponseCode::Not_Implemented => 501,
            ResponseCode::Bad_Gateway => 502,
            ResponseCode::Service_Unavailable => 503,
            ResponseCode::Gateway_Timeout => 504,
            ResponseCode::HTTP_Version_Not_Supported => 505,
            ResponseCode::Variant_Also_Negotiates => 506,
            ResponseCode::Insufficient_Storage => 507,
            ResponseCode::Loop_Detected => 508,
            ResponseCode::Not_Extended => 510,
            ResponseCode::Network_Authentication_Required => 511,
        }
    }

    /// The symbolic name of this code, as written in the source.
    pub open spec fn spec_name(self) -> Seq<char> {
        match self {
            ResponseCode::Okay => "Ok"@,
            ResponseCode::Bad_Request => "Bad_Request"@,
            ResponseCode::Unauthorized => "Unauthorized"@,
            ResponseCode::Payment_Required => "Payment_Required"@,
            ResponseCode::Forbidden => "Forbidden"@,
            ResponseCode::Not_Found => "Not_Found"@,
            ResponseCode::Method_Not_Allowed => "Method_Not_Allowed"@,
            ResponseCode::Not_Acceptable => "Not_Acceptable"@,
            ResponseCode::Proxy_Authentication_Required => "Proxy_Authentication_Required"@,
            ResponseCode::Request_Timeout => "Request_Timeout"@,
            ResponseCode::Conflict => "Conflict"@,
            ResponseCode::Gone => "Gone"@,
            ResponseCode::Length_Required => "Length_Required"@,
            ResponseCode::Internal_Server_Error => "Internal_Server_Error"@,
            ResponseCode::Not_Implemented => "Not_Implemented"@,
            ResponseCode::Bad_Gateway => "Bad_Gateway"@,
            ResponseCode::Service_Unavailable => "Service_Unavailable"@,
            ResponseCode::Gateway_Timeout => "Gateway_Timeout"@,
            ResponseCode::HTTP_Version_Not_Supported => "HTTP_Version_Not_Supported"@,
            ResponseCode::Variant_Also_Negotiates => "Variant_Also_Negotiates"@,
            ResponseCode::Insufficient_Storage => "Insufficient_Storage"@,
            ResponseCode::Loop_Detected => "Loop_Detected"@,
            ResponseCode::Not_Extended => "Not_Extended"@,
            ResponseCode::Network_Authentication_Required => "Network_Authentication_Required"@,
        }
    }

    /// The reason phrase: the symbolic name with underscores as spaces.
    pub open spec fn spec_reason(self) -> Seq<char> {
        match self {
            ResponseCode::Okay => "Ok"@,
            ResponseCode::Bad_Request => "Bad Request"@,
            ResponseCode::Unauthorized => "Unauthorized"@,
            ResponseCode::Payment_Required => "Payment Required"@,
            ResponseCode::Forbidden => "Forbidden"@,
            ResponseCode::Not_Found => "Not Found"@,
            ResponseCode::Method_Not_Allowed => "Method Not Allowed"@,
            ResponseCode::Not_Acceptable => "Not Acceptable"@,
            ResponseCode::Proxy_Authentication_Required => "Proxy Authentication Required"@,
            ResponseCode::Request_Timeout => "Request Timeout"@,
            ResponseCode::Conflict => "Conflict"@,
            ResponseCode::Gone => "Gone"@,
            ResponseCode::Length_Required => "Length Required"@,
            ResponseCode::Internal_Server_Error => "Internal Server Error"@,
            ResponseCode::Not_Implemented => "Not Implemented"@,
            ResponseCode::Bad_Gateway => "Bad Gateway"@,
            ResponseCode::Service_Unavailable => "Service Unavailable"@,
            ResponseCode::Gateway_Timeout => "Gateway Timeout"@,
            ResponseCode::HTTP_Version_Not_Supported => "HTTP Version Not Supported"@,
            ResponseCode::Variant_Also_Negotiates => "Variant Also Negotiates"@,
            ResponseCode::Insufficient_Storage => "Insufficient Storage"@,
            ResponseCode::Loop_Detected => "Loop Detected"@,
            ResponseCode::Not_Extended => "Not Extended"@,
            ResponseCode::Network_Authentication_Required => "Network Authentication Required"@,
        }
    }

    /// The full rendering: decimal value, a space, the reason phrase.
    pub open spec fn spec_pretty(self) -> Seq<char> {
        spec_decimal(self.spec_numeric()) + " "@ + self.spec_reason()
    }

    pub fn numeric(&self) -> (n: u32)
        ensures
            n as int == self.spec_numeric(),
    {
        match self {
            ResponseCode::Okay => 200,
            ResponseCode::Bad_Request => 400,
            ResponseCode::Unauthorized => 401,
            ResponseCode::Payment_Required => 402,
            ResponseCode::Forbidden => 403,
            ResponseCode::Not_Found => 404,
            ResponseCode::Method_Not_Allowed => 405,
            ResponseCode::Not_Acceptable => 406,
            ResponseCode::Proxy_Authentication_Required => 407,
            ResponseCode::Request_Timeout => 408,
            ResponseCode::Conflict => 409,
            ResponseCode::Gone => 410,
            ResponseCode::Length_Required => 411,
            ResponseCode::Internal_Server_Error => 500,
            ResponseCode::Not_Implemented => 501,
            ResponseCode::Bad_Gateway => 502,
            ResponseCode::Service_Unavailable => 503,
            ResponseCode::Gateway_Timeout => 504,
            ResponseCode::HTTP_Version_Not_Supported => 505,
            ResponseCode::Variant_Also_Negotiates => 506,
            ResponseCode::Insufficient_Storage => 507,
            ResponseCode::Loop_Detected => 508,
            ResponseCode::Not_Extended => 510,
            ResponseCode::Network_Authentication_Required => 511,
        }
    }

    pub fn name_str(&self) -> (r: &'static str)
        ensures
            r@ == self.spec_name(),
    {
        match self {
            ResponseCode::Okay => "Ok",
            ResponseCode::Bad_Request => "Bad_Request",
            ResponseCode::Unauthorized => "Unauthorized",
            ResponseCode::Payment_Required => "Payment_Required",
            ResponseCode::Forbidden => "Forbidden",
            ResponseCode::Not_Found => "Not_Found",
            ResponseCode::Method_Not_Allowed => "Method_Not_Allowed",
            ResponseCode::Not_Acceptable => "Not_Acceptable",
            ResponseCode::Proxy_Authentication_Required => "Proxy_Authentication_Required",
            ResponseCode::Request_Timeout => "Request_Timeout",
            ResponseCode::Conflict => "Conflict",
            ResponseCode::Gone => "Gone",
            ResponseCode::Length_Required => "Length_Required",
            ResponseCode::Internal_Server_Error => "Internal_Server_Error",
            ResponseCode::Not_Implemented => "Not_Implemented",
            ResponseCode::Bad_Gateway => "Bad_Gateway",
            ResponseCode::Service_Unavailable => "Service_Unavailable",
            ResponseCode::Gateway_Timeout => "Gateway_Timeout",
            ResponseCode::HTTP_Version_Not_Supported => "HTTP_Version_Not_Supported",
            ResponseCode::Variant_Also_Negotiates => "Variant_Also_Negotiates",
            ResponseCode::Insufficient_Storage => "Insufficient_Storage",
            ResponseCode::Loop_Detected => "Loop_Detected",
            ResponseCode::Not_Extended => "Not_Extended",
            ResponseCode::Network_Authentication_Required => "Network_Authentication_Required",
        }
    }

    pub fn reason_str(&self) -> (r: &'static str)
        ensures
            r@ == self.spec_reason(),
    {
        match self {
            ResponseCode::Okay => "Ok",
            ResponseCode::Bad_Request => "Bad Request",
            ResponseCode::Unauthorized => "Unauthorized",
            ResponseCode::Payment_Required => "Payment Required",
            ResponseCode::Forbidden => "Forbidden",
            ResponseCode::Not_Found => "Not Found",
            ResponseCode::Method_Not_Allowed => "Method Not Allowed",
            ResponseCode::Not_Acceptable => "Not Acceptable",
            ResponseCode::Proxy_Authentication_Required => "Proxy Authentication Required",
            ResponseCode::Request_Timeout => "Request Timeout",
            ResponseCode::Conflict => "Conflict",
            ResponseCode::Gone => "Gone",
            ResponseCode::Length_Required => "Length Required",
            ResponseCode::Internal_Server_Error => "Internal Server Error",
            ResponseCode::Not_Implemented => "Not Implemented",
            ResponseCode::Bad_Gateway => "Bad Gateway",
            ResponseCode::Service_Unavailable => "Service Unavailable",
            ResponseCode::Gateway_Timeout => "Gateway Timeout",
            ResponseCode::HTTP_Version_Not_Supported => "HTTP Version Not Supported",
            ResponseCode::Variant_Also_Negotiates => "Variant Also Negotiates",
            ResponseCode::Insufficient_Storage => "Insufficient Storage",
            ResponseCode::Loop_Detected => "Loop Detected",
            ResponseCode::Not_Extended => "Not Extended",
            ResponseCode::Network_Authentication_Required => "Network Authentication Required",
        }
    }

    /// Renders the code as its decimal value, a space, and the reason phrase,
    /// e.g. `404 Not Found`.
    pub fn pretty_string(self) -> (r: String)
        ensures
            r@ == self.spec_pretty(),
    {
        let num = u64_to_string(self.numeric() as u64);
        num.concat(" ").concat(self.reason_str())
    }
}

/// Every code's pretty rendering is its decimal value, then a space, then its
/// symbolic name with each underscore replaced by a space.
#[verifier::rlimit(50)]
pub proof fn lemma_pretty_string_shape(c: ResponseCode)
    ensures
        c.spec_pretty() == spec_decimal(c.spec_numeric()) + " "@ + spec_underscores_to_spaces(
            c.spec_name(),
        ),
{
    match c {
        ResponseCode::Okay => {
            reveal_strlit("Ok");
            assert("Ok"@ =~= spec_underscores_to_spaces("Ok"@));
        },
        ResponseCode::Bad_Request => {
            reveal_strlit("Bad_Request");
            reveal_strlit("Bad Request");
            assert("Bad Request"@ =~= spec_underscores_to_spaces("Bad_Request"@));
        },
        ResponseCode::Unauthorized => {
            reveal_strlit("Unauthorized");
            assert("Unauthorized"@ =~= spec_underscores_to_spaces("Unauthorized"@));
        },
        ResponseCode::Payment_Required => {
            reveal_strlit("Payment_Required");
            reveal_strlit("Payment Required");
            assert("Payment Required"@ =~= spec_underscores_to_spaces("Payment_Required"@));
        },
        ResponseCode::Forbidden => {
            reveal_strlit("Forbidden");
            assert("Forbidden"@ =~= spec_underscores_to_spaces("Forbidden"@));
        },
        ResponseCode::Not_Found => {
            reveal_strlit("Not_Found");
            reveal_strlit("Not Found");
            assert("Not Found"@ =~= spec_underscores_to_spaces("Not_Found"@));
        },
        ResponseCode::Method_Not_Allowed => {
            reveal_strlit("Method_Not_Allowed");
            reveal_strlit("Method Not Allowed");
            assert("Method Not Allowed"@ =~= spec_underscores_to_spaces("Method_Not_Allowed"@));
        },
        ResponseCode::Not_Acceptable => {
            reveal_strlit("Not_Acceptable");
            reveal_strlit("Not Acceptable");
            assert("Not Acceptable"@ =~= spec_underscores_to_spaces("Not_Acceptable"@));
        },
        ResponseCode::Proxy_Authentication_Required => {
            reveal_strlit("Proxy_Authentication_Required");
            reveal_strlit("Proxy Authentication Required");
            assert("Proxy Authentication Required"@ =~= spec_underscores_to_spaces(
                "Proxy_Authentication_Required"@,
            ));
        },
        ResponseCode::Request_Timeout => {
            reveal_strlit("Request_Timeout");
            reveal_strlit("Request Timeout");
            assert("Request Timeout"@ =~= spec_underscores_to_spaces("Request_Timeout"@));
        },
        ResponseCode::Conflict => {
            reveal_strlit("Conflict");
            assert("Conflict"@ =~= spec_underscores_to_spaces("Conflict"@));
        },
        ResponseCode::Gone => {
            reveal_strlit("Gone");
            assert("Gone"@ =~= spec_underscores_to_spaces("Gone"@));
        },
        ResponseCode::Length_Required => {
            reveal_strlit("Length_Required");
            reveal_strlit("Length Required");
            assert("Length Required"@ =~= spec_underscores_to_spaces("Length_Required"@));
        },
        ResponseCode::Internal_Server_Error => {
            reveal_strlit("Internal_Server_Error");
            reveal_strlit("Internal Server Error");
            assert("Internal Server Error"@ =~= spec_underscores_to_spaces(
                "Internal_Server_Error"@,
            ));
        },
        ResponseCode::Not_Implemented => {
            reveal_strlit("Not_Implemented");
            reveal_strlit("Not Implemented");
            assert("Not Implemented"@ =~= spec_underscores_to_spaces("Not_Implemented"@));
        },
        ResponseCode::Bad_Gateway => {
            reveal_strlit("Bad_Gateway");
            reveal_strlit("Bad Gateway");
            assert("Bad Gateway"@ =~= spec_underscores_to_spaces("Bad_Gateway"@));
        },
        ResponseCode::Service_Unavailable => {
            reveal_strlit("Service_Unavailable");
            reveal_strlit("Service Unavailable");
            assert("Service Unavailable"@ =~= spec_underscores_to_spaces("Service_Unavailable"@));
        },
        ResponseCode::Gateway_Timeout => {
            reveal_strlit("Gateway_Timeout");
            reveal_strlit("Gateway Timeout");
            assert("Gateway Timeout"@ =~= spec_underscores_to_spaces("Gateway_Timeout"@));
        },
        ResponseCode::HTTP_Version_Not_Supported => {
            reveal_strlit("HTTP_Version_Not_Supported");
            reveal_strlit("HTTP Version Not Supported");
            assert("HTTP Version Not Supported"@ =~= spec_underscores_to_spaces(
                "HTTP_Version_Not_Supported"@,
            ));
        },
        ResponseCode::Variant_Also_Negotiates => {
            reveal_strlit("Variant_Also_Negotiates");
            reveal_strlit("Variant Also Negotiates");
            assert("Variant Also Negotiates"@ =~= spec_underscores_to_spaces(
                "Variant_Also_Negotiates"@,
            ));
        },
        ResponseCode::Insufficient_Storage => {
            reveal_strlit("Insufficient_Storage");
            reveal_strlit("Insufficient Storage");
            assert("Insufficient Storage"@ =~= spec_underscores_to_spaces("Insufficient_Storage"@));
        },
        ResponseCode::Loop_Detected => {
            reveal_strlit("Loop_Detected");
            reveal_strlit("Loop Detected");
            assert("Loop Detected"@ =~= spec_underscores_to_spaces("Loop_Detected"@));
        },
        ResponseCode::Not_Extended => {
            reveal_strlit("Not_Extended");
            reveal_strlit("Not Extended");
            assert("Not Extended"@ =~= spec_underscores_to_spaces("Not_Extended"@));
        },
        ResponseCode::Network_Authentication_Required => {
            reveal_strlit("Network_Authentication_Required");
            reveal_strlit("Network Authentication Required");
            assert("Network Authentication Required"@ =~= spec_underscores_to_spaces(
                "Network_Authentication_Required"@,
            ));
        },
    }
}

} // verus!
