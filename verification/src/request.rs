//! The HTTP request model: methods, header maps, and the request-line parser.
use crate::strutil::find_char;
use crate::strutil::lemma_scan_bounds;
use crate::strutil::scan;
use crate::strutil::scan_char;
use crate::strutil::spec_starts_with;
use crate::strutil::str_eq;
use crate::strutil::str_starts_with;
use crate::strutil::trim_spec;
use crate::strutil::trim_str;
use vstd::prelude::*;
use vstd::string::StrSliceExecFns;
use vstd::string::StringExecFns;

verus! {

/// The closed set of request methods; a request-line token is valid only if
/// it matches one of these exactly.
#[allow(clippy::upper_case_acronyms)]
#[derive(Clone, Copy, Debug, PartialEq, Eq, Hash, Structural)]
pub enum Method {
    GET,
    HEAD,
    PUT,
    POST,
    DELETE,
    CONNECT,
    OPTIONS,
    TRACE,
    PATCH,
}

impl Method {
    /// The token that names this method on the wire.
    pub open spec fn spec_name(self) -> Seq<char> {
        match self {
            Method::GET => "GET"@,
            Method::HEAD => "HEAD"@,
            Method::PUT => "PUT"@,
            Method::POST => "POST"@,
            Method::DELETE => "DELETE"@,
            Method::CONNECT => "CONNECT"@,
            Method::OPTIONS => "OPTIONS"@,
            Method::TRACE => "TRACE"@,
            Method::PATCH => "PATCH"@,
        }
    }

    /// Which method, if any, a request-line token names.
    pub open spec fn spec_from_token(t: Seq<char>) -> Option<Method> {
        if t == "GET"@ {
            Some(Method::GET)
        } else if t == "HEAD"@ {
            Some(Method::HEAD)
        } else if t == "PUT"@ {
            Some(Method::PUT)
        } else if t == "POST"@ {
            Some(Method::POST)
        } else if t == "DELETE"@ {
            Some(Method::DELETE)
        } else if t == "CONNECT"@ {
            Some(Method::CONNECT)
        } else if t == "OPTIONS"@ {
            Some(Method::OPTIONS)
        } else if t == "TRACE"@ {
            Some(Method::TRACE)
        } else if t == "PATCH"@ {
            Some(Method::PATCH)
        } else {
            None
        }
    }

    pub fn as_str(&self) -> (r: &'static str)
        ensures
            r@ == self.spec_name(),
    {
        match self {
            Method::GET => "GET",
            Method::HEAD => "HEAD",
            Method::PUT => "PUT",
            Method::POST => "POST",
            Method::DELETE => "DELETE",
            Method::CONNECT => "CONNECT",
            Method::OPTIONS => "OPTIONS",
            Method::TRACE => "TRACE",
            Method::PATCH => "PATCH",
        }
    }

    pub fn parse_token(t: &str) -> (r: Option<Method>)
        ensures
            r == Method::spec_from_token(t@),
    {
        if str_eq(t, "GET") {
            Some(Method::GET)
        } else if str_eq(t, "HEAD") {
            Some(Method::HEAD)
        } else if str_eq(t, "PUT") {
            Some(Method::PUT)
        } else if str_eq(t, "POST") {
            Some(Method::POST)
        } else if str_eq(t, "DELETE") {
            Some(Method::DELETE)
        } else if str_eq(t, "CONNECT") {
            Some(Method::CONNECT)
        } else if str_eq(t, "OPTIONS") {
            Some(Method::OPTIONS)
        } else if str_eq(t, "TRACE") {
            Some(Method::TRACE)
        } else if str_eq(t, "PATCH") {
            Some(Method::PATCH)
        } else {
            None
        }
    }

    pub fn is_get(&self) -> (r: bool)
        ensures
            r == (*self == Method::GET),
    {
        match self {
            Method::GET => true,
            _ => false,
        }
    }
}

/// What `urlencoding::decode` yields for a given character sequence: `None`
/// where the decoded bytes are not valid UTF-8, otherwise the decoded
/// characters. The result is a function of the input alone.
pub uninterp spec fn percent_decoded(s: Seq<char>) -> Option<Seq<char>>;

/// Relies on `urlencoding::decode`: percent-decodes `s` assuming UTF-8, and
/// returns the input unchanged when `s` holds no `'%'`.
#[verifier::external_body]
fn percent_decode(s: &str) -> (r: Option<String>)
    ensures
        (r is Some) == (percent_decoded(s@) is Some),
        r is Some ==> r->Some_0@ == percent_decoded(s@)->Some_0,
        (forall|i: int| 0 <= i < s@.len() ==> s@[i] != '%') ==> (r is Some && r->Some_0@ == s@),
{
    match urlencoding::decode(s) {
        Ok(c) => Some(c.into_owned()),
        Err(_) => None,
    }
}

/// What `str::to_lowercase` yields; the result is a function of the
/// characters alone.
pub uninterp spec fn lower_of(s: Seq<char>) -> Seq<char>;

/// Relies on `str::to_lowercase`: the lowercase equivalent of `s`.
#[verifier::external_body]
fn lowercase(s: &str) -> (r: String)
    ensures
        r@ == lower_of(s@),
        s@.len() == 0 ==> r@.len() == 0,
{
    s.to_lowercase()
}

/// Index of the first pair in `hs` whose key is `k`, or `-1`.
pub open spec fn spec_find_key(hs: Seq<(Seq<char>, Seq<char>)>, k: Seq<char>) -> int
    decreases hs.len(),
{
    if hs.len() == 0 {
        -1
    } else if hs[0].0 == k {
        0
    } else if spec_find_key(hs.drop_first(), k) == -1 {
        -1
    } else {
        spec_find_key(hs.drop_first(), k) + 1
    }
}

/// `hs` with the binding for `k` set to `v`: the first pair keyed `k` is
/// replaced, or a new pair is appended if there is none.
pub open spec fn spec_insert(
    hs: Seq<(Seq<char>, Seq<char>)>,
    k: Seq<char>,
    v: Seq<char>,
) -> Seq<(Seq<char>, Seq<char>)> {
    let i = spec_find_key(hs, k);
    if i >= 0 {
        hs.update(i, (k, v))
    } else {
        hs.push((k, v))
    }
}

/// The value bound to `k` in `hs`, if any.
pub open spec fn spec_get(hs: Seq<(Seq<char>, Seq<char>)>, k: Seq<char>) -> Option<Seq<char>> {
    let i = spec_find_key(hs, k);
    if i >= 0 {
        Some(hs[i].1)
    } else {
        None
    }
}

pub proof fn lemma_find_key_at(hs: Seq<(Seq<char>, Seq<char>)>, k: Seq<char>, i: int)
    requires
        0 <= i <= hs.len(),
        forall|j: int| 0 <= j < i ==> hs[j].0 != k,
        i == hs.len() || hs[i].0 == k,
    ensures
        i < hs.len() ==> spec_find_key(hs, k) == i,
        i == hs.len() ==> spec_find_key(hs, k) == -1,
    decreases hs.len(),
{
    if hs.len() == 0 {
    } else if i == 0 {
    } else {
        assert(hs[0].0 != k);
        lemma_find_key_at(hs.drop_first(), k, i - 1);
    }
}

/// The header map: lower-cased names bound to trimmed values, later writes
/// replacing earlier ones, so keys stay unique.
#[derive(Clone, Debug)]
pub struct Headers {
    pub pairs: Vec<(String, String)>,
}

impl View for Headers {
    type V = Seq<(Seq<char>, Seq<char>)>;

    open spec fn view(&self) -> Seq<(Seq<char>, Seq<char>)> {
        Seq::new(self.pairs@.len(), |i: int| (self.pairs@[i].0@, self.pairs@[i].1@))
    }
}

impl Headers {
    pub fn new() -> (r: Headers)
        ensures
            r@ == Seq::<(Seq<char>, Seq<char>)>::empty(),
    {
        let r = Headers { pairs: Vec::new() };
        proof {
            assert(r@ =~= Seq::<(Seq<char>, Seq<char>)>::empty());
        }
        r
    }

    fn find(&self, k: &str) -> (r: Option<usize>)
        ensures
            match r {
                Some(i) => i as int == spec_find_key(self@, k@) && i < self.pairs@.len(),
                None => spec_find_key(self@, k@) == -1,
            },
    {
        let n = self.pairs.len();
        let mut i: usize = 0;
        while i < n
            invariant
                i <= n,
                n == self.pairs@.len(),
                forall|j: int| 0 <= j < i ==> self@[j].0 != k@,
            decreases n - i,
        {
            if str_eq(self.pairs[i].0.as_str(), k) {
                proof {
                    lemma_find_key_at(self@, k@, i as int);
                }
                return Some(i);
            }
            i += 1;
        }
        proof {
            lemma_find_key_at(self@, k@, n as int);
        }
        None
    }

    /// Binds `k` to `v`, replacing any earlier binding of the same name.
    pub fn insert(&mut self, k: String, v: String)
        ensures
            final(self)@ == spec_insert(old(self)@, k@, v@),
    {
        let found = self.find(k.as_str());
        match found {
            Some(i) => {
                self.pairs.remove(i);
                self.pairs.insert(i, (k, v));
                proof {
                    assert(self@ =~= spec_insert(old(self)@, k@, v@));
                }
            },
            None => {
                self.pairs.push((k, v));
                proof {
                    assert(self@ =~= spec_insert(old(self)@, k@, v@));
                }
            },
        }
    }

    /// The value bound to `k`, if any.
    pub fn get(&self, k: &str) -> (r: Option<&String>)
        ensures
            match r {
                Some(v) => spec_get(self@, k@) == Some(v@),
                None => spec_get(self@, k@) is None,
            },
    {
        let found = self.find(k);
        match found {
            Some(i) => Some(&self.pairs[i].1),
            None => None,
        }
    }

    pub fn len(&self) -> (n: usize)
        ensures
            n == self@.len(),
    {
        self.pairs.len()
    }
}

/// One parse failure for each way a request can be malformed.
#[derive(Clone, Copy, Debug, PartialEq, Eq, Structural)]
pub enum ParseError {
    BadStartLine,
    UnknownMethod,
    TargetNotAbsolute,
    TargetNotDecodable,
    BadVersion,
    BadHeader,
}

/// The mathematical shape of a parsed request.
pub struct ReqModel {
    pub method: Method,
    pub target: Seq<char>,
    pub version: Seq<char>,
    pub headers: Seq<(Seq<char>, Seq<char>)>,
    pub body: Option<Seq<char>>,
}

/// A parsed request; immutable once constructed.
#[derive(Clone, Debug)]
pub struct Request {
    pub method: Method,
    pub target: String,
    pub version: String,
    pub headers: Headers,
    pub body: Option<String>,
}

/// `s` with its leading `'/'` characters removed.
pub open spec fn drop_slashes(s: Seq<char>) -> Seq<char>
    decreases s.len(),
{
    if s.len() > 0 && s[0] == '/' {
        drop_slashes(s.drop_first())
    } else {
        s
    }
}

pub proof fn lemma_drop_slashes_skip(s: Seq<char>, i: int)
    requires
        0 <= i <= s.len(),
        forall|k: int| 0 <= k < i ==> s[k] == '/',
        i == s.len() || s[i] != '/',
    ensures
        drop_slashes(s) == s.skip(i),
    decreases i,
{
    if i == 0 {
        assert(s.skip(0) =~= s);
    } else {
        assert(s[0] == '/');
        assert(s.drop_first() =~= s.skip(1));
        lemma_drop_slashes_skip(s.skip(1), i - 1);
        assert(s.skip(1).skip(i - 1) =~= s.skip(i));
    }
}

/// The start line split into exactly three whitespace-separated tokens, or
/// nothing if there are fewer or more.
pub open spec fn spec_three_tokens(s: Seq<char>) -> Option<(Seq<char>, Seq<char>, Seq<char>)> {
    let a1 = scan(s, 0, false);
    let b1 = scan(s, a1, true);
    let a2 = scan(s, b1, false);
    let b2 = scan(s, a2, true);
    let a3 = scan(s, b2, false);
    let b3 = scan(s, a3, true);
    let a4 = scan(s, b3, false);
    if a1 < s.len() && a2 < s.len() && a3 < s.len() && a4 == s.len() {
        Some((s.subrange(a1, b1), s.subrange(a2, b2), s.subrange(a3, b3)))
    } else {
        None
    }
}

fn three_tokens(s: &str) -> (r: Option<(&str, &str, &str)>)
    ensures
        match r {
            Some(t) => spec_three_tokens(s@) == Some((t.0@, t.1@, t.2@)),
            None => spec_three_tokens(s@) is None,
        },
{
    let n = s.unicode_len();
    proof {
        lemma_scan_bounds(s@, 0, false);
    }
    let a1 = crate::strutil::scan_from(s, 0, false);
    proof {
        lemma_scan_bounds(s@, a1 as int, true);
    }
    let b1 = crate::strutil::scan_from(s, a1, true);
    proof {
        lemma_scan_bounds(s@, b1 as int, false);
    }
    let a2 = crate::strutil::scan_from(s, b1, false);
    proof {
        lemma_scan_bounds(s@, a2 as int, true);
    }
    let b2 = crate::strutil::scan_from(s, a2, true);
    proof {
        lemma_scan_bounds(s@, b2 as int, false);
    }
    let a3 = crate::strutil::scan_from(s, b2, false);
    proof {
        lemma_scan_bounds(s@, a3 as int, true);
    }
    let b3 = crate::strutil::scan_from(s, a3, true);
    proof {
        lemma_scan_bounds(s@, b3 as int, false);
    }
    let a4 = crate::strutil::scan_from(s, b3, false);
    if a1 < n && a2 < n && a3 < n && a4 == n {
        let t1 = s.substring_char(a1, b1);
        let t2 = s.substring_char(a2, b2);
        let t3 = s.substring_char(a3, b3);
        Some((t1, t2, t3))
    } else {
        None
    }
}

/// How the target token is normalized: empty means the root, an absolute
/// token is percent-decoded, anything else is rejected.
pub open spec fn spec_target(t: Seq<char>) -> Result<Seq<char>, ParseError> {
    if t.len() == 0 {
        Ok("/"@)
    } else if t[0] == '/' {
        match percent_decoded(t) {
            Some(d) => Ok(d),
            None => Err(ParseError::TargetNotDecodable),
        }
    } else {
        Err(ParseError::TargetNotAbsolute)
    }
}

/// The header block folded into a map, then the body: a blank line ends the
/// headers, a header line without a colon is an error, and every later
/// non-blank line joins the body.
pub open spec fn spec_headers_body(
    lines: Seq<Seq<char>>,
    acc: Seq<(Seq<char>, Seq<char>)>,
) -> Result<(Seq<(Seq<char>, Seq<char>)>, Option<Seq<char>>), ParseError>
    decreases lines.len(),
{
    if lines.len() == 0 {
        Ok((acc, None))
    } else {
        let l = trim_spec(lines[0]);
        if l.len() == 0 {
            Ok((acc, spec_body(lines.drop_first(), None)))
        } else {
            let ci = scan_char(l, 0, ':');
            if ci == l.len() {
                Err(ParseError::BadHeader)
            } else {
                spec_headers_body(
                    lines.drop_first(),
                    spec_insert(
                        acc,
                        lower_of(trim_spec(l.subrange(0, ci))),
                        trim_spec(l.subrange(ci + 1, l.len() as int)),
                    ),
                )
            }
        }
    }
}

/// The body: every non-blank line after the blank separator, concatenated in
/// order with nothing between; `None` if there is no such line.
pub open spec fn spec_body(lines: Seq<Seq<char>>, acc: Option<Seq<char>>) -> Option<Seq<char>>
    decreases lines.len(),
{
    if lines.len() == 0 {
        acc
    } else if trim_spec(lines[0]).len() == 0 {
        spec_body(lines.drop_first(), acc)
    } else {
        spec_body(
            lines.drop_first(),
            match acc {
                None => Some(lines[0]),
                Some(a) => Some(a + lines[0]),
            },
        )
    }
}

/// What parsing a whole request's lines yields.
pub open spec fn spec_parse(lines: Seq<Seq<char>>) -> Result<ReqModel, ParseError> {
    let start = if lines.len() == 0 {
        Seq::<char>::empty()
    } else {
        lines[0]
    };
    match spec_three_tokens(start) {
        None => Err(ParseError::BadStartLine),
        Some(toks) => match Method::spec_from_token(toks.0) {
            None => Err(ParseError::UnknownMethod),
            Some(method) => match spec_target(toks.1) {
                Err(e) => Err(e),
                Ok(target) => if !spec_starts_with(toks.2, "HTTP/"@) {
                    Err(ParseError::BadVersion)
                } else {
                    match spec_headers_body(lines.drop_first(), Seq::empty()) {
                        Err(e) => Err(e),
                        Ok(hb) => Ok(
                            ReqModel {
                                method,
                                target,
                                version: toks.2,
                                headers: hb.0,
                                body: hb.1,
                            },
                        ),
                    }
                },
            },
        },
    }
}


/// One `name: value` line per header, in order.
pub open spec fn spec_headers_lines(hs: Seq<(Seq<char>, Seq<char>)>) -> Seq<char>
    decreases hs.len(),
{
    if hs.len() == 0 {
        Seq::<char>::empty()
    } else {
        hs[0].0 + ": "@ + hs[0].1 + "\n"@ + spec_headers_lines(hs.drop_first())
    }
}

/// The textual form of a whole request.
pub open spec fn spec_as_string(m: ReqModel) -> Seq<char> {
    m.method.spec_name() + " "@ + m.target + " "@ + m.version + "\n"@ + spec_headers_lines(
        m.headers,
    ) + (match m.body {
        Some(b) => b,
        None => Seq::<char>::empty(),
    })
}

impl Request {
    /// The mathematical value of this request.
    pub open spec fn model(&self) -> ReqModel {
        ReqModel {
            method: self.method,
            target: self.target@,
            version: self.version@,
            headers: self.headers@,
            body: match self.body {
                Some(b) => Some(b@),
                None => None,
            },
        }
    }

    pub fn method(&self) -> (m: Method)
        ensures
            m == self.method,
    {
        self.method
    }

    pub fn target(&self) -> (t: &String)
        ensures
            t@ == self.target@,
    {
        &self.target
    }

    /// The target with its leading slashes removed, for use as a relative
    /// filesystem path.
    pub fn target_as_path(&self) -> (r: &str)
        ensures
            r@ == drop_slashes(self.target@),
    {
        let s = self.target.as_str();
        let n = s.unicode_len();
        let mut i: usize = 0;
        while i < n && s.get_char(i) == '/'
            invariant
                i <= n,
                n == s@.len(),
                forall|k: int| 0 <= k < i ==> s@[k] == '/',
            decreases n - i,
        {
            i += 1;
        }
        proof {
            lemma_drop_slashes_skip(s@, i as int);
            assert(s@.skip(i as int) =~= s@.subrange(i as int, n as int));
        }
        s.substring_char(i, n)
    }

    pub fn version(&self) -> (v: &String)
        ensures
            v@ == self.version@,
    {
        &self.version
    }

    pub fn headers(&self) -> (h: &Headers)
        ensures
            h@ == self.headers@,
    {
        &self.headers
    }

    pub fn body(&self) -> (b: Option<&String>)
        ensures
            match b {
                Some(s) => self.model().body == Some(s@),
                None => self.model().body is None,
            },
    {
        self.body.as_ref()
    }


    /// The request's textual form, for logging: the start line, one line per
    /// header in registration order, then the body.
    #[verifier::loop_isolation(false)]
    pub fn as_string(&self) -> (r: String)
        ensures
            r@ == spec_as_string(self.model()),
    {
        let mut out = self.method.as_str().to_owned();
        out.append(" ");
        out.append(self.target.as_str());
        out.append(" ");
        out.append(self.version.as_str());
        out.append("\n");
        let ghost base = out@;
        let n = self.headers.pairs.len();
        let mut i: usize = 0;
        proof {
            assert(self.headers@.skip(0) =~= self.headers@);
        }
        while i < n
            invariant
                i <= n,
                n == self.headers.pairs@.len(),
                out@ + spec_headers_lines(self.headers@.skip(i as int)) == base
                    + spec_headers_lines(self.headers@),
            decreases n - i,
        {
            proof {
                assert(self.headers@.skip(i as int)[0] == self.headers@[i as int]);
                assert(self.headers@.skip(i as int).drop_first() =~= self.headers@.skip(
                    i as int + 1,
                ));
            }
            let ghost before = out@;
            out.append(self.headers.pairs[i].0.as_str());
            out.append(": ");
            out.append(self.headers.pairs[i].1.as_str());
            out.append("\n");
            proof {
                assert(out@ + spec_headers_lines(self.headers@.skip(i as int + 1)) =~= before
                    + spec_headers_lines(self.headers@.skip(i as int)));
            }
            i += 1;
        }
        proof {
            assert(self.headers@.skip(n as int) =~= Seq::<(Seq<char>, Seq<char>)>::empty());
            assert(out@ + spec_headers_lines(self.headers@.skip(n as int)) =~= out@);
        }
        match &self.body {
            Some(b) => {
                out.append(b.as_str());
            },
            None => {
                proof {
                    assert(out@ + Seq::<char>::empty() =~= out@);
                }
            },
        }
        out
    }

    /// Parses the lines of one request: the start line, then headers up to a
    /// blank line, then the body. Lines carry no terminators.
    #[verifier::loop_isolation(false)]
    pub fn parse(lines: &Vec<String>) -> (r: Result<Request, ParseError>)
        ensures
            r matches Ok(req) ==> spec_parse(lines.deep_view()) == Ok::<ReqModel, ParseError>(
                req.model(),
            ),
            r matches Err(e) ==> spec_parse(lines.deep_view()) == Err::<ReqModel, ParseError>(e),
    {
        let ghost ld = lines.deep_view();
        let n = lines.len();
        let start: &str = if n == 0 {
            ""
        } else {
            lines[0].as_str()
        };
        proof {
            if n == 0 {
                reveal_strlit("");
                assert(""@ =~= Seq::<char>::empty());
            } else {
                assert(ld[0] == lines@[0]@);
            }
        }
        let toks = match three_tokens(start) {
            None => {
                return Err(ParseError::BadStartLine);
            },
            Some(t) => t,
        };
        proof {
            if n == 0 {
                assert(scan(start@, 0, false) == 0);
                assert(spec_three_tokens(start@) is None);
                assert(false);
            }
        }
        let method = match Method::parse_token(toks.0) {
            None => {
                return Err(ParseError::UnknownMethod);
            },
            Some(m) => m,
        };
        let target: String = if toks.1.unicode_len() == 0 {
            String::from_str("/")
        } else if toks.1.get_char(0) == '/' {
            match percent_decode(toks.1) {
                Some(d) => d,
                None => {
                    return Err(ParseError::TargetNotDecodable);
                },
            }
        } else {
            return Err(ParseError::TargetNotAbsolute);
        };
        if !str_starts_with(toks.2, "HTTP/") {
            return Err(ParseError::BadVersion);
        }
        let version = toks.2.to_owned();
        let mut headers = Headers::new();
        let mut i: usize = 1;
        proof {
            assert(ld.skip(1) =~= ld.drop_first());
        }
        while i < n
            invariant
                1 <= i <= n,
                n == lines@.len(),
                ld == lines.deep_view(),
                spec_headers_body(ld.drop_first(), Seq::empty()) == spec_headers_body(
                    ld.skip(i as int),
                    headers@,
                ),
            decreases n - i,
        {
            proof {
                assert(ld.skip(i as int)[0] == lines@[i as int]@);
                assert(ld.skip(i as int).drop_first() =~= ld.skip(i as int + 1));
            }
            let l = trim_str(lines[i].as_str());
            if l.unicode_len() == 0 {
                let mut body: Option<String> = None;
                let mut j = i + 1;
                while j < n
                    invariant
                        i < n,
                        i + 1 <= j <= n,
                        n == lines@.len(),
                        ld == lines.deep_view(),
                        spec_body(ld.skip(i as int + 1), None) == spec_body(
                            ld.skip(j as int),
                            match body {
                                Some(b) => Some(b@),
                                None => None,
                            },
                        ),
                    decreases n - j,
                {
                    proof {
                        assert(ld.skip(j as int)[0] == lines@[j as int]@);
                        assert(ld.skip(j as int).drop_first() =~= ld.skip(j as int + 1));
                    }
                    let t = trim_str(lines[j].as_str());
                    if t.unicode_len() > 0 {
                        body = match body {
                            None => Some(lines[j].clone()),
                            Some(b) => Some(b.concat(lines[j].as_str())),
                        };
                    }
                    j += 1;
                }
                proof {
                    assert(ld.skip(n as int) =~= Seq::<Seq<char>>::empty());
                    let bmodel: Option<Seq<char>> = match &body {
                        Some(b) => Some(b@),
                        None => None,
                    };
                    assert(spec_body(ld.skip(i as int + 1), None) == bmodel);
                    assert(spec_headers_body(ld.skip(i as int), headers@) matches Ok(p)
                        && p.0 == headers@ && p.1 == bmodel);
                }
                return Ok(Request { method, target, version, headers, body });
            }
            let ci = match find_char(l, ':') {
                None => {
                    proof {
                        assert(spec_headers_body(ld.skip(i as int), headers@) matches Err(e2)
                            && e2 == ParseError::BadHeader);
                    }
                    return Err(ParseError::BadHeader);
                },
                Some(c) => c,
            };
            let ln = l.unicode_len();
            let name_raw = l.substring_char(0, ci);
            let value_raw = l.substring_char(ci + 1, ln);
            let name = lowercase(trim_str(name_raw));
            let value = trim_str(value_raw).to_owned();
            headers.insert(name, value);
            i += 1;
        }
        proof {
            assert(ld.skip(n as int) =~= Seq::<Seq<char>>::empty());
            if n == 0 {
                assert(ld.drop_first() =~= Seq::<Seq<char>>::empty());
            }
        }
        Ok(Request { method, target, version, headers, body: None })
    }
}

} // verus!
