//! The route table: registration, lookup, static-path containment, and the
//! dispatch decision for every request.
//!
//! Filesystem work (canonicalizing paths, reading files) happens outside this
//! library. The table's `apply` is a decision function: fed the request and
//! the latest filesystem event, it answers with the next action — respond,
//! read a file, or probe a path — and the caller performs it.
use crate::codes::ResponseCode;
use crate::request::drop_slashes;
use crate::request::Method;
use crate::request::ReqModel;
use crate::request::Request;
use crate::strutil::spec_starts_with;
use crate::strutil::str_eq;
use crate::strutil::str_starts_with;
use vstd::prelude::*;
use vstd::string::StrSliceExecFns;
use vstd::string::StringExecFns;

verus! {

/// The mathematical value of a response.
pub struct RespModel {
    pub content: Seq<char>,
    pub code: ResponseCode,
    pub logging: bool,
    pub context: Option<Seq<char>>,
}

/// What a route answers: content, a status code, and whether the exchange
/// must be logged, with optional context.
#[derive(Clone, Debug)]
pub struct RouteResponse {
    pub content: String,
    pub response_code: ResponseCode,
    pub require_logging: bool,
    pub logging_context: Option<String>,
}

impl RouteResponse {
    pub open spec fn model(&self) -> RespModel {
        RespModel {
            content: self.content@,
            code: self.response_code,
            logging: self.require_logging,
            context: match self.logging_context {
                Some(c) => Some(c@),
                None => None,
            },
        }
    }

    /// A response that needs no logging.
    pub fn new_ok(content: String, response_code: ResponseCode) -> (r: RouteResponse)
        ensures
            r.model() == (RespModel {
                content: content@,
                code: response_code,
                logging: false,
                context: None::<Seq<char>>,
            }),
    {
        RouteResponse { content, response_code, require_logging: false, logging_context: None }
    }

    /// A response that must be logged, with optional context.
    pub fn new_logging(
        content: String,
        response_code: ResponseCode,
        logging_context: Option<String>,
    ) -> (r: RouteResponse)
        ensures
            r.model() == (RespModel {
                content: content@,
                code: response_code,
                logging: true,
                context: match logging_context {
                    Some(c) => Some(c@),
                    None => None,
                },
            }),
    {
        RouteResponse { content, response_code, require_logging: true, logging_context }
    }

    pub fn code(&self) -> (c: ResponseCode)
        ensures
            c == self.response_code,
    {
        self.response_code
    }

    pub fn content(&self) -> (c: &str)
        ensures
            c@ == self.content@,
    {
        self.content.as_str()
    }

    pub fn should_log(&self) -> (b: bool)
        ensures
            b == self.require_logging,
    {
        self.require_logging
    }

    pub fn context(&self) -> (c: Option<&String>)
        ensures
            match c {
                Some(s) => self.model().context == Some(s@),
                None => self.model().context is None,
            },
    {
        self.logging_context.as_ref()
    }
}

/// The failure a dynamic route may answer with.
#[derive(Clone, Debug)]
pub struct HandlerError {
    pub message: String,
}

/// A user-supplied dynamic route. The table invokes it and passes its result
/// on verbatim; it may block as long as it likes.
pub trait Handler: Sized {
    fn handle(&self, request: &Request) -> Result<RouteResponse, HandlerError>;
}

/// One registered handler: a file to read, fixed content, or user code.
#[derive(Clone, Debug)]
pub enum Route<H> {
    Static(String, Option<ResponseCode>),
    Plain(String, Option<ResponseCode>),
    Dynamic(H),
}

/// The mathematical value of a route; dynamic handlers are opaque.
pub enum RouteModel {
    Static(Seq<char>, Option<ResponseCode>),
    Plain(Seq<char>, Option<ResponseCode>),
    Dynamic,
}

impl<H> Route<H> {
    pub open spec fn model(&self) -> RouteModel {
        match self {
            Route::Static(p, c) => RouteModel::Static(p@, *c),
            Route::Plain(content, c) => RouteModel::Plain(content@, *c),
            Route::Dynamic(_) => RouteModel::Dynamic,
        }
    }
}

/// One row of the table: a `(method, target)` key and its route.
#[derive(Clone, Debug)]
pub struct RouteEntry<H> {
    pub method: Method,
    pub target: String,
    pub route: Route<H>,
}

pub struct EntryModel {
    pub method: Method,
    pub target: Seq<char>,
    pub route: RouteModel,
}

impl<H> RouteEntry<H> {
    pub open spec fn model(&self) -> EntryModel {
        EntryModel { method: self.method, target: self.target@, route: self.route.model() }
    }
}

pub open spec fn entries_model<H>(s: Seq<RouteEntry<H>>) -> Seq<EntryModel> {
    Seq::new(s.len(), |i: int| s[i].model())
}

/// The route table. Built once at startup, then shared read-only.
#[derive(Clone, Debug)]
pub struct Routes<H> {
    pub map: Vec<RouteEntry<H>>,
    pub four_oh_four: Option<Route<H>>,
    pub four_oh_five: Option<Route<H>>,
    pub static_dir: Option<String>,
    pub auto_index: bool,
}

pub struct RoutesModel {
    pub entries: Seq<EntryModel>,
    pub four_oh_four: Option<RouteModel>,
    pub four_oh_five: Option<RouteModel>,
    pub static_dir: Option<Seq<char>>,
    pub auto_index: bool,
}

impl<H> Routes<H> {
    pub open spec fn model(&self) -> RoutesModel {
        RoutesModel {
            entries: entries_model(self.map@),
            four_oh_four: match self.four_oh_four {
                Some(r) => Some(r.model()),
                None => None,
            },
            four_oh_five: match self.four_oh_five {
                Some(r) => Some(r.model()),
                None => None,
            },
            static_dir: match self.static_dir {
                Some(d) => Some(d@),
                None => None,
            },
            auto_index: self.auto_index,
        }
    }
}

/// Every registered `(method, target)` key appears at most once.
pub open spec fn table_wf(m: RoutesModel) -> bool {
    forall|i: int, j: int|
        0 <= i < j < m.entries.len() ==> !(m.entries[i].method == m.entries[j].method
            && m.entries[i].target == m.entries[j].target)
}

/// The route bound to `(m, t)`: the first matching row, which with
/// `table_wf` is the only one.
pub open spec fn spec_find_route(entries: Seq<EntryModel>, m: Method, t: Seq<char>) -> Option<
    RouteModel,
>
    decreases entries.len(),
{
    if entries.len() == 0 {
        None
    } else if entries[0].method == m && entries[0].target == t {
        Some(entries[0].route)
    } else {
        spec_find_route(entries.drop_first(), m, t)
    }
}

pub proof fn lemma_find_route_none(entries: Seq<EntryModel>, m: Method, t: Seq<char>)
    ensures
        (spec_find_route(entries, m, t) is None) == (forall|i: int|
            0 <= i < entries.len() ==> !(entries[i].method == m && entries[i].target == t)),
    decreases entries.len(),
{
    if entries.len() > 0 {
        lemma_find_route_none(entries.drop_first(), m, t);
        assert(forall|i: int|
            1 <= i < entries.len() ==> entries.drop_first()[i - 1] == entries[i]);
    }
}


/// What registering one dynamic handler under several methods comes to:
/// rows are added left to right until a key is already taken, which stops
/// the registration there with a failure.
pub open spec fn spec_add_dynamic(
    entries: Seq<EntryModel>,
    target: Seq<char>,
    methods: Seq<Method>,
) -> (Seq<EntryModel>, bool)
    decreases methods.len(),
{
    if methods.len() == 0 {
        (entries, true)
    } else if spec_find_route(entries, methods[0], target) is Some {
        (entries, false)
    } else {
        spec_add_dynamic(
            entries.push(
                EntryModel { method: methods[0], target, route: RouteModel::Dynamic },
            ),
            target,
            methods.drop_first(),
        )
    }
}

/// Errors at registration time: the key is already taken.
#[derive(Clone, Copy, Debug, PartialEq, Eq, Structural)]
pub enum RegisterError {
    TargetExists,
}

/// Errors at request time: a dynamic route failed, or the caller reported a
/// file it could not read.
#[derive(Clone, Debug)]
pub enum RouteError {
    Handler(HandlerError),
    FileUnreadable,
}

/// What the caller learned when it tried to canonicalize the candidate path.
#[derive(Clone, Debug)]
pub enum ProbeOutcome {
    Unresolved { exists: bool },
    Resolved { canonical: String, exists: bool, is_dir: bool },
}

pub enum ProbeModel {
    Unresolved { exists: bool },
    Resolved { canonical: Seq<char>, exists: bool, is_dir: bool },
}

impl ProbeOutcome {
    pub open spec fn model(&self) -> ProbeModel {
        match self {
            ProbeOutcome::Unresolved { exists } => ProbeModel::Unresolved { exists: *exists },
            ProbeOutcome::Resolved { canonical, exists, is_dir } => ProbeModel::Resolved {
                canonical: canonical@,
                exists: *exists,
                is_dir: *is_dir,
            },
        }
    }
}

/// What the caller feeds `apply`: the initial request, a probe result, or the
/// outcome of a file read it was asked for.
#[derive(Clone, Debug)]
pub enum FsEvent {
    Start,
    Probed { boundary: String, outcome: ProbeOutcome },
    FileRead { code: ResponseCode, content: Option<String> },
}

pub enum EventModel {
    Start,
    Probed { boundary: Seq<char>, outcome: ProbeModel },
    FileRead { code: ResponseCode, content: Option<Seq<char>> },
}

impl FsEvent {
    pub open spec fn model(&self) -> EventModel {
        match self {
            FsEvent::Start => EventModel::Start,
            FsEvent::Probed { boundary, outcome } => EventModel::Probed {
                boundary: boundary@,
                outcome: outcome.model(),
            },
            FsEvent::FileRead { code, content } => EventModel::FileRead {
                code: *code,
                content: match content {
                    Some(c) => Some(c@),
                    None => None,
                },
            },
        }
    }
}

/// What `apply` answers: a finished response, a file to read, or a path to
/// canonicalize and probe.
#[derive(Clone, Debug)]
pub enum FsAction {
    Respond(RouteResponse),
    Read { path: String, code: ResponseCode },
    Probe { dir: String, rest: String },
}

/// The mathematical value of an action; `Dynamic` stands for whatever a
/// user handler answered, `ReadFailed` for a failed file read.
pub enum ActModel {
    Respond(RespModel),
    Read { path: Seq<char>, code: ResponseCode },
    Probe { dir: Seq<char>, rest: Seq<char> },
    Dynamic,
    ReadFailed,
}

impl FsAction {
    pub open spec fn model(&self) -> ActModel {
        match self {
            FsAction::Respond(r) => ActModel::Respond(r.model()),
            FsAction::Read { path, code } => ActModel::Read { path: path@, code: *code },
            FsAction::Probe { dir, rest } => ActModel::Probe { dir: dir@, rest: rest@ },
        }
    }
}

/// How an executable result realizes a decided action: exact for responses,
/// reads and probes; a dynamic decision admits whatever the handler answered.
pub open spec fn act_matches(r: Result<FsAction, RouteError>, d: ActModel) -> bool {
    match d {
        ActModel::Dynamic => (r matches Ok(a) && a is Respond) || (r matches Err(e)
            && e is Handler),
        ActModel::ReadFailed => r matches Err(e) && e is FileUnreadable,
        _ => r matches Ok(a) && a.model() == d,
    }
}

/// The requested code, or 200 when none was given.
pub open spec fn spec_code_or_ok(c: Option<ResponseCode>) -> ResponseCode {
    match c {
        Some(x) => x,
        None => ResponseCode::Okay,
    }
}

/// What executing a route comes to: a read for a file route, the fixed
/// content for a plain route, the handler's answer for a dynamic one.
pub open spec fn spec_run_route(route: RouteModel) -> ActModel {
    match route {
        RouteModel::Static(p, c) => ActModel::Read { path: p, code: spec_code_or_ok(c) },
        RouteModel::Plain(content, c) => ActModel::Respond(
            RespModel {
                content,
                code: spec_code_or_ok(c),
                logging: false,
                context: None::<Seq<char>>,
            },
        ),
        RouteModel::Dynamic => ActModel::Dynamic,
    }
}

/// The built-in not-found response.
pub open spec fn spec_builtin_404() -> RespModel {
    RespModel {
        content: "404 Not Found"@,
        code: ResponseCode::Not_Found,
        logging: false,
        context: None::<Seq<char>>,
    }
}

/// The message of the built-in wrong-method response.
pub open spec fn spec_405_message(got: Method, expecting: Method) -> Seq<char> {
    "Method: "@ + got.spec_name() + ", not allowed. Expecting: "@ + expecting.spec_name()
        + ", instead."@
}

/// The containment-violation response: always logged.
pub open spec fn spec_forbidden() -> RespModel {
    RespModel {
        content: "Forbidden"@,
        code: ResponseCode::Forbidden,
        logging: true,
        context: Some("Invalid path traversal"@),
    }
}

/// The not-found fallback: the registered override, or the built-in answer.
pub open spec fn spec_fallback_404(m: RoutesModel) -> ActModel {
    match m.four_oh_four {
        Some(r) => spec_run_route(r),
        None => ActModel::Respond(spec_builtin_404()),
    }
}

/// The wrong-method fallback: the registered override, or the built-in
/// answer, which names both methods and is always logged.
pub open spec fn spec_fallback_405(m: RoutesModel, got: Method, expecting: Method) -> ActModel {
    match m.four_oh_five {
        Some(r) => spec_run_route(r),
        None => ActModel::Respond(
            RespModel {
                content: spec_405_message(got, expecting),
                code: ResponseCode::Method_Not_Allowed,
                logging: true,
                context: Some(spec_405_message(got, expecting)),
            },
        ),
    }
}

/// The directory answer: not found when listing is off or nothing is there,
/// an internal error when the path is no directory after all, otherwise the
/// fixed listing-unavailable notice.
pub open spec fn spec_auto_index(m: RoutesModel, exists: bool, is_dir: bool) -> ActModel {
    if !m.auto_index || !exists {
        spec_fallback_404(m)
    } else if !is_dir {
        ActModel::Respond(
            RespModel {
                content: "Internal Server Error"@,
                code: ResponseCode::Internal_Server_Error,
                logging: false,
                context: None::<Seq<char>>,
            },
        )
    } else {
        ActModel::Respond(
            RespModel {
                content: "Sorry! Directory Auto-Index is not yet available."@,
                code: ResponseCode::Not_Implemented,
                logging: false,
                context: None::<Seq<char>>,
            },
        )
    }
}

/// The part of the target below the mount directory, if the target (less its
/// leading slashes) begins with the mount path.
pub open spec fn strip_under(target: Seq<char>, dir: Seq<char>) -> Option<Seq<char>> {
    let p = drop_slashes(target);
    if p.len() >= dir.len() && p.subrange(0, dir.len() as int) == dir {
        Some(p.skip(dir.len() as int))
    } else {
        None
    }
}

/// The containment boundary: `candidate` is `boundary` itself or lies below
/// it. A candidate that merely extends the boundary's last component (such as
/// a sibling whose name shares the prefix) is outside.
pub open spec fn path_within(boundary: Seq<char>, candidate: Seq<char>) -> bool {
    candidate == boundary || (boundary.len() > 0 && boundary[boundary.len() - 1] == '/'
        && spec_starts_with(candidate, boundary)) || (candidate.len() > boundary.len()
        && candidate.subrange(0, boundary.len() as int) == boundary
        && candidate[boundary.len() as int] == '/')
}

pub fn path_within_check(boundary: &str, candidate: &str) -> (r: bool)
    ensures
        r == path_within(boundary@, candidate@),
{
    if str_eq(candidate, boundary) {
        return true;
    }
    let bl = boundary.unicode_len();
    let cl = candidate.unicode_len();
    if bl > 0 && boundary.get_char(bl - 1) == '/' && str_starts_with(candidate, boundary) {
        return true;
    }
    if cl > bl && str_starts_with(candidate, boundary) && candidate.get_char(bl) == '/' {
        return true;
    }
    false
}

/// The dispatch decision: what the table does with `req` given the latest
/// filesystem event.
pub open spec fn spec_decide(m: RoutesModel, req: ReqModel, ev: EventModel) -> ActModel {
    match ev {
        EventModel::Start => match spec_find_route(m.entries, req.method, req.target) {
            Some(r) => spec_run_route(r),
            None => match m.static_dir {
                Some(dir) => match strip_under(req.target, dir) {
                    Some(rest) => if req.method != Method::GET {
                        spec_fallback_405(m, req.method, Method::GET)
                    } else {
                        ActModel::Probe { dir, rest }
                    },
                    None => spec_fallback_404(m),
                },
                None => spec_fallback_404(m),
            },
        },
        EventModel::Probed { boundary, outcome } => match outcome {
            ProbeModel::Unresolved { .. } => spec_fallback_404(m),
            ProbeModel::Resolved { canonical, exists, is_dir } => if !path_within(
                boundary,
                canonical,
            ) {
                ActModel::Respond(spec_forbidden())
            } else if !exists {
                spec_fallback_404(m)
            } else if is_dir {
                spec_auto_index(m, exists, is_dir)
            } else {
                ActModel::Read { path: canonical, code: ResponseCode::Okay }
            },
        },
        EventModel::FileRead { code, content } => match content {
            Some(c) => ActModel::Respond(
                RespModel { content: c, code, logging: false, context: None::<Seq<char>> },
            ),
            None => ActModel::ReadFailed,
        },
    }
}

impl<H: Handler> Routes<H> {
    /// An empty table: no routes, no overrides, no static directory, listing
    /// off.
    pub fn new() -> (r: Routes<H>)
        ensures
            r.model() == (RoutesModel {
                entries: Seq::<EntryModel>::empty(),
                four_oh_four: None::<RouteModel>,
                four_oh_five: None::<RouteModel>,
                static_dir: None::<Seq<char>>,
                auto_index: false,
            }),
            table_wf(r.model()),
    {
        let r = Routes {
            map: Vec::new(),
            four_oh_four: None,
            four_oh_five: None,
            static_dir: None,
            auto_index: false,
        };
        proof {
            assert(r.model().entries =~= Seq::<EntryModel>::empty());
        }
        r
    }

    #[verifier::loop_isolation(false)]
    fn find_index(&self, m: Method, t: &str) -> (r: Option<usize>)
        ensures
            match r {
                Some(i) => i < self.map@.len() && spec_find_route(
                    self.model().entries,
                    m,
                    t@,
                ) == Some(self.model().entries[i as int].route),
                None => spec_find_route(self.model().entries, m, t@) is None,
            },
    {
        let ghost em = self.model().entries;
        proof {
            assert(em.skip(0) =~= em);
        }
        let n = self.map.len();
        let mut i: usize = 0;
        while i < n
            invariant
                i <= n,
                spec_find_route(em, m, t@) == spec_find_route(em.skip(i as int), m, t@),
            decreases n - i,
        {
            proof {
                assert(em.skip(i as int)[0] == em[i as int]);
                assert(em.skip(i as int).drop_first() =~= em.skip(i as int + 1));
            }
            if self.map[i].method == m && str_eq(self.map[i].target.as_str(), t) {
                return Some(i);
            }
            i += 1;
        }
        proof {
            assert(em.skip(n as int) =~= Seq::<EntryModel>::empty());
        }
        None
    }

    /// Registers a file route under `GET target`; fails without changing the
    /// table when the key is taken.
    pub fn add_static(&mut self, target: String, path: String, code: Option<ResponseCode>) -> (r:
        Result<(), RegisterError>)
        ensures
            match r {
                Ok(_) => spec_find_route(old(self).model().entries, Method::GET, target@) is None
                    && final(self).model() == (RoutesModel {
                    entries: old(self).model().entries.push(
                        EntryModel {
                            method: Method::GET,
                            target: target@,
                            route: RouteModel::Static(path@, code),
                        },
                    ),
                    ..old(self).model()
                }),
                Err(e) => e == RegisterError::TargetExists && spec_find_route(
                    old(self).model().entries,
                    Method::GET,
                    target@,
                ) is Some && *final(self) == *old(self),
            },
            table_wf(old(self).model()) && r is Ok ==> table_wf(final(self).model()),
    {
        let found = self.find_index(Method::GET, target.as_str());
        if found.is_some() {
            return Err(RegisterError::TargetExists);
        }
        let ghost oldm = self.model();
        let entry = RouteEntry { method: Method::GET, target, route: Route::Static(path, code) };
        let ghost em = entry.model();
        self.map.push(entry);
        proof {
            assert(self.model().entries =~= oldm.entries.push(em));
            if table_wf(oldm) {
                lemma_find_route_none(oldm.entries, Method::GET, em.target);
                assert(table_wf(self.model()));
            }
        }
        Ok(())
    }

    /// Registers a fixed-content route under `GET target`; fails without
    /// changing the table when the key is taken.
    pub fn add_plain(&mut self, target: String, content: String, code: Option<ResponseCode>) -> (r:
        Result<(), RegisterError>)
        ensures
            match r {
                Ok(_) => spec_find_route(old(self).model().entries, Method::GET, target@) is None
                    && final(self).model() == (RoutesModel {
                    entries: old(self).model().entries.push(
                        EntryModel {
                            method: Method::GET,
                            target: target@,
                            route: RouteModel::Plain(content@, code),
                        },
                    ),
                    ..old(self).model()
                }),
                Err(e) => e == RegisterError::TargetExists && spec_find_route(
                    old(self).model().entries,
                    Method::GET,
                    target@,
                ) is Some && *final(self) == *old(self),
            },
            table_wf(old(self).model()) && r is Ok ==> table_wf(final(self).model()),
    {
        let found = self.find_index(Method::GET, target.as_str());
        if found.is_some() {
            return Err(RegisterError::TargetExists);
        }
        let ghost oldm = self.model();
        let entry = RouteEntry { method: Method::GET, target, route: Route::Plain(content, code) };
        let ghost em = entry.model();
        self.map.push(entry);
        proof {
            assert(self.model().entries =~= oldm.entries.push(em));
            if table_wf(oldm) {
                lemma_find_route_none(oldm.entries, Method::GET, em.target);
                assert(table_wf(self.model()));
            }
        }
        Ok(())
    }


    /// Registers one dynamic handler under `target` for each listed method;
    /// at the first key already taken it stops with a failure, keeping the
    /// rows registered so far.
    #[verifier::loop_isolation(false)]
    pub fn add_dynamic(&mut self, target: String, methods: Vec<Method>, handler: H) -> (r: Result<
        (),
        RegisterError,
    >) where H: Copy
        ensures
            ({
                let fold = spec_add_dynamic(old(self).model().entries, target@, methods@);
                &&& final(self).model() == (RoutesModel { entries: fold.0, ..old(self).model() })
                &&& (r is Ok) == fold.1
                &&& r matches Err(e) ==> e == RegisterError::TargetExists
            }),
            table_wf(old(self).model()) && r is Ok ==> table_wf(final(self).model()),
    {
        let ghost oldm = self.model();
        let ghost ms = methods@;
        let n = methods.len();
        let mut k: usize = 0;
        proof {
            assert(ms.skip(0) =~= ms);
        }
        while k < n
            invariant
                k <= n,
                spec_add_dynamic(oldm.entries, target@, ms) == spec_add_dynamic(
                    self.model().entries,
                    target@,
                    ms.skip(k as int),
                ),
                self.model().four_oh_four == oldm.four_oh_four,
                self.model().four_oh_five == oldm.four_oh_five,
                self.model().static_dir == oldm.static_dir,
                self.model().auto_index == oldm.auto_index,
                table_wf(oldm) ==> table_wf(self.model()),
            decreases n - k,
        {
            proof {
                assert(ms.skip(k as int)[0] == ms[k as int]);
                assert(ms.skip(k as int).drop_first() =~= ms.skip(k as int + 1));
            }
            let m = methods[k];
            let found = self.find_index(m, target.as_str());
            if found.is_some() {
                return Err(RegisterError::TargetExists);
            }
            let ghost before = self.model();
            let entry = RouteEntry {
                method: m,
                target: target.clone(),
                route: Route::Dynamic(handler),
            };
            let ghost em = entry.model();
            self.map.push(entry);
            proof {
                assert(self.model().entries =~= before.entries.push(em));
                if table_wf(before) {
                    lemma_find_route_none(before.entries, m, em.target);
                    assert(table_wf(self.model()));
                }
            }
            k += 1;
        }
        proof {
            assert(ms.skip(n as int) =~= Seq::<Method>::empty());
        }
        Ok(())
    }

    /// Installs the not-found override.
    pub fn set_404(&mut self, route: Route<H>)
        ensures
            final(self).model() == (RoutesModel {
                four_oh_four: Some(route.model()),
                ..old(self).model()
            }),
    {
        self.four_oh_four = Some(route);
    }

    /// Installs the wrong-method override.
    pub fn set_405(&mut self, route: Route<H>)
        ensures
            final(self).model() == (RoutesModel {
                four_oh_five: Some(route.model()),
                ..old(self).model()
            }),
    {
        self.four_oh_five = Some(route);
    }

    /// Mounts a static-file directory.
    pub fn set_static_dir(&mut self, path: String)
        ensures
            final(self).model() == (RoutesModel {
                static_dir: Some(path@),
                ..old(self).model()
            }),
    {
        self.static_dir = Some(path);
    }

    /// Switches directory listing on or off.
    pub fn set_auto_index(&mut self, enabled: bool)
        ensures
            final(self).model() == (RoutesModel { auto_index: enabled, ..old(self).model() }),
    {
        self.auto_index = enabled;
    }

    fn run_route(&self, route: &Route<H>, request: &Request) -> (r: Result<FsAction, RouteError>)
        ensures
            act_matches(r, spec_run_route(route.model())),
    {
        match route {
            Route::Static(p, c) => {
                let code = match c {
                    Some(x) => *x,
                    None => ResponseCode::Okay,
                };
                Ok(FsAction::Read { path: p.clone(), code })
            },
            Route::Plain(content, c) => {
                let code = match c {
                    Some(x) => *x,
                    None => ResponseCode::Okay,
                };
                Ok(FsAction::Respond(RouteResponse::new_ok(content.clone(), code)))
            },
            Route::Dynamic(h) => match h.handle(request) {
                Ok(resp) => Ok(FsAction::Respond(resp)),
                Err(e) => Err(RouteError::Handler(e)),
            },
        }
    }

    /// The not-found fallback: the registered override, or the built-in
    /// `404 Not Found` answer.
    pub fn four_oh_four(&self, request: &Request) -> (r: Result<FsAction, RouteError>)
        ensures
            act_matches(r, spec_fallback_404(self.model())),
    {
        match &self.four_oh_four {
            Some(route) => self.run_route(route, request),
            None => Ok(
                FsAction::Respond(
                    RouteResponse::new_ok(
                        String::from_str("404 Not Found"),
                        ResponseCode::Not_Found,
                    ),
                ),
            ),
        }
    }

    /// The wrong-method fallback: the registered override, or the built-in
    /// answer naming both methods, flagged for logging.
    pub fn four_oh_five(&self, request: &Request, expecting: Method) -> (r: Result<
        FsAction,
        RouteError,
    >)
        ensures
            act_matches(r, spec_fallback_405(self.model(), request.method, expecting)),
    {
        match &self.four_oh_five {
            Some(route) => self.run_route(route, request),
            None => {
                let msg = String::from_str("Method: ").concat(request.method().as_str()).concat(
                    ", not allowed. Expecting: ",
                ).concat(expecting.as_str()).concat(", instead.");
                let context = msg.clone();
                Ok(
                    FsAction::Respond(
                        RouteResponse::new_logging(
                            msg,
                            ResponseCode::Method_Not_Allowed,
                            Some(context),
                        ),
                    ),
                )
            },
        }
    }

    fn auto_index(&self, request: &Request, exists: bool, is_dir: bool) -> (r: Result<
        FsAction,
        RouteError,
    >)
        ensures
            act_matches(r, spec_auto_index(self.model(), exists, is_dir)),
    {
        if !self.auto_index || !exists {
            self.four_oh_four(request)
        } else if !is_dir {
            Ok(
                FsAction::Respond(
                    RouteResponse::new_ok(
                        String::from_str("Internal Server Error"),
                        ResponseCode::Internal_Server_Error,
                    ),
                ),
            )
        } else {
            Ok(
                FsAction::Respond(
                    RouteResponse::new_ok(
                        String::from_str("Sorry! Directory Auto-Index is not yet available."),
                        ResponseCode::Not_Implemented,
                    ),
                ),
            )
        }
    }

    /// The dispatch step. On `Start` it matches the request against the
    /// table; an exact match wins over the static directory; under the static
    /// directory only `GET` is served. A `Probed` event settles containment:
    /// outside the boundary the answer is 403, inside it the file is read or
    /// the directory handled. A `FileRead` event completes a read.
    pub fn apply(&self, request: &Request, event: &FsEvent) -> (r: Result<FsAction, RouteError>)
        ensures
            act_matches(r, spec_decide(self.model(), request.model(), event.model())),
    {
        match event {
            FsEvent::Start => {
                let found = self.find_index(request.method, request.target.as_str());
                match found {
                    Some(i) => {
                        let route = &self.map[i].route;
                        self.run_route(route, request)
                    },
                    None => {
                        match &self.static_dir {
                            Some(dir) => {
                                let tp = request.target_as_path();
                                if str_starts_with(tp, dir.as_str()) {
                                    if !request.method.is_get() {
                                        self.four_oh_five(request, Method::GET)
                                    } else {
                                        let dl = dir.as_str().unicode_len();
                                        let tl = tp.unicode_len();
                                        let rest = tp.substring_char(dl, tl);
                                        proof {
                                            assert(tp@.skip(dl as int) =~= tp@.subrange(
                                                dl as int,
                                                tl as int,
                                            ));
                                        }
                                        Ok(
                                            FsAction::Probe {
                                                dir: dir.clone(),
                                                rest: rest.to_owned(),
                                            },
                                        )
                                    }
                                } else {
                                    self.four_oh_four(request)
                                }
                            },
                            None => self.four_oh_four(request),
                        }
                    },
                }
            },
            FsEvent::Probed { boundary, outcome } => {
                match outcome {
                    ProbeOutcome::Unresolved { .. } => self.four_oh_four(request),
                    ProbeOutcome::Resolved { canonical, exists, is_dir } => {
                        if !path_within_check(boundary.as_str(), canonical.as_str()) {
                            Ok(
                                FsAction::Respond(
                                    RouteResponse::new_logging(
                                        String::from_str("Forbidden"),
                                        ResponseCode::Forbidden,
                                        Some(String::from_str("Invalid path traversal")),
                                    ),
                                ),
                            )
                        } else if !*exists {
                            self.four_oh_four(request)
                        } else if *is_dir {
                            self.auto_index(request, *exists, *is_dir)
                        } else {
                            Ok(
                                FsAction::Read {
                                    path: canonical.clone(),
                                    code: ResponseCode::Okay,
                                },
                            )
                        }
                    },
                }
            },
            FsEvent::FileRead { code, content } => {
                match content {
                    Some(c) => Ok(FsAction::Respond(RouteResponse::new_ok(c.clone(), *code))),
                    None => Err(RouteError::FileUnreadable),
                }
            },
        }
    }
}


/// The response the dispatcher sends when the request could not be parsed.
pub fn parse_failure_response() -> (r: RouteResponse)
    ensures
        r.model() == (RespModel {
            content: "Failed to parse"@,
            code: ResponseCode::Bad_Request,
            logging: false,
            context: None::<Seq<char>>,
        }),
{
    RouteResponse::new_ok(String::from_str("Failed to parse"), ResponseCode::Bad_Request)
}

/// The response the dispatcher sends when route execution failed: an
/// unreadable file or a failing handler becomes a plain 500.
pub fn server_error_response() -> (r: RouteResponse)
    ensures
        r.model() == (RespModel {
            content: "Internal Server Error"@,
            code: ResponseCode::Internal_Server_Error,
            logging: false,
            context: None::<Seq<char>>,
        }),
{
    RouteResponse::new_ok(
        String::from_str("Internal Server Error"),
        ResponseCode::Internal_Server_Error,
    )
}

/// Law: a request whose `(method, target)` key is registered is answered by
/// that route alone — its fixed content and code for a plain route, a read of
/// its file for a static route, its handler for a dynamic route.
pub proof fn lemma_registered_route_served(m: RoutesModel, req: ReqModel, route: RouteModel)
    requires
        spec_find_route(m.entries, req.method, req.target) == Some(route),
    ensures
        spec_decide(m, req, EventModel::Start) == spec_run_route(route),
{
}

/// Law: a finished file read is served verbatim with the code decided for it.
pub proof fn lemma_file_read_served(
    m: RoutesModel,
    req: ReqModel,
    code: ResponseCode,
    content: Seq<char>,
)
    ensures
        spec_decide(m, req, EventModel::FileRead { code, content: Some(content) })
            == ActModel::Respond(
            RespModel { content, code, logging: false, context: None::<Seq<char>> },
        ),
{
}

/// Law: whatever the table holds, a probed candidate outside the containment
/// boundary is answered 403 Forbidden with the fixed logging context.
pub proof fn lemma_containment_forbidden(
    m: RoutesModel,
    req: ReqModel,
    boundary: Seq<char>,
    canonical: Seq<char>,
    exists: bool,
    is_dir: bool,
)
    requires
        !path_within(boundary, canonical),
    ensures
        spec_decide(
            m,
            req,
            EventModel::Probed {
                boundary,
                outcome: ProbeModel::Resolved { canonical, exists, is_dir },
            },
        ) == ActModel::Respond(spec_forbidden()),
{
}

/// Law: a request under the static directory with a method other than `GET`,
/// with no wrong-method override installed, is answered 405 with the message
/// naming the received method and `GET`, flagged for logging.
pub proof fn lemma_static_wrong_method(m: RoutesModel, req: ReqModel)
    requires
        spec_find_route(m.entries, req.method, req.target) is None,
        m.static_dir is Some,
        strip_under(req.target, m.static_dir->Some_0) is Some,
        req.method != Method::GET,
        m.four_oh_five is None,
    ensures
        spec_decide(m, req, EventModel::Start) == ActModel::Respond(
            RespModel {
                content: spec_405_message(req.method, Method::GET),
                code: ResponseCode::Method_Not_Allowed,
                logging: true,
                context: Some(spec_405_message(req.method, Method::GET)),
            },
        ),
{
}

} // verus!
