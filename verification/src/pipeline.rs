//! Data model of the delivery pipeline — requests, resolved metadata and the
//! body-stream protocol — together with the decision logic of the two actors
//! that drive a load from a scheme loader to the caller. The channel and
//! thread plumbing around these decisions lives outside the library; every
//! decision here is a function from plain values to plain values.

use crate::classifier::{
    canonical_classifier_model, mime_classification, MimeClassifierModel, MIMEClassifier,
};
use crate::text::{clone_opt_string, opt_content_type_view, string_eq_lit};
use vstd::prelude::*;

verus! {

/// A request URL, reduced to what the pipeline reads of it: its scheme and
/// its full serialization.
#[derive(Clone, Debug)]
pub struct Url {
    pub scheme: String,
    pub serialization: String,
}

/// An HTTP request method.
#[derive(Clone, Copy, PartialEq, Eq, Structural, Debug)]
pub enum Method {
    Get,
    Head,
    Post,
    Put,
    Delete,
    Trace,
    Options,
    Connect,
    Patch,
}

/// The request headers the pipeline itself touches: the user agent the
/// manager injects before dispatch.
#[derive(Clone, Debug)]
pub struct RequestHeaders {
    pub user_agent: Option<String>,
}

impl RequestHeaders {
    /// Headers with nothing set.
    pub fn new() -> (r: RequestHeaders)
        ensures
            r.user_agent is None,
    {
        RequestHeaders { user_agent: None }
    }
}

/// Response headers, as plain name-value pairs.
#[derive(Clone, Debug)]
pub struct ResponseHeaders {
    pub entries: Vec<(String, String)>,
}

/// An HTTP status: numeric code and reason phrase.
#[derive(Clone, Debug)]
pub struct Status {
    pub code: u16,
    pub reason: String,
}

/// A parsed media type: type, subtype and parameters.
#[derive(Clone, Debug)]
pub struct MediaType {
    pub type_: String,
    pub subtype: String,
    pub parameters: Vec<(String, String)>,
}

/// CORS information carried with a request.
#[derive(Clone, Debug)]
pub struct ResourceCORSData {
    /// CORS preflight flag.
    pub preflight: bool,
    /// Origin of the CORS request.
    pub origin: Url,
}

/// Per-request input: everything a loader needs to produce the resource.
#[derive(Clone, Debug)]
pub struct LoadData {
    pub url: Url,
    pub method: Method,
    pub headers: RequestHeaders,
    pub data: Option<Vec<u8>>,
    pub cors: Option<ResourceCORSData>,
}

impl LoadData {
    /// A GET request for `url` with nothing else set.
    pub fn new(url: Url) -> (r: LoadData)
        ensures
            r.url == url,
            r.method == Method::Get,
            r.headers.user_agent is None,
            r.data is None,
            r.cors is None,
    {
        LoadData {
            url,
            method: Method::Get,
            headers: RequestHeaders::new(),
            data: None,
            cors: None,
        }
    }
}

/// The last "charset" parameter of a media type's parameter list, if any.
pub open spec fn last_charset(params: Seq<(String, String)>) -> Option<String>
    decreases params.len(),
{
    if params.len() == 0 {
        None
    } else if params.last().0@ == "charset"@ {
        Some(params.last().1)
    } else {
        last_charset(params.drop_last())
    }
}

/// Metadata about a loaded resource, such as is obtained from HTTP headers.
#[derive(Debug)]
pub struct Metadata {
    /// Final URL after redirects.
    pub final_url: Url,
    /// MIME type / subtype.
    pub content_type: Option<(String, String)>,
    /// Character set.
    pub charset: Option<String>,
    /// Headers.
    pub headers: Option<ResponseHeaders>,
    /// HTTP status.
    pub status: Status,
}

/// Holds of metadata freshly made for `url`: everything optional is unset
/// and the status is 200 OK.
pub open spec fn default_metadata_for(url: Url, m: Metadata) -> bool {
    &&& m.final_url == url
    &&& m.content_type is None
    &&& m.charset is None
    &&& m.headers is None
    &&& m.status.code == 200
    &&& m.status.reason@ == "OK"@
}

impl Metadata {
    /// Metadata with defaults for everything optional.
    pub fn default(url: Url) -> (r: Metadata)
        ensures
            default_metadata_for(url, r),
    {
        Metadata {
            final_url: url,
            content_type: None,
            charset: None,
            headers: None,
            status: Status { code: 200, reason: "OK".to_owned() },
        }
    }

    /// Extract the parts of a media type that we care about: the pair itself
    /// becomes the content type, and the last "charset" parameter, if one is
    /// given, becomes the charset.
    pub fn set_content_type(&mut self, content_type: &Option<MediaType>)
        ensures
            (match *content_type {
                None => *final(self) == *old(self),
                Some(mt) => {
                    &&& final(self).content_type == Some((mt.type_, mt.subtype))
                    &&& final(self).charset == (match last_charset(mt.parameters@) {
                        Some(c) => Some(c),
                        None => old(self).charset,
                    })
                    &&& final(self).final_url == old(self).final_url
                    &&& final(self).headers == old(self).headers
                    &&& final(self).status == old(self).status
                },
            }),
    {
        match content_type {
            None => (),
            Some(mt) => {
                self.content_type = Some((mt.type_.clone(), mt.subtype.clone()));
                let ghost entry_charset = self.charset;
                let mut i: usize = 0;
                while i < mt.parameters.len()
                    invariant
                        0 <= i <= mt.parameters@.len(),
                        entry_charset == old(self).charset,
                        self.content_type == Some((mt.type_, mt.subtype)),
                        self.final_url == old(self).final_url,
                        self.headers == old(self).headers,
                        self.status == old(self).status,
                        self.charset == (match last_charset(mt.parameters@.take(i as int)) {
                            Some(c) => Some(c),
                            None => entry_charset,
                        }),
                    decreases mt.parameters@.len() - i,
                {
                    proof {
                        assert(mt.parameters@.take(i as int + 1).drop_last() =~= mt.parameters@.take(
                            i as int,
                        ));
                        assert(mt.parameters@.take(i as int + 1).last() == mt.parameters@[i as int]);
                    }
                    let (k, v) = (&mt.parameters[i].0, &mt.parameters[i].1);
                    if string_eq_lit(k, "charset") {
                        self.charset = Some(v.clone());
                    }
                    i += 1;
                }
                proof {
                    assert(mt.parameters@.take(mt.parameters@.len() as int) =~= mt.parameters@);
                }
            },
        }
    }
}

/// One message of a body stream: a chunk of bytes, or the terminal signal
/// that loading is complete, successfully or not. A well-formed stream is
/// zero or more payloads followed by exactly one terminal message.
#[derive(Debug, PartialEq)]
pub enum ProgressMsg {
    /// Binary data — there may be multiple of these.
    Payload(Vec<u8>),
    /// Indicates loading is complete, either successfully or not.
    Done(Result<(), String>),
}

/// A control message for the resource manager: request a load, or stop.
#[derive(Debug)]
pub enum ControlMsg {
    /// Request the data associated with a particular URL.
    Load(LoadData),
    /// Stop the manager's control loop.
    Exit,
}

/// The scheme-specific loader a request is dispatched to.
#[derive(Clone, Copy, PartialEq, Eq, Structural, Debug)]
pub enum LoaderKind {
    File,
    Http,
    Data,
    About,
}

/// What the resource manager decides for one control message. Performing
/// the decision — handing the request to a loader, sending the response,
/// closing the channel — is the caller's part.
#[derive(Debug)]
pub enum ManagerAction {
    /// Hand the prepared request to the loader for its scheme.
    Dispatch(LoaderKind, LoadData),
    /// No loader serves the scheme: deliver a response with the given
    /// default metadata whose body stream is a single terminal error with
    /// the given reason, and no bytes.
    RespondNoLoader(Metadata, String),
    /// Stop the control loop.
    Shutdown,
}

/// Which loader serves a scheme: file, http/https, data and about have one;
/// every other scheme has none.
pub open spec fn spec_loader_for_scheme(scheme: Seq<char>) -> Option<LoaderKind> {
    if scheme == "file"@ {
        Some(LoaderKind::File)
    } else if scheme == "http"@ || scheme == "https"@ {
        Some(LoaderKind::Http)
    } else if scheme == "data"@ {
        Some(LoaderKind::Data)
    } else if scheme == "about"@ {
        Some(LoaderKind::About)
    } else {
        None
    }
}

/// The prepared request equals the incoming one, with the manager's user
/// agent injected into its headers.
pub open spec fn prepared_load_data(
    user_agent: Option<String>,
    ld: LoadData,
    out: LoadData,
) -> bool {
    &&& out.url == ld.url
    &&& out.method == ld.method
    &&& out.headers.user_agent == user_agent
    &&& out.data == ld.data
    &&& out.cors == ld.cors
}

/// What the manager must decide for one Load request: dispatch the prepared
/// request to the scheme's loader, or answer "no loader for scheme" with
/// default metadata when no loader serves it.
pub open spec fn load_action_ok(
    user_agent: Option<String>,
    ld: LoadData,
    r: ManagerAction,
) -> bool {
    match spec_loader_for_scheme(ld.url.scheme@) {
        Some(kind) => (match r {
            ManagerAction::Dispatch(k, out) => k == kind && prepared_load_data(
                user_agent,
                ld,
                out,
            ),
            _ => false,
        }),
        None => (match r {
            ManagerAction::RespondNoLoader(m, reason) => default_metadata_for(ld.url, m)
                && reason@ == "no loader for scheme"@,
            _ => false,
        }),
    }
}

/// What the manager must decide for one control message: a Load as
/// [`load_action_ok`] says, and a Shutdown for Exit.
pub open spec fn control_action_ok(
    user_agent: Option<String>,
    msg: ControlMsg,
    r: ManagerAction,
) -> bool {
    match msg {
        ControlMsg::Load(ld) => load_action_ok(user_agent, ld, r),
        ControlMsg::Exit => r == ManagerAction::Shutdown,
    }
}

/// The actor owning the load-request control channel: it prepares each
/// request and decides where it goes.
pub struct ResourceManager {
    pub user_agent: Option<String>,
}

impl ResourceManager {
    pub fn new(user_agent: Option<String>) -> (r: ResourceManager)
        ensures
            r.user_agent == user_agent,
    {
        ResourceManager { user_agent }
    }

    /// The per-request decision: inject the user agent, pick the loader by
    /// the URL's scheme, and fail requests whose scheme no loader serves.
    pub fn load(&self, load_data: LoadData) -> (r: ManagerAction)
        ensures
            load_action_ok(self.user_agent, load_data, r),
    {
        let mut load_data = load_data;
        load_data.headers.user_agent = clone_opt_string(&self.user_agent);
        let scheme = &load_data.url.scheme;
        let kind: Option<LoaderKind> = if string_eq_lit(scheme, "file") {
            Some(LoaderKind::File)
        } else if string_eq_lit(scheme, "http") || string_eq_lit(scheme, "https") {
            Some(LoaderKind::Http)
        } else if string_eq_lit(scheme, "data") {
            Some(LoaderKind::Data)
        } else if string_eq_lit(scheme, "about") {
            Some(LoaderKind::About)
        } else {
            None
        };
        match kind {
            Some(k) => ManagerAction::Dispatch(k, load_data),
            None => {
                let metadata = Metadata::default(load_data.url);
                ManagerAction::RespondNoLoader(metadata, "no loader for scheme".to_owned())
            },
        }
    }

    /// One step of the control loop.
    pub fn process_control(&self, msg: ControlMsg) -> (r: ManagerAction)
        ensures
            control_action_ok(self.user_agent, msg, r),
    {
        match msg {
            ControlMsg::Load(load_data) => self.load(load_data),
            ControlMsg::Exit => ManagerAction::Shutdown,
        }
    }

    /// Runs the control loop over a sequence of messages: each message up to
    /// and including the first Exit is answered in order; whatever follows
    /// that Exit is never looked at. Returns the decisions and how many
    /// messages were consumed.
    pub fn start(&self, msgs: Vec<ControlMsg>) -> (r: (Vec<ManagerAction>, usize))
        ensures
            r.1 <= msgs@.len(),
            r.0@.len() == r.1,
            forall|i: int|
                0 <= i < r.1 ==> control_action_ok(self.user_agent, msgs@[i], #[trigger] r.0@[i]),
            forall|i: int| 0 <= i < r.1 - 1 ==> !((#[trigger] msgs@[i]) is Exit),
            r.1 < msgs@.len() ==> msgs@[r.1 - 1] is Exit,
    {
        let mut queue = msgs;
        let ghost orig = queue@;
        let mut actions: Vec<ManagerAction> = Vec::new();
        let mut stopped = false;
        proof {
            assert(orig.skip(0) =~= orig);
        }
        while !stopped && queue.len() > 0
            invariant
                actions@.len() <= orig.len(),
                queue@ == orig.skip(actions@.len() as int),
                forall|i: int|
                    0 <= i < actions@.len() ==> control_action_ok(
                        self.user_agent,
                        orig[i],
                        #[trigger] actions@[i],
                    ),
                !stopped ==> forall|i: int|
                    0 <= i < actions@.len() ==> !((#[trigger] orig[i]) is Exit),
                stopped ==> actions@.len() >= 1 && orig[actions@.len() - 1] is Exit && (forall|
                    i: int,
                |
                    0 <= i < actions@.len() - 1 ==> !((#[trigger] orig[i]) is Exit)),
            decreases queue@.len(),
        {
            let ghost consumed = actions@.len() as int;
            proof {
                assert(queue@[0] == orig[consumed]);
                assert(orig.skip(consumed).remove(0) =~= orig.skip(consumed + 1));
            }
            let msg = queue.remove(0);
            match msg {
                ControlMsg::Exit => {
                    actions.push(ManagerAction::Shutdown);
                    stopped = true;
                },
                ControlMsg::Load(load_data) => {
                    let act = self.load(load_data);
                    actions.push(act);
                },
            }
        }
        let n = actions.len();
        (actions, n)
    }
}

/// The bytes a body stream carries before its first terminal message.
pub open spec fn assembled_body(msgs: Seq<ProgressMsg>) -> Seq<u8>
    decreases msgs.len(),
{
    if msgs.len() == 0 {
        Seq::empty()
    } else {
        match msgs[0] {
            ProgressMsg::Payload(chunk) => chunk@ + assembled_body(msgs.drop_first()),
            ProgressMsg::Done(_) => Seq::empty(),
        }
    }
}

/// View of a terminal result: the error text as a character sequence.
pub open spec fn result_view(r: Result<(), String>) -> Result<(), Seq<char>> {
    match r {
        Ok(_) => Ok(()),
        Err(e) => Err(e@),
    }
}

/// The first terminal message of a body stream, if the stream has one.
pub open spec fn spec_terminal(msgs: Seq<ProgressMsg>) -> Option<Result<(), Seq<char>>>
    decreases msgs.len(),
{
    if msgs.len() == 0 {
        None
    } else {
        match msgs[0] {
            ProgressMsg::Payload(_) => spec_terminal(msgs.drop_first()),
            ProgressMsg::Done(res) => Some(result_view(res)),
        }
    }
}

/// Index of the first terminal message of the stream.
fn first_done_index(upstream: &Vec<ProgressMsg>) -> (idx: usize)
    requires
        spec_terminal(upstream@) is Some,
    ensures
        idx < upstream@.len(),
        upstream@[idx as int] is Done,
        forall|j: int| 0 <= j < idx ==> (#[trigger] upstream@[j]) is Payload,
        (match upstream@[idx as int] {
            ProgressMsg::Done(res) => spec_terminal(upstream@) == Some(result_view(res)),
            _ => false,
        }),
{
    let n = upstream.len();
    let mut i: usize = 0;
    proof {
        assert(upstream@.skip(0) =~= upstream@);
    }
    loop
        invariant
            n == upstream@.len(),
            0 <= i <= upstream@.len(),
            spec_terminal(upstream@) is Some,
            spec_terminal(upstream@) == spec_terminal(upstream@.skip(i as int)),
            forall|j: int| 0 <= j < i ==> (#[trigger] upstream@[j]) is Payload,
        decreases upstream@.len() - i,
    {
        proof {
            if i == upstream@.len() {
                assert(upstream@.skip(i as int).len() == 0);
            }
            assert(upstream@.skip(i as int)[0] == upstream@[i as int]);
            assert(upstream@.skip(i as int).drop_first() =~= upstream@.skip(i as int + 1));
        }
        match &upstream[i] {
            ProgressMsg::Done(_) => {
                return i;
            },
            ProgressMsg::Payload(_) => {
                i += 1;
            },
        }
    }
}

/// The bytes of the payload messages standing before index `idx`.
fn assemble_prefix(upstream: &Vec<ProgressMsg>, idx: usize) -> (body: Vec<u8>)
    requires
        idx < upstream@.len(),
        upstream@[idx as int] is Done,
        forall|j: int| 0 <= j < idx ==> (#[trigger] upstream@[j]) is Payload,
    ensures
        body@ == assembled_body(upstream@),
{
    let mut body: Vec<u8> = Vec::new();
    let mut i: usize = 0;
    proof {
        assert(upstream@.skip(0) =~= upstream@);
    }
    while i < idx
        invariant
            0 <= i <= idx < upstream@.len(),
            upstream@[idx as int] is Done,
            forall|j: int| 0 <= j < idx ==> (#[trigger] upstream@[j]) is Payload,
            assembled_body(upstream@) == body@ + assembled_body(upstream@.skip(i as int)),
        decreases idx - i,
    {
        proof {
            assert(upstream@.skip(i as int)[0] == upstream@[i as int]);
            assert(upstream@.skip(i as int).drop_first() =~= upstream@.skip(i as int + 1));
        }
        match &upstream[i] {
            ProgressMsg::Payload(chunk) => {
                let ghost body_before = body@;
                let mut j: usize = 0;
                while j < chunk.len()
                    invariant
                        0 <= j <= chunk@.len(),
                        body@ == body_before + chunk@.take(j as int),
                    decreases chunk@.len() - j,
                {
                    body.push(chunk[j]);
                    proof {
                        assert(body_before + chunk@.take(j as int + 1) =~= (body_before
                            + chunk@.take(j as int)).push(chunk@[j as int]));
                    }
                    j += 1;
                }
                proof {
                    assert(chunk@.take(chunk@.len() as int) =~= chunk@);
                    assert((body_before + chunk@) + assembled_body(upstream@.skip(i as int + 1))
                        =~= body_before + (chunk@ + assembled_body(upstream@.skip(i as int + 1))));
                }
            },
            ProgressMsg::Done(_) => {},
        }
        i += 1;
    }
    proof {
        assert(assembled_body(upstream@.skip(idx as int)) =~= Seq::<u8>::empty());
        assert(body@ + Seq::<u8>::empty() =~= body@);
    }
    body
}

/// A copy of a terminal result.
fn clone_terminal(res: &Result<(), String>) -> (r: Result<(), String>)
    ensures
        result_view(r) == result_view(*res),
{
    match res {
        Ok(_) => Ok(()),
        Err(e) => Err(e.clone()),
    }
}

/// The buffering and sniffing stage interposed between a loader and the
/// caller: it owns the classifier that resolves each response's content
/// type.
pub struct SnifferManager {
    pub classifier: MIMEClassifier,
}

impl SnifferManager {
    pub fn new() -> (r: SnifferManager)
        ensures
            r.classifier@ == canonical_classifier_model(),
            r.classifier@.wf(),
    {
        SnifferManager { classifier: MIMEClassifier::new() }
    }

    /// Buffers one upstream response end to end and re-emits it: the whole
    /// body as a single payload chunk, then the upstream terminal result —
    /// an error reason is passed through, never invented or dropped — under
    /// metadata whose content type the classifier has resolved from the
    /// buffered bytes and the declared type. Everything else in the metadata
    /// is left as it came.
    pub fn process_response(&self, metadata: Metadata, upstream: Vec<ProgressMsg>) -> (r: (
        Metadata,
        Vec<ProgressMsg>,
    ))
        requires
            self.classifier@.wf(),
            spec_terminal(upstream@) is Some,
        ensures
            r.0.final_url == metadata.final_url,
            r.0.charset == metadata.charset,
            r.0.headers == metadata.headers,
            r.0.status == metadata.status,
            opt_content_type_view(r.0.content_type) == mime_classification(
                self.classifier@,
                false,
                false,
                opt_content_type_view(metadata.content_type),
                assembled_body(upstream@),
            ),
            r.1@.len() == 2,
            assembled_body(r.1@) == assembled_body(upstream@),
            spec_terminal(r.1@) == spec_terminal(upstream@),
    {
        let idx = first_done_index(&upstream);
        let body = assemble_prefix(&upstream, idx);
        let res = match &upstream[idx] {
            ProgressMsg::Done(res) => clone_terminal(res),
            ProgressMsg::Payload(_) => Ok(()),
        };
        let content_type = self.classifier.classify(false, false, &metadata.content_type, &body);
        let mut out_meta = metadata;
        out_meta.content_type = content_type;
        let ghost body_view = body@;
        let ghost res_view = result_view(res);
        let mut out_msgs: Vec<ProgressMsg> = Vec::new();
        out_msgs.push(ProgressMsg::Payload(body));
        out_msgs.push(ProgressMsg::Done(res));
        proof {
            assert(out_msgs@.len() == 2);
            assert(out_msgs@.drop_first() =~= seq![out_msgs@[1]]);
            assert(assembled_body(out_msgs@.drop_first()) == Seq::<u8>::empty());
            assert(assembled_body(out_msgs@) == body_view + Seq::<u8>::empty());
            assert(body_view + Seq::<u8>::empty() =~= body_view);
            assert(spec_terminal(out_msgs@.drop_first()) == Some(res_view));
            assert(spec_terminal(out_msgs@) == Some(res_view));
        }
        (out_meta, out_msgs)
    }
}

} // verus!
