use vstd::prelude::*;
use crate::config::{configured_args, configured_path, resolve_config, texts, ConfigValue, ServerChoice};
use crate::platform::{resolve_binary_name, resolved_name, text_of};
use crate::text::joined;

verus! {

/// The text of a byte sequence decoded as UTF-8, or `None` when it is not
/// valid UTF-8.
pub uninterp spec fn utf8_text(b: Seq<u8>) -> Option<Seq<char>>;

/// Relies on `String::from_utf8`: it decodes the bytes when they are valid
/// UTF-8 and fails with a description of the fault otherwise.
#[verifier::external_body]
fn decode_utf8(bytes: Vec<u8>) -> (r: Result<String, String>)
    ensures
        match r {
            Ok(t) => utf8_text(bytes@) == Some(t@),
            Err(_) => utf8_text(bytes@) is None,
        },
{
    match String::from_utf8(bytes) {
        Ok(t) => Ok(t),
        Err(e) => Err(e.to_string()),
    }
}

/// Release assets are downloaded from a fixed release tag.
pub open spec fn release_url_of(filename: Seq<char>) -> Seq<char> {
    "https://github.com/joyme123/thrift-ls/releases/download/v0.1.0/"@ + filename
}

/// A configured server path as a locator.
pub open spec fn locator_of(path: Seq<char>) -> Seq<char> {
    "urn:"@ + path
}

/// The error raised by a failed download whose body reads `body`.
pub open spec fn download_error_of(body: Seq<char>) -> Seq<char> {
    "download error: "@ + body
}

/// The message shown to the user for an error.
pub open spec fn report_of(message: Seq<char>) -> Seq<char> {
    "plugin returned with error: "@ + message
}

/// Whether `message` is a report of some error.
pub open spec fn is_report(message: Seq<char>) -> bool {
    exists|m: Seq<char>| #[trigger] report_of(m) == message
}

/// Whether `part` occurs in `s`.
pub open spec fn contains(s: Seq<char>, part: Seq<char>) -> bool {
    exists|i: int|
        0 <= i && i + part.len() <= s.len() && #[trigger] s.subrange(i, i + part.len()) == part
}

/// The download address of a released server binary.
pub fn release_url(filename: &str) -> (r: String)
    ensures
        r@ == release_url_of(filename@),
{
    joined("https://github.com/joyme123/thrift-ls/releases/download/v0.1.0/", filename)
}

/// The locator under which a configured server path is started.
pub fn explicit_locator(path: &str) -> (r: String)
    ensures
        r@ == locator_of(path@),
{
    joined("urn:", path)
}

/// The error that a failed download raises, from the text of its body.
pub fn download_error(body: &str) -> (r: String)
    ensures
        r@ == download_error_of(body@),
{
    joined("download error: ", body)
}

/// The message shown to the user for an error that ended the activation.
pub fn error_report(message: &str) -> (r: String)
    ensures
        r@ == report_of(message@),
{
    joined("plugin returned with error: ", message)
}

/// The message shown for a download that failed, from its body once decoded:
/// the body's text when it is UTF-8, the decoding fault when it is not.
pub fn download_failure_report(decoded: Result<String, String>) -> (r: String)
    ensures
        match decoded {
            Ok(t) => r@ == report_of(download_error_of(t@)),
            Err(e) => r@ == report_of(e@),
        },
{
    match decoded {
        Ok(t) => {
            let m = download_error(t.as_str());
            error_report(m.as_str())
        },
        Err(e) => error_report(e.as_str()),
    }
}

/// Where an activation stands.
#[derive(Debug)]
pub enum Stage {
    /// Nothing has happened yet.
    Idle,
    /// The cache location of this binary is being looked up.
    Locating { filename: String },
    /// The binary is being downloaded.
    Fetching,
    /// The downloaded binary is being written to the cache.
    Storing,
    /// The activation is over: a server was started, or none will be.
    Finished,
}

/// What the host and the outside work report back.
#[derive(Debug)]
pub enum Event {
    /// The host asked to initialize, with its options and the system and
    /// architecture names it reports (`None` where it could not tell).
    Activated { options: Option<ConfigValue>, os: Option<String>, arch: Option<String> },
    /// Whether a file already stands at the cache location.
    CacheChecked { exists: bool },
    /// The download answered with this status and body.
    Responded { status: u16, body: Vec<u8> },
    /// The downloaded binary was written to the cache.
    Stored,
    /// An outside step failed (a locator that does not parse, the transport,
    /// the file system), with its description.
    Faulted { message: String },
}

/// What the host is to do next.
#[derive(Debug)]
pub enum Action {
    /// Start the server at this locator with these arguments.
    StartExplicit { locator: String, args: Vec<String> },
    /// Start the cached binary, with no arguments.
    StartCached,
    /// The platform has no released server: do nothing, and report nothing.
    Abstain,
    /// Find the cache location of this file name and whether a file stands there.
    LocateCache { filename: String },
    /// Fetch this address.
    Download { url: String },
    /// Write these bytes to the cache location.
    Store { bytes: Vec<u8> },
    /// Show this error to the user.
    ShowError { message: String },
    /// The event does not belong to this stage: nothing to do.
    Ignore,
}

pub enum StageView {
    Idle,
    Locating(Seq<char>),
    Fetching,
    Storing,
    Finished,
}

pub enum EventView {
    Activated { options: Option<ConfigValue>, os: Option<Seq<char>>, arch: Option<Seq<char>> },
    CacheChecked(bool),
    Responded { status: u16, body: Seq<u8> },
    Stored,
    Faulted(Seq<char>),
}

pub enum ActionView {
    StartExplicit { locator: Seq<char>, args: Seq<Seq<char>> },
    StartCached,
    Abstain,
    LocateCache(Seq<char>),
    Download(Seq<char>),
    Store(Seq<u8>),
    ShowError(Seq<char>),
    Ignore,
}

impl View for Stage {
    type V = StageView;

    open spec fn view(&self) -> StageView {
        match self {
            Stage::Idle => StageView::Idle,
            Stage::Locating { filename } => StageView::Locating(filename@),
            Stage::Fetching => StageView::Fetching,
            Stage::Storing => StageView::Storing,
            Stage::Finished => StageView::Finished,
        }
    }
}

impl View for Event {
    type V = EventView;

    open spec fn view(&self) -> EventView {
        match self {
            Event::Activated { options, os, arch } => EventView::Activated {
                options: *options,
                os: text_of(*os),
                arch: text_of(*arch),
            },
            Event::CacheChecked { exists } => EventView::CacheChecked(*exists),
            Event::Responded { status, body } => EventView::Responded { status: *status, body: body@ },
            Event::Stored => EventView::Stored,
            Event::Faulted { message } => EventView::Faulted(message@),
        }
    }
}

impl View for Action {
    type V = ActionView;

    open spec fn view(&self) -> ActionView {
        match self {
            Action::StartExplicit { locator, args } => ActionView::StartExplicit {
                locator: locator@,
                args: texts(args@),
            },
            Action::StartCached => ActionView::StartCached,
            Action::Abstain => ActionView::Abstain,
            Action::LocateCache { filename } => ActionView::LocateCache(filename@),
            Action::Download { url } => ActionView::Download(url@),
            Action::Store { bytes } => ActionView::Store(bytes@),
            Action::ShowError { message } => ActionView::ShowError(message@),
            Action::Ignore => ActionView::Ignore,
        }
    }
}

/// Whether a status code is a success (2xx).
pub open spec fn is_success(status: u16) -> bool {
    200 <= status < 300
}

/// The steps of an activation. A configured server path wins over the
/// platform; an unsupported platform ends it quietly; a cached binary is
/// started as it is; otherwise the binary is downloaded, stored, then
/// started. Any outside fault, and any failed download, ends it with one
/// error shown. Once finished, nothing more happens.
pub open spec fn transition(s: StageView, e: EventView, next: StageView, a: ActionView) -> bool {
    match s {
        StageView::Finished => next == StageView::Finished && a == ActionView::Ignore,
        _ => match e {
            EventView::Faulted(m) => next == StageView::Finished && a == ActionView::ShowError(
                report_of(m),
            ),
            EventView::Activated { options, os, arch } => if s is Idle {
                match configured_path(options) {
                    Some(p) => next == StageView::Finished && a == (ActionView::StartExplicit {
                        locator: locator_of(p),
                        args: configured_args(options),
                    }),
                    None => match resolved_name(os, arch) {
                        Some(f) => next == StageView::Locating(f) && a == ActionView::LocateCache(
                            f,
                        ),
                        None => next == StageView::Finished && a == ActionView::Abstain,
                    },
                }
            } else {
                next == s && a == ActionView::Ignore
            },
            EventView::CacheChecked(exists) => match s {
                StageView::Locating(f) => if exists {
                    next == StageView::Finished && a == ActionView::StartCached
                } else {
                    next == StageView::Fetching && a == ActionView::Download(release_url_of(f))
                },
                _ => next == s && a == ActionView::Ignore,
            },
            EventView::Responded { status, body } => if s is Fetching {
                if is_success(status) {
                    next == StageView::Storing && a == ActionView::Store(body)
                } else {
                    next == StageView::Finished && a is ShowError && match utf8_text(body) {
                        Some(t) => a == ActionView::ShowError(report_of(download_error_of(t))),
                        None => is_report(a->ShowError_0),
                    }
                }
            } else {
                next == s && a == ActionView::Ignore
            },
            EventView::Stored => if s is Storing {
                next == StageView::Finished && a == ActionView::StartCached
            } else {
                next == s && a == ActionView::Ignore
            },
        },
    }
}

/// One step of an activation: the next stage and what the host is to do.
pub fn step(stage: Stage, event: Event) -> (r: (Stage, Action))
    ensures
        transition(stage@, event@, r.0@, r.1@),
{
    if let Stage::Finished = stage {
        return (Stage::Finished, Action::Ignore);
    }
    match event {
        Event::Faulted { message } => {
            (Stage::Finished, Action::ShowError { message: error_report(message.as_str()) })
        },
        Event::Activated { options, os, arch } => {
            if let Stage::Idle = stage {
                match resolve_config(&options) {
                    ServerChoice::Explicit { path, args } => {
                        let locator = explicit_locator(path.as_str());
                        (Stage::Finished, Action::StartExplicit { locator, args })
                    },
                    ServerChoice::UseDefault => match resolve_binary_name(&os, &arch) {
                        Some(filename) => {
                            let f = filename.clone();
                            (Stage::Locating { filename }, Action::LocateCache { filename: f })
                        },
                        None => (Stage::Finished, Action::Abstain),
                    },
                }
            } else {
                (stage, Action::Ignore)
            }
        },
        Event::CacheChecked { exists } => match stage {
            Stage::Locating { filename } => {
                if exists {
                    (Stage::Finished, Action::StartCached)
                } else {
                    (Stage::Fetching, Action::Download { url: release_url(filename.as_str()) })
                }
            },
            _ => (stage, Action::Ignore),
        },
        Event::Responded { status, body } => {
            if let Stage::Fetching = stage {
                if 200 <= status && status < 300 {
                    (Stage::Storing, Action::Store { bytes: body })
                } else {
                    let decoded = decode_utf8(body);
                    let ghost d = decoded;
                    let message = download_failure_report(decoded);
                    proof {
                        if let Err(e) = d {
                            assert(report_of(e@) == message@);
                        }
                    }
                    (Stage::Finished, Action::ShowError { message })
                }
            } else {
                (stage, Action::Ignore)
            }
        },
        Event::Stored => {
            if let Stage::Storing = stage {
                (Stage::Finished, Action::StartCached)
            } else {
                (stage, Action::Ignore)
            }
        },
    }
}

} // verus!
