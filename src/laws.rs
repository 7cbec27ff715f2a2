use vstd::prelude::*;
use crate::config::{configured_path, ConfigValue};
use crate::flow::{
    contains, download_error_of, is_success, report_of, transition, utf8_text, ActionView,
    EventView, StageView,
};
use crate::platform::{arch_of, binary_name_of, os_of, resolved_name, Os};

verus! {

/// Whether a name ends in `.exe`.
pub open spec fn has_exe_suffix(name: Seq<char>) -> bool {
    name.len() >= 4 && name.subrange(name.len() - 4, name.len() as int) == ".exe"@
}

/// Once an activation has finished, no event makes it do anything more.
pub proof fn lemma_finished_stays_quiet(e: EventView, next: StageView, a: ActionView)
    requires
        transition(StageView::Finished, e, next, a),
    ensures
        next == StageView::Finished,
        a == ActionView::Ignore,
{
}

/// On a platform outside the released set, and with no server path
/// configured, activation ends at once and successfully: nothing is
/// downloaded, no server is started, no error is shown.
pub proof fn lemma_unsupported_platform_abstains(
    options: Option<ConfigValue>,
    os: Option<Seq<char>>,
    arch: Option<Seq<char>>,
    next: StageView,
    a: ActionView,
)
    requires
        configured_path(options) is None,
        match (os, arch) {
            (Some(o), Some(r)) => os_of(o) is None || arch_of(r) is None,
            _ => true,
        },
        transition(StageView::Idle, EventView::Activated { options, os, arch }, next, a),
    ensures
        next == StageView::Finished,
        a == ActionView::Abstain,
{
}

/// For a released platform the file name is `thriftls-{os}-{arch}`, with
/// `.exe` after it exactly when the system is windows; it depends on the two
/// reported names alone.
pub proof fn lemma_binary_name_template(os: Seq<char>, arch: Seq<char>)
    requires
        os_of(os) is Some,
        arch_of(arch) is Some,
    ensures
        resolved_name(Some(os), Some(arch)) == Some(binary_name_of(os_of(os)->0, arch_of(arch)->0)),
        has_exe_suffix(binary_name_of(os_of(os)->0, arch_of(arch)->0)) <==> os == "windows"@,
{
    let o = os_of(os)->0;
    let r = arch_of(arch)->0;
    let name = binary_name_of(o, r);
    reveal_strlit("windows");
    reveal_strlit("macos");
    reveal_strlit("linux");
    reveal_strlit(".exe");
    reveal_strlit("amd64");
    reveal_strlit("arm64");
    if o == Os::Windows {
        assert(os == "windows"@);
        assert(name.subrange(name.len() - 4, name.len() as int) =~= ".exe"@);
    } else {
        assert(os != "windows"@) by {
            if os == "windows"@ {
                assert("macos"@.len() != "windows"@.len());
                assert("linux"@.len() != "windows"@.len());
                assert(os_of(os) == Some(Os::Windows));
            }
        }
        let tail = name.subrange(name.len() - 4, name.len() as int);
        assert(tail[3] == '4');
    }
}

/// A configured server path wins over the platform: the server is started at
/// once and the activation is over, so nothing is ever downloaded.
pub proof fn lemma_configured_path_never_downloads(
    options: Option<ConfigValue>,
    os: Option<Seq<char>>,
    arch: Option<Seq<char>>,
    next: StageView,
    a: ActionView,
)
    requires
        configured_path(options) is Some,
        transition(StageView::Idle, EventView::Activated { options, os, arch }, next, a),
    ensures
        a is StartExplicit,
        next == StageView::Finished,
        forall|e: EventView, n: StageView, b: ActionView|
            #[trigger] transition(next, e, n, b) ==> !(b is Download),
{
}

/// When a file already stands at the cache location, the cached binary is
/// started and nothing is downloaded.
pub proof fn lemma_cache_hit_skips_download(filename: Seq<char>, next: StageView, a: ActionView)
    requires
        transition(StageView::Locating(filename), EventView::CacheChecked(true), next, a),
    ensures
        a == ActionView::StartCached,
        next == StageView::Finished,
        forall|e: EventView, n: StageView, b: ActionView|
            #[trigger] transition(next, e, n, b) ==> !(b is Download),
{
}

/// A successful download is written to the cache byte for byte, and once
/// written the cached binary is started.
pub proof fn lemma_download_stored_verbatim(
    status: u16,
    body: Seq<u8>,
    next: StageView,
    a: ActionView,
    after: StageView,
    b: ActionView,
)
    requires
        is_success(status),
        transition(StageView::Fetching, EventView::Responded { status, body }, next, a),
        transition(next, EventView::Stored, after, b),
    ensures
        a == ActionView::Store(body),
        b == ActionView::StartCached,
        after == StageView::Finished,
{
}

/// A failed download ends the activation with one error shown, and the
/// error holds the text of the response body.
pub proof fn lemma_download_failure_reported(
    status: u16,
    body: Seq<u8>,
    text: Seq<char>,
    next: StageView,
    a: ActionView,
)
    requires
        !is_success(status),
        utf8_text(body) == Some(text),
        transition(StageView::Fetching, EventView::Responded { status, body }, next, a),
    ensures
        next == StageView::Finished,
        a is ShowError,
        contains(a->ShowError_0, text),
{
    let m = a->ShowError_0;
    let i = ("plugin returned with error: "@ + "download error: "@).len() as int;
    assert(m == report_of(download_error_of(text)));
    assert(m.subrange(i, i + text.len()) =~= text);
}

} // verus!
