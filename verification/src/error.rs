//! The errors that a handler reports, and how they become a response.

use vstd::prelude::*;
use crate::api::{
    lemma_rendering_tells_failure, lemma_tagged_injective, render_tagged, tagged, ApiError,
};
use crate::http::{Response, ResponseView, StatusCode};

verus! {

/// Why a request was answered with an error.
#[derive(Clone, Debug, PartialEq, Eq)]
pub enum HttpError {
    /// The body of the request is no configuration; holds the debug
    /// rendering of the decoder's error, as text.
    SerdeJsonDeserialize(String),
    /// Could not create a virtual machine.
    VmCreate(ApiError),
    /// Could not boot a virtual machine.
    VmBoot(ApiError),
    /// Could not get the state of the virtual machine.
    VmInfo(ApiError),
    /// Could not pause the virtual machine.
    VmPause(ApiError),
    /// Could not resume the virtual machine.
    VmResume(ApiError),
    /// Could not shut the virtual machine down.
    VmShutdown(ApiError),
    /// Could not reboot the virtual machine.
    VmReboot(ApiError),
    /// Could not act on the virtual machine.
    VmAction(ApiError),
    /// Could not shut the monitor down.
    VmmShutdown(ApiError),
}

impl HttpError {
    /// The text that stands for the error in a response body: the name of
    /// the kind, and in round brackets the text of what it holds.
    pub open spec fn rendering(self) -> Seq<char> {
        match self {
            HttpError::SerdeJsonDeserialize(cause) => tagged("SerdeJsonDeserialize"@, cause@),
            HttpError::VmCreate(e) => tagged("VmCreate"@, e.rendering()),
            HttpError::VmBoot(e) => tagged("VmBoot"@, e.rendering()),
            HttpError::VmInfo(e) => tagged("VmInfo"@, e.rendering()),
            HttpError::VmPause(e) => tagged("VmPause"@, e.rendering()),
            HttpError::VmResume(e) => tagged("VmResume"@, e.rendering()),
            HttpError::VmShutdown(e) => tagged("VmShutdown"@, e.rendering()),
            HttpError::VmReboot(e) => tagged("VmReboot"@, e.rendering()),
            HttpError::VmAction(e) => tagged("VmAction"@, e.rendering()),
            HttpError::VmmShutdown(e) => tagged("VmmShutdown"@, e.rendering()),
        }
    }

    /// What the error holds, as text: the decoder's error, or the
    /// rendering of the failure of the control loop.
    pub open spec fn held(self) -> Seq<char> {
        match self {
            HttpError::SerdeJsonDeserialize(cause) => cause@,
            HttpError::VmCreate(e) => e.rendering(),
            HttpError::VmBoot(e) => e.rendering(),
            HttpError::VmInfo(e) => e.rendering(),
            HttpError::VmPause(e) => e.rendering(),
            HttpError::VmResume(e) => e.rendering(),
            HttpError::VmShutdown(e) => e.rendering(),
            HttpError::VmReboot(e) => e.rendering(),
            HttpError::VmAction(e) => e.rendering(),
            HttpError::VmmShutdown(e) => e.rendering(),
        }
    }

    /// Whether two errors are of one kind.
    pub open spec fn same_kind(self, other: HttpError) -> bool {
        match self {
            HttpError::SerdeJsonDeserialize(_) => other is SerdeJsonDeserialize,
            HttpError::VmCreate(_) => other is VmCreate,
            HttpError::VmBoot(_) => other is VmBoot,
            HttpError::VmInfo(_) => other is VmInfo,
            HttpError::VmPause(_) => other is VmPause,
            HttpError::VmResume(_) => other is VmResume,
            HttpError::VmShutdown(_) => other is VmShutdown,
            HttpError::VmReboot(_) => other is VmReboot,
            HttpError::VmAction(_) => other is VmAction,
            HttpError::VmmShutdown(_) => other is VmmShutdown,
        }
    }

    /// Whether two errors are of one kind and hold the same: the same
    /// text of the decoder's error, or failures of the control loop of one
    /// kind and with the same cause.
    pub open spec fn alike(self, other: HttpError) -> bool {
        &&& self.same_kind(other)
        &&& match (self, other) {
            (HttpError::SerdeJsonDeserialize(a), HttpError::SerdeJsonDeserialize(b)) => a@ == b@,
            (HttpError::VmCreate(a), HttpError::VmCreate(b)) => a.alike(b),
            (HttpError::VmBoot(a), HttpError::VmBoot(b)) => a.alike(b),
            (HttpError::VmInfo(a), HttpError::VmInfo(b)) => a.alike(b),
            (HttpError::VmPause(a), HttpError::VmPause(b)) => a.alike(b),
            (HttpError::VmResume(a), HttpError::VmResume(b)) => a.alike(b),
            (HttpError::VmShutdown(a), HttpError::VmShutdown(b)) => a.alike(b),
            (HttpError::VmReboot(a), HttpError::VmReboot(b)) => a.alike(b),
            (HttpError::VmAction(a), HttpError::VmAction(b)) => a.alike(b),
            (HttpError::VmmShutdown(a), HttpError::VmmShutdown(b)) => a.alike(b),
            _ => false,
        }
    }

    /// Renders the error as text.
    pub fn render(&self) -> (text: String)
        ensures
            text@ == self.rendering(),
    {
        match self {
            HttpError::SerdeJsonDeserialize(cause) => render_tagged(
                "SerdeJsonDeserialize",
                cause.as_str(),
            ),
            HttpError::VmCreate(e) => render_tagged("VmCreate", e.render().as_str()),
            HttpError::VmBoot(e) => render_tagged("VmBoot", e.render().as_str()),
            HttpError::VmInfo(e) => render_tagged("VmInfo", e.render().as_str()),
            HttpError::VmPause(e) => render_tagged("VmPause", e.render().as_str()),
            HttpError::VmResume(e) => render_tagged("VmResume", e.render().as_str()),
            HttpError::VmShutdown(e) => render_tagged("VmShutdown", e.render().as_str()),
            HttpError::VmReboot(e) => render_tagged("VmReboot", e.render().as_str()),
            HttpError::VmAction(e) => render_tagged("VmAction", e.render().as_str()),
            HttpError::VmmShutdown(e) => render_tagged("VmmShutdown", e.render().as_str()),
        }
    }

    /// The error that a lifecycle action reports for a failure of the
    /// control loop: a failure to boot, shut down, reboot, pause or resume
    /// keeps its kind, every other one is a failure to act.
    pub open spec fn action_failure(e: ApiError) -> HttpError {
        match e {
            ApiError::VmBoot(_) => HttpError::VmBoot(e),
            ApiError::VmShutdown(_) => HttpError::VmShutdown(e),
            ApiError::VmReboot(_) => HttpError::VmReboot(e),
            ApiError::VmPause(_) => HttpError::VmPause(e),
            ApiError::VmResume(_) => HttpError::VmResume(e),
            _ => HttpError::VmAction(e),
        }
    }

    /// Maps a failure of the control loop to the error of a lifecycle
    /// action.
    pub fn from_action_failure(e: ApiError) -> (error: HttpError)
        ensures
            error == HttpError::action_failure(e),
    {
        match e {
            ApiError::VmBoot(_) => HttpError::VmBoot(e),
            ApiError::VmShutdown(_) => HttpError::VmShutdown(e),
            ApiError::VmReboot(_) => HttpError::VmReboot(e),
            ApiError::VmPause(_) => HttpError::VmPause(e),
            ApiError::VmResume(_) => HttpError::VmResume(e),
            _ => HttpError::VmAction(e),
        }
    }
}

/// The kinds of failure that a lifecycle action reports under their own
/// name.
pub open spec fn keeps_kind(e: ApiError) -> bool {
    e is VmBoot || e is VmShutdown || e is VmReboot || e is VmPause || e is VmResume
}

/// The rule of `action_failure`, kind by kind: a failure to boot, shut
/// down, reboot, pause or resume is reported under its own name; a failure
/// to delete, and any other, as a failure to act. The failure itself is
/// kept whole.
pub proof fn lemma_action_failure_by_kind(e: ApiError)
    ensures
        e is VmBoot ==> HttpError::action_failure(e) == HttpError::VmBoot(e),
        e is VmShutdown ==> HttpError::action_failure(e) == HttpError::VmShutdown(e),
        e is VmReboot ==> HttpError::action_failure(e) == HttpError::VmReboot(e),
        e is VmPause ==> HttpError::action_failure(e) == HttpError::VmPause(e),
        e is VmResume ==> HttpError::action_failure(e) == HttpError::VmResume(e),
        e is VmDelete ==> HttpError::action_failure(e) == HttpError::VmAction(e),
        !keeps_kind(e) ==> HttpError::action_failure(e) == HttpError::VmAction(e),
{
}

/// `action_failure` maps no two failures to one error.
pub proof fn lemma_action_failure_injective(a: ApiError, b: ApiError)
    requires
        HttpError::action_failure(a) == HttpError::action_failure(b),
    ensures
        a == b,
{
}

/// The name of the kind of an error.
spec fn kind_name(e: HttpError) -> Seq<char> {
    match e {
        HttpError::SerdeJsonDeserialize(_) => "SerdeJsonDeserialize"@,
        HttpError::VmCreate(_) => "VmCreate"@,
        HttpError::VmBoot(_) => "VmBoot"@,
        HttpError::VmInfo(_) => "VmInfo"@,
        HttpError::VmPause(_) => "VmPause"@,
        HttpError::VmResume(_) => "VmResume"@,
        HttpError::VmShutdown(_) => "VmShutdown"@,
        HttpError::VmReboot(_) => "VmReboot"@,
        HttpError::VmAction(_) => "VmAction"@,
        HttpError::VmmShutdown(_) => "VmmShutdown"@,
    }
}

/// The kind of an error as a number, read from three characters of its
/// text.
spec fn probed_kind(text: Seq<char>) -> int {
    if text[0] == 'S' {
        0
    } else if text[2] == 'C' {
        1
    } else if text[2] == 'B' {
        2
    } else if text[2] == 'I' {
        3
    } else if text[2] == 'P' {
        4
    } else if text[2] == 'R' {
        if text[4] == 's' {
            5
        } else {
            7
        }
    } else if text[2] == 'S' {
        6
    } else if text[2] == 'A' {
        8
    } else {
        9
    }
}

/// The number that `probed_kind` gives to each kind.
spec fn kind_number(e: HttpError) -> int {
    match e {
        HttpError::SerdeJsonDeserialize(_) => 0,
        HttpError::VmCreate(_) => 1,
        HttpError::VmBoot(_) => 2,
        HttpError::VmInfo(_) => 3,
        HttpError::VmPause(_) => 4,
        HttpError::VmResume(_) => 5,
        HttpError::VmShutdown(_) => 6,
        HttpError::VmReboot(_) => 7,
        HttpError::VmAction(_) => 8,
        HttpError::VmmShutdown(_) => 9,
    }
}

/// The text of an error is the name of its kind and, in round brackets,
/// what it holds; three characters of it tell the kind.
proof fn lemma_rendering_probes(e: HttpError)
    ensures
        e.rendering() == tagged(kind_name(e), e.held()),
        probed_kind(e.rendering()) == kind_number(e),
{
    reveal_strlit("(");
    reveal_strlit(")");
    reveal_strlit("SerdeJsonDeserialize");
    reveal_strlit("VmCreate");
    reveal_strlit("VmBoot");
    reveal_strlit("VmInfo");
    reveal_strlit("VmPause");
    reveal_strlit("VmResume");
    reveal_strlit("VmShutdown");
    reveal_strlit("VmReboot");
    reveal_strlit("VmAction");
    reveal_strlit("VmmShutdown");
}

/// The text of an error tells the error, so that the failure of each
/// action can be told from that of every other: two errors render alike
/// if and only if they are of one kind and hold the same.
pub proof fn lemma_rendering_tells_error(a: HttpError, b: HttpError)
    ensures
        a.rendering() == b.rendering() <==> a.alike(b),
{
    lemma_rendering_probes(a);
    lemma_rendering_probes(b);
    if a.rendering() == b.rendering() {
        assert(a.same_kind(b));
        assert(kind_name(a) == kind_name(b));
        lemma_tagged_injective(kind_name(a), a.held(), b.held());
    }
    match (a, b) {
        (HttpError::VmCreate(x), HttpError::VmCreate(y)) => lemma_rendering_tells_failure(x, y),
        (HttpError::VmBoot(x), HttpError::VmBoot(y)) => lemma_rendering_tells_failure(x, y),
        (HttpError::VmInfo(x), HttpError::VmInfo(y)) => lemma_rendering_tells_failure(x, y),
        (HttpError::VmPause(x), HttpError::VmPause(y)) => lemma_rendering_tells_failure(x, y),
        (HttpError::VmResume(x), HttpError::VmResume(y)) => lemma_rendering_tells_failure(x, y),
        (HttpError::VmShutdown(x), HttpError::VmShutdown(y)) => lemma_rendering_tells_failure(
            x,
            y,
        ),
        (HttpError::VmReboot(x), HttpError::VmReboot(y)) => lemma_rendering_tells_failure(x, y),
        (HttpError::VmAction(x), HttpError::VmAction(y)) => lemma_rendering_tells_failure(x, y),
        (HttpError::VmmShutdown(x), HttpError::VmmShutdown(y)) => lemma_rendering_tells_failure(
            x,
            y,
        ),
        _ => {},
    }
}

/// What a lifecycle action reports for two failures renders alike if and
/// only if the failures are alike.
pub proof fn lemma_action_failure_told_apart(a: ApiError, b: ApiError)
    ensures
        HttpError::action_failure(a).rendering() == HttpError::action_failure(b).rendering()
            <==> a.alike(b),
{
    lemma_rendering_tells_error(HttpError::action_failure(a), HttpError::action_failure(b));
}

/// The response to an error tells the error: two such responses are the
/// same, byte for byte, if and only if their status is the same and their
/// errors are alike.
pub proof fn lemma_error_response_tells_error(
    a: HttpError,
    status_a: StatusCode,
    b: HttpError,
    status_b: StatusCode,
)
    ensures
        ResponseView::text(status_a, a.rendering()) == ResponseView::text(status_b, b.rendering())
            <==> status_a == status_b && a.alike(b),
{
    lemma_rendering_tells_error(a, b);
    vstd::utf8::encode_utf8_decode_utf8(a.rendering());
    vstd::utf8::encode_utf8_decode_utf8(b.rendering());
}

/// The response that reports an error: the given status, and as body the
/// rendering of the error.
pub fn error_response(error: HttpError, status: StatusCode) -> (response: Response)
    ensures
        response@ == ResponseView::text(status, error.rendering()),
{
    let text = error.render();
    Response::with_text(status, text.as_str())
}

} // verus!
