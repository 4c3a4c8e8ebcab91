//! What the handlers exchange with the control loop: the lifecycle actions
//! that they forward and the errors that come back.

use vstd::prelude::*;

verus! {

/// The lifecycle actions of a virtual machine.
#[derive(Clone, Copy, Debug, PartialEq, Eq, Structural)]
pub enum VmAction {
    Boot,
    Delete,
    Shutdown,
    Reboot,
    Pause,
    Resume,
}

/// Why a command was not carried out.
///
/// The first four kinds are faults of the way to the control loop, the
/// others are failures that the control loop reports. A kind with a cause
/// holds the debug rendering of the cause, as text: the cause is rendered
/// where it arises, and goes into a response body as it is.
#[derive(Clone, Debug, PartialEq, Eq)]
pub enum ApiError {
    /// The wake signal could not be raised.
    EventFdWrite(String),
    /// The command could not be put on the queue.
    RequestSend(String),
    /// The reply was not of the expected shape.
    ResponsePayloadType,
    /// No reply arrived.
    ResponseRecv(String),
    /// The virtual machine could not be created.
    VmCreate(String),
    /// The virtual machine could not be booted.
    VmBoot(String),
    /// The virtual machine could not be deleted.
    VmDelete(String),
    /// The state of the virtual machine could not be told.
    VmInfo(String),
    /// The virtual machine could not be paused.
    VmPause(String),
    /// The virtual machine could not be resumed.
    VmResume(String),
    /// The virtual machine could not be shut down.
    VmShutdown(String),
    /// The virtual machine could not be rebooted.
    VmReboot(String),
    /// The monitor could not be shut down.
    VmmShutdown(String),
}

/// The text of a kind that holds a cause: the name, and the cause in
/// round brackets.
pub open spec fn tagged(name: Seq<char>, cause: Seq<char>) -> Seq<char> {
    name + "("@ + cause + ")"@
}

/// Builds the text of a kind that holds a cause.
pub fn render_tagged(name: &str, cause: &str) -> (text: String)
    ensures
        text@ == tagged(name@, cause@),
{
    let mut text = String::from_str(name);
    text.append("(");
    text.append(cause);
    text.append(")");
    text
}

impl ApiError {
    /// The text that stands for the error in a response body.
    pub open spec fn rendering(self) -> Seq<char> {
        match self {
            ApiError::EventFdWrite(cause) => tagged("EventFdWrite"@, cause@),
            ApiError::RequestSend(cause) => tagged("RequestSend"@, cause@),
            ApiError::ResponsePayloadType => "ResponsePayloadType"@,
            ApiError::ResponseRecv(cause) => tagged("ResponseRecv"@, cause@),
            ApiError::VmCreate(cause) => tagged("VmCreate"@, cause@),
            ApiError::VmBoot(cause) => tagged("VmBoot"@, cause@),
            ApiError::VmDelete(cause) => tagged("VmDelete"@, cause@),
            ApiError::VmInfo(cause) => tagged("VmInfo"@, cause@),
            ApiError::VmPause(cause) => tagged("VmPause"@, cause@),
            ApiError::VmResume(cause) => tagged("VmResume"@, cause@),
            ApiError::VmShutdown(cause) => tagged("VmShutdown"@, cause@),
            ApiError::VmReboot(cause) => tagged("VmReboot"@, cause@),
            ApiError::VmmShutdown(cause) => tagged("VmmShutdown"@, cause@),
        }
    }

    /// The cause that the error holds, as text; empty where it holds none.
    pub open spec fn cause(self) -> Seq<char> {
        match self {
            ApiError::EventFdWrite(cause) => cause@,
            ApiError::RequestSend(cause) => cause@,
            ApiError::ResponsePayloadType => Seq::empty(),
            ApiError::ResponseRecv(cause) => cause@,
            ApiError::VmCreate(cause) => cause@,
            ApiError::VmBoot(cause) => cause@,
            ApiError::VmDelete(cause) => cause@,
            ApiError::VmInfo(cause) => cause@,
            ApiError::VmPause(cause) => cause@,
            ApiError::VmResume(cause) => cause@,
            ApiError::VmShutdown(cause) => cause@,
            ApiError::VmReboot(cause) => cause@,
            ApiError::VmmShutdown(cause) => cause@,
        }
    }

    /// Whether two errors are of one kind.
    pub open spec fn same_kind(self, other: ApiError) -> bool {
        match self {
            ApiError::EventFdWrite(_) => other is EventFdWrite,
            ApiError::RequestSend(_) => other is RequestSend,
            ApiError::ResponsePayloadType => other is ResponsePayloadType,
            ApiError::ResponseRecv(_) => other is ResponseRecv,
            ApiError::VmCreate(_) => other is VmCreate,
            ApiError::VmBoot(_) => other is VmBoot,
            ApiError::VmDelete(_) => other is VmDelete,
            ApiError::VmInfo(_) => other is VmInfo,
            ApiError::VmPause(_) => other is VmPause,
            ApiError::VmResume(_) => other is VmResume,
            ApiError::VmShutdown(_) => other is VmShutdown,
            ApiError::VmReboot(_) => other is VmReboot,
            ApiError::VmmShutdown(_) => other is VmmShutdown,
        }
    }

    /// Whether two errors are of one kind and hold the same cause.
    pub open spec fn alike(self, other: ApiError) -> bool {
        self.same_kind(other) && self.cause() == other.cause()
    }

    /// Renders the error as text.
    pub fn render(&self) -> (text: String)
        ensures
            text@ == self.rendering(),
    {
        match self {
            ApiError::EventFdWrite(cause) => render_tagged("EventFdWrite", cause.as_str()),
            ApiError::RequestSend(cause) => render_tagged("RequestSend", cause.as_str()),
            ApiError::ResponsePayloadType => String::from_str("ResponsePayloadType"),
            ApiError::ResponseRecv(cause) => render_tagged("ResponseRecv", cause.as_str()),
            ApiError::VmCreate(cause) => render_tagged("VmCreate", cause.as_str()),
            ApiError::VmBoot(cause) => render_tagged("VmBoot", cause.as_str()),
            ApiError::VmDelete(cause) => render_tagged("VmDelete", cause.as_str()),
            ApiError::VmInfo(cause) => render_tagged("VmInfo", cause.as_str()),
            ApiError::VmPause(cause) => render_tagged("VmPause", cause.as_str()),
            ApiError::VmResume(cause) => render_tagged("VmResume", cause.as_str()),
            ApiError::VmShutdown(cause) => render_tagged("VmShutdown", cause.as_str()),
            ApiError::VmReboot(cause) => render_tagged("VmReboot", cause.as_str()),
            ApiError::VmmShutdown(cause) => render_tagged("VmmShutdown", cause.as_str()),
        }
    }
}

/// Two texts with one name hold one cause.
pub proof fn lemma_tagged_injective(name: Seq<char>, a: Seq<char>, b: Seq<char>)
    requires
        tagged(name, a) == tagged(name, b),
    ensures
        a == b,
{
    reveal_strlit("(");
    reveal_strlit(")");
    let open = name.len() + 1;
    assert(tagged(name, a).len() == open + a.len() + 1);
    assert(tagged(name, b).len() == open + b.len() + 1);
    assert forall|i: int| 0 <= i < a.len() implies a[i] == b[i] by {
        assert(tagged(name, a)[open + i] == a[i]);
        assert(tagged(name, b)[open + i] == b[i]);
    }
    assert(a =~= b);
}

/// The kind of an error as a number, read from four characters of its
/// text.
spec fn probed_kind(text: Seq<char>) -> int {
    if text[0] == 'E' {
        0
    } else if text[0] == 'R' {
        if text[2] == 'q' {
            1
        } else if text[8] == 'P' {
            2
        } else {
            3
        }
    } else if text[2] == 'C' {
        4
    } else if text[2] == 'B' {
        5
    } else if text[2] == 'D' {
        6
    } else if text[2] == 'I' {
        7
    } else if text[2] == 'P' {
        8
    } else if text[2] == 'R' {
        if text[4] == 's' {
            9
        } else {
            11
        }
    } else if text[2] == 'S' {
        10
    } else {
        12
    }
}

/// The number that `probed_kind` gives to each kind.
spec fn kind_number(e: ApiError) -> int {
    match e {
        ApiError::EventFdWrite(_) => 0,
        ApiError::RequestSend(_) => 1,
        ApiError::ResponsePayloadType => 2,
        ApiError::ResponseRecv(_) => 3,
        ApiError::VmCreate(_) => 4,
        ApiError::VmBoot(_) => 5,
        ApiError::VmDelete(_) => 6,
        ApiError::VmInfo(_) => 7,
        ApiError::VmPause(_) => 8,
        ApiError::VmResume(_) => 9,
        ApiError::VmShutdown(_) => 10,
        ApiError::VmReboot(_) => 11,
        ApiError::VmmShutdown(_) => 12,
    }
}

/// Four characters of the text of an error tell its kind.
proof fn lemma_rendering_probes(e: ApiError)
    ensures
        probed_kind(e.rendering()) == kind_number(e),
{
    reveal_strlit("(");
    reveal_strlit(")");
    reveal_strlit("EventFdWrite");
    reveal_strlit("RequestSend");
    reveal_strlit("ResponsePayloadType");
    reveal_strlit("ResponseRecv");
    reveal_strlit("VmCreate");
    reveal_strlit("VmBoot");
    reveal_strlit("VmDelete");
    reveal_strlit("VmInfo");
    reveal_strlit("VmPause");
    reveal_strlit("VmResume");
    reveal_strlit("VmShutdown");
    reveal_strlit("VmReboot");
    reveal_strlit("VmmShutdown");
}

/// The text of a failure tells the failure: two render alike if and only
/// if they are of one kind and hold the same cause.
pub proof fn lemma_rendering_tells_failure(a: ApiError, b: ApiError)
    ensures
        a.rendering() == b.rendering() <==> a.alike(b),
{
    if a.rendering() == b.rendering() {
        assert(a.same_kind(b)) by {
            lemma_rendering_probes(a);
            lemma_rendering_probes(b);
        }
        match a {
            ApiError::EventFdWrite(_) => lemma_tagged_injective(
                "EventFdWrite"@,
                a.cause(),
                b.cause(),
            ),
            ApiError::RequestSend(_) => lemma_tagged_injective(
                "RequestSend"@,
                a.cause(),
                b.cause(),
            ),
            ApiError::ResponsePayloadType => {},
            ApiError::ResponseRecv(_) => lemma_tagged_injective(
                "ResponseRecv"@,
                a.cause(),
                b.cause(),
            ),
            ApiError::VmCreate(_) => lemma_tagged_injective("VmCreate"@, a.cause(), b.cause()),
            ApiError::VmBoot(_) => lemma_tagged_injective("VmBoot"@, a.cause(), b.cause()),
            ApiError::VmDelete(_) => lemma_tagged_injective("VmDelete"@, a.cause(), b.cause()),
            ApiError::VmInfo(_) => lemma_tagged_injective("VmInfo"@, a.cause(), b.cause()),
            ApiError::VmPause(_) => lemma_tagged_injective("VmPause"@, a.cause(), b.cause()),
            ApiError::VmResume(_) => lemma_tagged_injective("VmResume"@, a.cause(), b.cause()),
            ApiError::VmShutdown(_) => lemma_tagged_injective(
                "VmShutdown"@,
                a.cause(),
                b.cause(),
            ),
            ApiError::VmReboot(_) => lemma_tagged_injective("VmReboot"@, a.cause(), b.cause()),
            ApiError::VmmShutdown(_) => lemma_tagged_injective(
                "VmmShutdown"@,
                a.cause(),
                b.cause(),
            ),
        }
    }
}

} // verus!
