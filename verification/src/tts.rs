use crate::ids::SpeakerId;
use vstd::prelude::*;

verus! {

/// What is asked of the synthesis backend: a text that is not empty, and
/// the voice to speak it in.
#[derive(Clone, Debug, PartialEq, Eq)]
pub struct SynthesisRequest {
    pub text: String,
    pub speaker: SpeakerId,
}

/// A [`SynthesisRequest`] as a mathematical value.
pub struct RequestModel {
    pub text: Seq<char>,
    pub speaker: SpeakerId,
}

impl View for SynthesisRequest {
    type V = RequestModel;

    open spec fn view(&self) -> RequestModel {
        RequestModel { text: self.text@, speaker: self.speaker }
    }
}

impl SynthesisRequest {
    /// A request to speak `text`; none for an empty text.
    pub fn new(text: String, speaker: SpeakerId) -> (request: Option<SynthesisRequest>)
        ensures
            match request {
                Some(r) => text@.len() > 0 && r@ == (RequestModel { text: text@, speaker }),
                None => text@.len() == 0,
            },
    {
        if text.as_str().is_empty() {
            None
        } else {
            Some(SynthesisRequest { text, speaker })
        }
    }
}

/// Why a request brought no waveform.
#[derive(Clone, Copy, Debug, PartialEq, Eq, Structural)]
pub enum SynthesisError {
    /// The backend could not be reached.
    Network,
    /// The backend did not answer in time.
    Timeout,
    /// The backend answered with this status, which is none of success.
    Rejected(u16),
    /// The backend answered with success and no bytes.
    EmptyResponse,
}

/// How a call of the backend ended.
#[derive(Clone, Debug, PartialEq, Eq)]
pub enum BackendReply {
    /// The connection failed.
    Unreachable,
    /// No answer came in time.
    TimedOut,
    /// The backend answered.
    Answered { status: u16, body: Vec<u8> },
}

/// A [`BackendReply`] as a mathematical value.
pub enum ReplyModel {
    Unreachable,
    TimedOut,
    Answered { status: u16, body: Seq<u8> },
}

impl View for BackendReply {
    type V = ReplyModel;

    open spec fn view(&self) -> ReplyModel {
        match self {
            BackendReply::Unreachable => ReplyModel::Unreachable,
            BackendReply::TimedOut => ReplyModel::TimedOut,
            BackendReply::Answered { status, body } => ReplyModel::Answered {
                status: *status,
                body: body@,
            },
        }
    }
}

/// Whether `status` is one of the statuses of success, 200 to 299.
pub open spec fn success_status(status: u16) -> bool {
    200 <= status <= 299
}

/// The waveform bytes that `reply` brought, or why it brought none.
pub open spec fn waveform_of(reply: ReplyModel) -> Result<Seq<u8>, SynthesisError> {
    match reply {
        ReplyModel::Unreachable => Err(SynthesisError::Network),
        ReplyModel::TimedOut => Err(SynthesisError::Timeout),
        ReplyModel::Answered { status, body } => if !success_status(status) {
            Err(SynthesisError::Rejected(status))
        } else if body.len() == 0 {
            Err(SynthesisError::EmptyResponse)
        } else {
            Ok(body)
        },
    }
}

/// Takes the waveform bytes out of a reply, or says why there are none.
pub fn into_waveform(reply: BackendReply) -> (result: Result<Vec<u8>, SynthesisError>)
    ensures
        match result {
            Ok(bytes) => waveform_of(reply@) == Ok::<Seq<u8>, SynthesisError>(bytes@),
            Err(e) => waveform_of(reply@) == Err::<Seq<u8>, SynthesisError>(e),
        },
{
    match reply {
        BackendReply::Unreachable => Err(SynthesisError::Network),
        BackendReply::TimedOut => Err(SynthesisError::Timeout),
        BackendReply::Answered { status, body } => {
            if status < 200 || status > 299 {
                Err(SynthesisError::Rejected(status))
            } else if body.len() == 0 {
                Err(SynthesisError::EmptyResponse)
            } else {
                Ok(body)
            }
        },
    }
}

} // verus!
