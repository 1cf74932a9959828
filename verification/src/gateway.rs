//! The boundary to the language model: what is sent, what comes back, and what
//! is made of it. The exchange itself happens outside this library; here are
//! the request body, the address, and the reading of a response.
use vstd::prelude::*;
use vstd::string::StringExecFns;

verus! {

/// The address of the model's endpoint, up to the key that ends it.
pub const ENDPOINT_PREFIX: &'static str =
    "https://generativelanguage.googleapis.com/v1beta/models/gemini-2.5-flash:generateContent?key=";

/// The body of a request to the model.
#[derive(Debug, Clone)]
pub struct GeminiRequest {
    pub contents: Vec<Content>,
}

/// One content of a request: a list of parts.
#[derive(Debug, Clone)]
pub struct Content {
    pub parts: Vec<Part>,
}

/// One part of a content: a text.
#[derive(Debug, Clone)]
pub struct Part {
    pub text: String,
}

/// The body of the model's response. Every level of it may be missing.
#[derive(Debug, Clone)]
pub struct GeminiResponse {
    pub candidates: Option<Vec<Candidate>>,
}

/// One candidate reply.
#[derive(Debug, Clone)]
pub struct Candidate {
    pub content: Option<CandidateContent>,
}

/// The content of a candidate.
#[derive(Debug, Clone)]
pub struct CandidateContent {
    pub parts: Option<Vec<PartResponse>>,
}

/// One part of a candidate's content.
#[derive(Debug, Clone)]
pub struct PartResponse {
    pub text: String,
}

/// Why no reply was had from the model.
#[derive(Debug, Clone, Copy, PartialEq, Eq, Structural)]
pub enum UpstreamError {
    /// The exchange itself failed: nothing was sent, or nothing came back.
    Transport,
    /// The model answered with a status outside the success class.
    Status(u16),
    /// The body of the response could not be read as a response.
    Malformed,
    /// The response holds no text.
    NoReply,
}

/// Whether an HTTP status code lies in the success class, 200 to 299.
pub open spec fn spec_is_success_status(status: u16) -> bool {
    200 <= status < 300
}

/// The text of the first part of the first candidate, where each of the
/// levels down to it is there.
pub open spec fn spec_first_reply_text(response: GeminiResponse) -> Option<Seq<char>> {
    match response.candidates {
        Some(candidates) => if candidates@.len() > 0 {
            match candidates@[0].content {
                Some(content) => match content.parts {
                    Some(parts) => if parts@.len() > 0 {
                        Some(parts@[0].text@)
                    } else {
                        None
                    },
                    None => None,
                },
                None => None,
            }
        } else {
            None
        },
        None => None,
    }
}

/// What a delivered response amounts to: the reply text, or the reason why
/// there is none. `parsed` is the body as a response, where it could be read.
pub open spec fn spec_reply_from_response(status: u16, parsed: Option<GeminiResponse>) -> Result<
    Seq<char>,
    UpstreamError,
> {
    if !spec_is_success_status(status) {
        Err(UpstreamError::Status(status))
    } else {
        match parsed {
            None => Err(UpstreamError::Malformed),
            Some(response) => match spec_first_reply_text(response) {
                Some(text) => Ok(text),
                None => Err(UpstreamError::NoReply),
            },
        }
    }
}

/// The address that a request is sent to with a given key.
pub fn endpoint_url(api_key: &str) -> (url: String)
    ensures
        url@ == ENDPOINT_PREFIX@ + api_key@,
{
    let mut url = ENDPOINT_PREFIX.to_string();
    url.append(api_key);
    url
}

impl GeminiRequest {
    /// The request that carries one prompt: one content with one part.
    pub fn for_prompt(prompt: String) -> (request: GeminiRequest)
        ensures
            request.contents@.len() == 1,
            request.contents@[0].parts@.len() == 1,
            request.contents@[0].parts@[0].text == prompt,
    {
        let mut parts: Vec<Part> = Vec::new();
        parts.push(Part { text: prompt });
        let mut contents: Vec<Content> = Vec::new();
        contents.push(Content { parts });
        GeminiRequest { contents }
    }
}

/// Decides whether an HTTP status code reports success.
pub fn is_success_status(status: u16) -> (ok: bool)
    ensures
        ok == spec_is_success_status(status),
{
    200 <= status && status < 300
}

/// Takes the reply text out of a response: the text of the first part of the
/// first candidate, or `None` where the response holds none.
pub fn first_reply_text(response: &GeminiResponse) -> (reply: Option<String>)
    ensures
        match reply {
            Some(text) => spec_first_reply_text(*response) == Some(text@),
            None => spec_first_reply_text(*response) is None,
        },
{
    match &response.candidates {
        Some(candidates) => {
            if candidates.len() == 0 {
                return None;
            }
            match &candidates[0].content {
                Some(content) => match &content.parts {
                    Some(parts) => {
                        if parts.len() == 0 {
                            return None;
                        }
                        Some(parts[0].text.clone())
                    },
                    None => None,
                },
                None => None,
            }
        },
        None => None,
    }
}

/// Reads a response that was delivered: a status outside the success class is
/// an error whatever the body holds; with a good status the reply is the first
/// text of the body, and a body that cannot be read, or holds no text, is an
/// error of its own.
pub fn reply_from_response(status: u16, parsed: Option<GeminiResponse>) -> (outcome: Result<
    String,
    UpstreamError,
>)
    ensures
        match outcome {
            Ok(text) => spec_reply_from_response(status, parsed) == Ok::<Seq<char>, UpstreamError>(
                text@,
            ),
            Err(e) => spec_reply_from_response(status, parsed) == Err::<Seq<char>, UpstreamError>(
                e,
            ),
        },
{
    if !is_success_status(status) {
        return Err(UpstreamError::Status(status));
    }
    match parsed {
        None => Err(UpstreamError::Malformed),
        Some(response) => match first_reply_text(&response) {
            Some(text) => Ok(text),
            None => Err(UpstreamError::NoReply),
        },
    }
}

} // verus!
