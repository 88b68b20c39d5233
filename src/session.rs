use vstd::prelude::*;
use crate::client::{
    ChatError, GenerateRequest, ModelsResponse, decode_generation, decode_models, generate_body,
    generated_text, is_generate_body, listed_models,
};
use crate::json::Json;
use crate::message::{Message, Turn};
use crate::transcript::Transcript;

verus! {

/// The conversation of one running front-end: it records each prompt before
/// the server is asked, and each completion once it has come back.
///
/// A generation is split in two steps so that nothing is held across the
/// call to the server: `begin_generate` records the prompt and gives the
/// request to send; `finish_generate` takes what the server returned.
pub struct Session {
    transcript: Transcript,
}

/// A generation whose prompt is recorded and whose answer is still awaited.
#[derive(Debug)]
pub struct PendingGeneration {
    /// Where the prompt stands in the transcript.
    pub slot: usize,
    /// The request body to send to the server.
    pub body: Json,
}

/// The completion that a server outcome carries, if it carries one.
pub open spec fn completion_of(outcome: Result<Json, ChatError>) -> Option<Seq<char>> {
    match outcome {
        Ok(body) => generated_text(body),
        Err(_) => None,
    }
}

impl View for Session {
    type V = Seq<Turn>;

    closed spec fn view(&self) -> Seq<Turn> {
        self.transcript@
    }
}

impl Session {
    /// A session with an empty transcript.
    pub fn new() -> (r: Session)
        ensures
            r@ == Seq::<Turn>::empty(),
    {
        Session { transcript: Transcript::new() }
    }

    /// A session that goes on from a given transcript.
    pub fn from_transcript(transcript: Transcript) -> (r: Session)
        ensures
            r@ == transcript@,
    {
        Session { transcript }
    }

    /// Records the prompt as a user turn and gives the request to send.
    pub fn begin_generate(&mut self, request: &GenerateRequest) -> (r: PendingGeneration)
        ensures
            final(self)@ == old(self)@.push(Turn::user(request.prompt@)),
            r.slot == old(self)@.len(),
            final(self)@[r.slot as int] == Turn::user(request.prompt@),
            is_generate_body(r.body, request.model@, request.prompt@),
    {
        let slot = self.transcript.len();
        self.transcript.append(Message::user(request.prompt.clone()));
        PendingGeneration { slot, body: generate_body(request) }
    }

    /// Takes what the server returned for a generation. A completion is
    /// recorded as an assistant turn and handed back; a failure is handed
    /// back and the transcript stays as it is, the prompt included.
    pub fn finish_generate(&mut self, outcome: Result<Json, ChatError>) -> (r: Result<String, ChatError>)
        ensures
            r is Ok <==> completion_of(outcome) is Some,
            r matches Ok(text) ==> text@ == completion_of(outcome)->Some_0
                && final(self)@ == old(self)@.push(Turn::assistant(text@)),
            r is Err ==> final(self)@ == old(self)@,
            outcome is Err ==> r == Err::<String, ChatError>(outcome->Err_0),
            outcome is Ok && r is Err ==> r->Err_0 is Decode,
    {
        match outcome {
            Ok(body) => match decode_generation(&body) {
                Ok(text) => {
                    self.transcript.append(Message::assistant(text.clone()));
                    Ok(text)
                },
                Err(e) => Err(e),
            },
            Err(e) => Err(e),
        }
    }

    /// Every turn so far, in order.
    pub fn history(&self) -> (r: Vec<Message>)
        ensures
            r@.map_values(|m: Message| m@) == self@,
    {
        self.transcript.snapshot()
    }
}

/// Takes what the server returned for a model listing: a transport failure
/// is handed on as it is, a body is read into the models it lists.
pub fn list_models(outcome: Result<Json, ChatError>) -> (r: Result<ModelsResponse, ChatError>)
    ensures
        outcome is Err ==> r == Err::<ModelsResponse, ChatError>(outcome->Err_0),
        outcome matches Ok(body) ==> match r {
            Ok(resp) => listed_models(body) == Some(resp@),
            Err(e) => listed_models(body) is None && e is Decode,
        },
{
    match outcome {
        Ok(body) => decode_models(&body),
        Err(e) => Err(e),
    }
}

/// Puts a result into the form the UI boundary takes: an error becomes its
/// description.
pub fn into_reply<T>(result: Result<T, ChatError>) -> (r: Result<T, String>)
    ensures
        result matches Ok(v) ==> r == Ok::<T, String>(v),
        result matches Err(e) ==> r matches Err(text) && text@ == e.description(),
{
    match result {
        Ok(v) => Ok(v),
        Err(e) => Err(e.describe()),
    }
}

} // verus!
