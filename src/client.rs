use vstd::prelude::*;
use vstd::string::StringExecFns;
use crate::json::{Json, member_of};

verus! {

/// Why a call to the inference server failed.
#[derive(Debug)]
pub enum ChatError {
    /// The connection could not be made, or the request or its answer was cut off.
    Transport(String),
    /// The server answered with a body that does not have the expected shape.
    Decode(String),
}

impl ChatError {
    /// The text shown at the UI boundary for this error.
    pub open spec fn description(self) -> Seq<char> {
        match self {
            ChatError::Transport(detail) => "transport error: "@ + detail@,
            ChatError::Decode(detail) => "decode error: "@ + detail@,
        }
    }

    pub fn describe(&self) -> (r: String)
        ensures
            r@ == self.description(),
    {
        match self {
            ChatError::Transport(detail) => String::from_str("transport error: ").concat(detail.as_str()),
            ChatError::Decode(detail) => String::from_str("decode error: ").concat(detail.as_str()),
        }
    }
}

/// What the server reports of one model, as a mathematical value.
pub struct ModelView {
    pub name: Seq<char>,
    pub modified_at: Seq<char>,
    pub size: u64,
    pub digest: Seq<char>,
}

/// One model known to the inference server.
#[derive(Debug)]
pub struct ModelInfo {
    pub name: String,
    pub modified_at: String,
    pub size: u64,
    pub digest: String,
}

impl View for ModelInfo {
    type V = ModelView;

    open spec fn view(&self) -> ModelView {
        ModelView {
            name: self.name@,
            modified_at: self.modified_at@,
            size: self.size,
            digest: self.digest@,
        }
    }
}

/// The models that the server lists, in the order it gives them.
#[derive(Debug)]
pub struct ModelsResponse {
    pub models: Vec<ModelInfo>,
}

impl View for ModelsResponse {
    type V = Seq<ModelView>;

    open spec fn view(&self) -> Seq<ModelView> {
        self.models@.map_values(|m: ModelInfo| m@)
    }
}

/// A prompt for the named model.
#[derive(Debug)]
pub struct GenerateRequest {
    pub model: String,
    pub prompt: String,
}

/// The model that a listing entry describes, when it carries all four fields.
pub open spec fn listed_model(entry: Json) -> Option<ModelView> {
    if entry.text_member("name"@) is Some && entry.text_member("modified_at"@) is Some
        && entry.unsigned_member("size"@) is Some && entry.text_member("digest"@) is Some {
        Some(
            ModelView {
                name: entry.text_member("name"@)->Some_0,
                modified_at: entry.text_member("modified_at"@)->Some_0,
                size: entry.unsigned_member("size"@)->Some_0,
                digest: entry.text_member("digest"@)->Some_0,
            },
        )
    } else {
        None
    }
}

/// The entries of a listing body: its member `models`, when that is an array.
pub open spec fn listing_entries(body: Json) -> Option<Seq<Json>> {
    match body.member_spec("models"@) {
        Some(Json::Array(items)) => Some(items@),
        _ => None,
    }
}

/// The models that a listing body reports, in its order; none when the body
/// or one of its entries lacks the expected shape.
pub open spec fn listed_models(body: Json) -> Option<Seq<ModelView>> {
    match listing_entries(body) {
        Some(items) => if forall|i: int| 0 <= i < items.len() ==> (#[trigger] listed_model(items[i])) is Some {
            Some(items.map_values(|e: Json| listed_model(e)->Some_0))
        } else {
            None
        },
        None => None,
    }
}

/// The completion that a generation body carries: its member `response`,
/// when that is a string.
pub open spec fn generated_text(body: Json) -> Option<Seq<char>> {
    body.text_member("response"@)
}

/// Whether `body` is the request for a single, non-streamed completion of
/// `prompt` by `model`.
pub open spec fn is_generate_body(body: Json, model: Seq<char>, prompt: Seq<char>) -> bool {
    &&& body is Object
    &&& body->Object_0@.len() == 3
    &&& body.text_member("model"@) == Some(model)
    &&& body.text_member("prompt"@) == Some(prompt)
    &&& body.member_spec("stream"@) matches Some(Json::Bool(flag)) && !flag
}

/// Reads one entry of the model listing.
pub fn decode_model(entry: &Json) -> (r: Result<ModelInfo, ChatError>)
    ensures
        match r {
            Ok(m) => listed_model(*entry) == Some(m@),
            Err(e) => listed_model(*entry) is None && e is Decode,
        },
{
    let name = match entry.text_of("name") {
        Some(s) => s,
        None => return Err(ChatError::Decode(String::from_str("model entry without a text `name`"))),
    };
    let modified_at = match entry.text_of("modified_at") {
        Some(s) => s,
        None => return Err(ChatError::Decode(String::from_str("model entry without a text `modified_at`"))),
    };
    let size = match entry.unsigned_of("size") {
        Some(n) => n,
        None => return Err(ChatError::Decode(String::from_str("model entry without a whole `size`"))),
    };
    let digest = match entry.text_of("digest") {
        Some(s) => s,
        None => return Err(ChatError::Decode(String::from_str("model entry without a text `digest`"))),
    };
    Ok(ModelInfo { name, modified_at, size, digest })
}

/// Reads the body of a model listing; the models keep the server's order.
pub fn decode_models(body: &Json) -> (r: Result<ModelsResponse, ChatError>)
    ensures
        match r {
            Ok(resp) => listed_models(*body) == Some(resp@),
            Err(e) => listed_models(*body) is None && e is Decode,
        },
{
    let items = match body.member("models") {
        Some(Json::Array(items)) => items,
        _ => return Err(ChatError::Decode(String::from_str("listing without a `models` array"))),
    };
    let mut models: Vec<ModelInfo> = Vec::new();
    let mut i: usize = 0;
    while i < items.len()
        invariant
            i <= items@.len(),
            listing_entries(*body) == Some(items@),
            models@.len() == i,
            forall|k: int| 0 <= k < i ==> listed_model(items@[k]) == Some(#[trigger] models@[k]@),
        decreases items@.len() - i,
    {
        match decode_model(&items[i]) {
            Ok(m) => models.push(m),
            Err(e) => {
                assert(!(listed_model(items@[i as int]) is Some));
                return Err(e);
            },
        }
        i = i + 1;
    }
    assert forall|k: int| 0 <= k < items@.len() implies (#[trigger] listed_model(items@[k])) is Some by {
        assert(listed_model(items@[k]) == Some(models@[k]@));
    }
    let resp = ModelsResponse { models };
    assert(resp@ =~= items@.map_values(|e: Json| listed_model(e)->Some_0));
    Ok(resp)
}

/// Reads the completion out of a generation body.
pub fn decode_generation(body: &Json) -> (r: Result<String, ChatError>)
    ensures
        match r {
            Ok(text) => generated_text(*body) == Some(text@),
            Err(e) => generated_text(*body) is None && e is Decode,
        },
{
    match body.text_of("response") {
        Some(text) => Ok(text),
        None => Err(ChatError::Decode(String::from_str("generation without a text `response`"))),
    }
}

/// The body that asks `request.model` for one complete, non-streamed answer
/// to `request.prompt`.
pub fn generate_body(request: &GenerateRequest) -> (r: Json)
    ensures
        is_generate_body(r, request.model@, request.prompt@),
{
    let mut members: Vec<(String, Json)> = Vec::new();
    members.push((String::from_str("model"), Json::Str(request.model.clone())));
    members.push((String::from_str("prompt"), Json::Str(request.prompt.clone())));
    members.push((String::from_str("stream"), Json::Bool(false)));
    let body = Json::Object(members);
    proof {
        reveal_strlit("model");
        reveal_strlit("prompt");
        reveal_strlit("stream");
        assert("model"@.len() == 5 && "prompt"@.len() == 6 && "stream"@.len() == 6);
        assert("prompt"@[0] != "stream"@[0]);
        assert(members@[1].0@ != "model"@);
        assert(members@[2].0@ != "model"@);
        assert(members@[2].0@ != "prompt"@);
        assert(member_of(members@, "model"@) == Some(members@[0].1));
        reveal_with_fuel(member_of, 3);
        assert(members@.drop_first()[0] == members@[1]);
        assert(members@.drop_first().drop_first()[0] == members@[2]);
        assert(member_of(members@, "prompt"@) == Some(members@[1].1));
        assert(member_of(members@, "stream"@) == Some(members@[2].1));
    }
    body
}

/// Where the inference server listens.
#[derive(Debug)]
pub struct Endpoint {
    base: String,
}

impl Endpoint {
    pub closed spec fn base_spec(&self) -> Seq<char> {
        self.base@
    }

    /// The server on this machine at its usual port.
    pub fn local() -> (r: Endpoint)
        ensures
            r.base_spec() == "http://localhost:11434"@,
    {
        Endpoint { base: String::from_str("http://localhost:11434") }
    }

    /// A server at another base address, written without a trailing `/`.
    pub fn new(base: String) -> (r: Endpoint)
        ensures
            r.base_spec() == base@,
    {
        Endpoint { base }
    }

    /// Where the models are listed.
    pub fn tags_url(&self) -> (r: String)
        ensures
            r@ == self.base_spec() + "/api/tags"@,
    {
        self.base.clone().concat("/api/tags")
    }

    /// Where completions are asked for.
    pub fn generate_url(&self) -> (r: String)
        ensures
            r@ == self.base_spec() + "/api/generate"@,
    {
        self.base.clone().concat("/api/generate")
    }
}

} // verus!
