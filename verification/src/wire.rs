//! The messages that client and service exchange.
//!
//! Every message is a JSON object with a `type` and a `payload` member, sent
//! as text.

use crate::descriptor::{DescriptorView, SessionDescriptor};
use crate::json::{
    array_value, json_of, json_text, object_of, object_value, text_value, to_text,
    unsigned_value, Json, JsonNumber,
};
use serde_json::Value;
use vstd::prelude::*;

verus! {

/// A message as the transport delivers it.
#[derive(Clone, Debug, PartialEq, Eq)]
pub enum Message {
    Text(String),
    Binary(Vec<u8>),
    Ping(Vec<u8>),
    Pong(Vec<u8>),
    Close,
}

/// Which request opens the session.
#[derive(Clone, Copy, PartialEq, Eq, Structural, Debug)]
pub enum RequestKind {
    /// The full session request.
    Session,
    /// The reduced request, which only subscribes to features.
    Subscription,
}

impl RequestKind {
    /// The value of the request's `type` member.
    pub open spec fn tag(self) -> Seq<char> {
        match self {
            RequestKind::Session => "session_request"@,
            RequestKind::Subscription => "subscription_request"@,
        }
    }

    /// The value of the request's `type` member.
    pub fn name(self) -> (r: &'static str)
        ensures
            r@ == self.tag(),
    {
        match self {
            RequestKind::Session => "session_request",
            RequestKind::Subscription => "subscription_request",
        }
    }
}

/// The message with the given `type` and `payload`.
pub open spec fn envelope(tag: Seq<char>, payload: Json) -> Json {
    Json::Object(Map::empty().insert("type"@, Json::Text(tag)).insert("payload"@, payload))
}

/// The JSON strings of the given names, in order.
pub open spec fn names_json(names: Seq<Seq<char>>) -> Seq<Json> {
    names.map_values(|s: Seq<char>| Json::Text(s))
}

/// The payload of a request: the descriptor's four fields.
pub open spec fn descriptor_json(d: DescriptorView) -> Json {
    Json::Object(
        Map::empty().insert("features"@, Json::Array(names_json(d.features))).insert(
            "sample_rate"@,
            Json::Number(JsonNumber::Int(d.sample_rate as int)),
        ).insert("hop_size"@, Json::Number(JsonNumber::Int(d.hop_size as int))).insert(
            "memory"@,
            Json::Number(JsonNumber::Int(d.memory as int)),
        ),
    )
}

/// The request that opens a session for `d`.
pub open spec fn request_json(kind: RequestKind, d: DescriptorView) -> Json {
    envelope(kind.tag(), descriptor_json(d))
}

/// The message that carries one chunk of samples.
pub open spec fn audio_frame_json(samples: Seq<Json>) -> Json {
    envelope("audio_frame"@, Json::Array(samples))
}

/// The documents that the given values hold, in order.
pub open spec fn documents(values: Seq<Value>) -> Seq<Json> {
    values.map_values(|v: Value| json_of(v))
}

proof fn lemma_object_of_two(a: (Seq<char>, Json), b: (Seq<char>, Json))
    ensures
        object_of(seq![a, b]) == Map::<Seq<char>, Json>::empty().insert(a.0, a.1).insert(b.0, b.1),
{
    reveal_with_fuel(object_of, 3);
    let s = seq![a, b];
    assert(s.drop_last() =~= seq![a]);
    assert(seq![a].drop_last() =~= Seq::<(Seq<char>, Json)>::empty());
}

proof fn lemma_object_of_four(
    a: (Seq<char>, Json),
    b: (Seq<char>, Json),
    c: (Seq<char>, Json),
    d: (Seq<char>, Json),
)
    ensures
        object_of(seq![a, b, c, d]) == Map::<Seq<char>, Json>::empty().insert(a.0, a.1).insert(
            b.0,
            b.1,
        ).insert(c.0, c.1).insert(d.0, d.1),
{
    reveal_with_fuel(object_of, 5);
    let s = seq![a, b, c, d];
    assert(s.drop_last() =~= seq![a, b, c]);
    assert(seq![a, b, c].drop_last() =~= seq![a, b]);
    assert(seq![a, b].drop_last() =~= seq![a]);
    assert(seq![a].drop_last() =~= Seq::<(Seq<char>, Json)>::empty());
}

/// The text of the message with the given `type` and `payload`.
fn envelope_text(tag: &str, payload: Value) -> (r: String)
    ensures
        r@ == json_text(envelope(tag@, json_of(payload))),
{
    let mut pairs: Vec<(&str, Value)> = Vec::new();
    pairs.push(("type", text_value(tag)));
    pairs.push(("payload", payload));
    proof {
        reveal_strlit("type");
        reveal_strlit("payload");
        assert(pairs@[0].0@ == "type"@ && pairs@[1].0@ == "payload"@);
        assert("type"@.len() == 4 && "payload"@.len() == 7);
        let entries = pairs@.map_values(|p: (&str, Value)| (p.0@, json_of(p.1)));
        assert(entries =~= seq![("type"@, Json::Text(tag@)), ("payload"@, json_of(payload))]);
        lemma_object_of_two(("type"@, Json::Text(tag@)), ("payload"@, json_of(payload)));
    }
    let message = object_value(pairs);
    to_text(&message)
}

/// The JSON strings of the given names, as values.
fn name_values(names: &Vec<String>) -> (r: Vec<Value>)
    ensures
        documents(r@) == names_json(crate::descriptor::names_of(names@)),
{
    let mut out: Vec<Value> = Vec::new();
    let mut i: usize = 0;
    while i < names.len()
        invariant
            i <= names.len(),
            out@.len() == i,
            forall|k: int| 0 <= k < i ==> json_of(#[trigger] out@[k]) == Json::Text(names@[k]@),
        decreases names.len() - i,
    {
        out.push(text_value(names[i].as_str()));
        i += 1;
    }
    assert(documents(out@) =~= names_json(crate::descriptor::names_of(names@)));
    out
}

/// The text of the request that opens a session for `descriptor`.
pub fn request_text(kind: RequestKind, descriptor: &SessionDescriptor) -> (r: String)
    ensures
        r@ == json_text(request_json(kind, descriptor@)),
{
    let names = name_values(descriptor.features());
    let features = array_value(names);
    let sample_rate = unsigned_value(descriptor.sample_rate());
    let hop_size = unsigned_value(descriptor.hop_size());
    let memory = unsigned_value(descriptor.memory());
    let mut pairs: Vec<(&str, Value)> = Vec::new();
    pairs.push(("features", features));
    pairs.push(("sample_rate", sample_rate));
    pairs.push(("hop_size", hop_size));
    pairs.push(("memory", memory));
    proof {
        reveal_strlit("features");
        reveal_strlit("sample_rate");
        reveal_strlit("hop_size");
        reveal_strlit("memory");
        assert(pairs@[0].0@ == "features"@ && pairs@[1].0@ == "sample_rate"@);
        assert(pairs@[2].0@ == "hop_size"@ && pairs@[3].0@ == "memory"@);
        assert("features"@.len() == 8 && "sample_rate"@.len() == 11);
        assert("hop_size"@.len() == 8 && "memory"@.len() == 6);
        assert("features"@[0] == 'f' && "hop_size"@[0] == 'h');
        let d = descriptor@;
        let a = ("features"@, Json::Array(names_json(d.features)));
        let b = ("sample_rate"@, Json::Number(JsonNumber::Int(d.sample_rate as int)));
        let c = ("hop_size"@, Json::Number(JsonNumber::Int(d.hop_size as int)));
        let e = ("memory"@, Json::Number(JsonNumber::Int(d.memory as int)));
        let entries = pairs@.map_values(|p: (&str, Value)| (p.0@, json_of(p.1)));
        assert(entries =~= seq![a, b, c, e]);
        lemma_object_of_four(a, b, c, e);
    }
    let payload = object_value(pairs);
    envelope_text(kind.name(), payload)
}

/// The text of the message that carries one chunk of samples, each given as
/// the JSON number that stands for it.
pub fn audio_frame_text(samples: Vec<Value>) -> (r: String)
    ensures
        r@ == json_text(audio_frame_json(documents(samples@))),
{
    let payload = array_value(samples);
    envelope_text("audio_frame", payload)
}

} // verus!
