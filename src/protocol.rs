//! The wire envelope: its kinds, its model, and its text form.
use vstd::prelude::*;
use crate::json::{as_list, as_text, is_null, json_doc, json_value_start, json_quoted, member, parse_json, quote, Json, JsonDoc};

verus! {

/// The kind of an envelope; on the wire it is written in lower case.
#[derive(Clone, Copy, Debug, PartialEq, Eq, Structural)]
pub enum MsgTypes {
    Users,
    Register,
    Message,
}

/// Why an inbound frame or its payload was dropped.
#[derive(Clone, Copy, Debug, PartialEq, Eq, Structural)]
pub enum ProtocolError {
    /// The frame is not a structurally valid envelope.
    MalformedEnvelope,
    /// The envelope is valid but its payload has not the shape its kind asks for.
    MalformedPayload,
}

impl MsgTypes {
    /// The wire name of the kind.
    pub open spec fn tag_spec(self) -> Seq<char> {
        match self {
            MsgTypes::Users => "users"@,
            MsgTypes::Register => "register"@,
            MsgTypes::Message => "message"@,
        }
    }

    /// The kind whose wire name is `t`, if any.
    pub open spec fn from_tag_spec(t: Seq<char>) -> Option<MsgTypes> {
        if t == "users"@ {
            Some(MsgTypes::Users)
        } else if t == "register"@ {
            Some(MsgTypes::Register)
        } else if t == "message"@ {
            Some(MsgTypes::Message)
        } else {
            None
        }
    }

    pub fn tag(&self) -> (r: String)
        ensures
            r@ == self.tag_spec(),
    {
        match self {
            MsgTypes::Users => String::from_str("users"),
            MsgTypes::Register => String::from_str("register"),
            MsgTypes::Message => String::from_str("message"),
        }
    }

    pub fn from_tag(t: &String) -> (r: Option<MsgTypes>)
        ensures
            r == Self::from_tag_spec(t@),
    {
        if *t == String::from_str("users") {
            Some(MsgTypes::Users)
        } else if *t == String::from_str("register") {
            Some(MsgTypes::Register)
        } else if *t == String::from_str("message") {
            Some(MsgTypes::Message)
        } else {
            None
        }
    }
}

/// Every kind is read back from its wire name.
pub proof fn lemma_tag_round_trip(k: MsgTypes)
    ensures
        MsgTypes::from_tag_spec(k.tag_spec()) == Some(k),
{
    reveal_strlit("users");
    reveal_strlit("register");
    reveal_strlit("message");
    assert("users"@.len() == 5 && "register"@.len() == 8 && "message"@.len() == 7);
}

/// An envelope as it travels over the socket.
pub struct WebSocketMessage {
    pub message_type: MsgTypes,
    pub data_array: Option<Vec<String>>,
    pub data: Option<String>,
}

/// The mathematical model of an envelope.
pub struct EnvelopeView {
    pub kind: MsgTypes,
    pub list: Option<Seq<Seq<char>>>,
    pub text: Option<Seq<char>>,
}

/// The texts held by a vector of strings.
pub open spec fn texts_of(v: Seq<String>) -> Seq<Seq<char>> {
    v.map_values(|s: String| s@)
}

pub open spec fn list_view(o: Option<Vec<String>>) -> Option<Seq<Seq<char>>> {
    match o {
        Some(v) => Some(texts_of(v@)),
        None => None,
    }
}

pub open spec fn text_view(o: Option<String>) -> Option<Seq<char>> {
    match o {
        Some(s) => Some(s@),
        None => None,
    }
}

impl View for WebSocketMessage {
    type V = EnvelopeView;

    open spec fn view(&self) -> EnvelopeView {
        EnvelopeView {
            kind: self.message_type,
            list: list_view(self.data_array),
            text: text_view(self.data),
        }
    }
}

impl EnvelopeView {
    /// The kind decides which payload field may be populated: the list for
    /// users (an absent list stands for an empty one), the text, which must
    /// be there, for the other kinds.
    pub open spec fn wf(self) -> bool {
        match self.kind {
            MsgTypes::Users => self.text is None,
            _ => self.list is None && self.text is Some,
        }
    }
}

/// The envelope that a kind's wire name and the two payload fields make, or
/// `MalformedEnvelope` where the name is unknown or the fields do not match it.
pub open spec fn envelope_of_fields(
    tag: Seq<char>,
    list: Option<Seq<Seq<char>>>,
    text: Option<Seq<char>>,
) -> Result<EnvelopeView, ProtocolError> {
    match MsgTypes::from_tag_spec(tag) {
        None => Err(ProtocolError::MalformedEnvelope),
        Some(kind) => {
            let e = EnvelopeView { kind, list, text };
            if e.wf() {
                Ok(e)
            } else {
                Err(ProtocolError::MalformedEnvelope)
            }
        },
    }
}

/// Names joined as JSON string literals separated by commas.
pub open spec fn joined(items: Seq<Seq<char>>) -> Seq<char>
    decreases items.len(),
{
    if items.len() == 0 {
        Seq::empty()
    } else if items.len() == 1 {
        json_quoted(items[0])
    } else {
        joined(items.drop_last()) + ","@ + json_quoted(items.last())
    }
}

pub open spec fn list_json(list: Option<Seq<Seq<char>>>) -> Seq<char> {
    match list {
        Some(items) => "["@ + joined(items) + "]"@,
        None => "null"@,
    }
}

pub open spec fn text_json(text: Option<Seq<char>>) -> Seq<char> {
    match text {
        Some(t) => json_quoted(t),
        None => "null"@,
    }
}

/// The text form of an envelope: a JSON object with the members
/// `messageType`, `dataArray` and `data`, in that order.
pub open spec fn frame_of(e: EnvelopeView) -> Seq<char> {
    "{\"messageType\":\""@ + e.kind.tag_spec() + "\",\"dataArray\":"@ + list_json(e.list)
        + ",\"data\":"@ + text_json(e.text) + "}"@
}

/// Reading back the fields of a well-formed envelope gives the envelope.
pub proof fn lemma_fields_round_trip(e: EnvelopeView)
    requires
        e.wf(),
    ensures
        envelope_of_fields(e.kind.tag_spec(), e.list, e.text) == Ok::<EnvelopeView, ProtocolError>(
            e,
        ),
{
    lemma_tag_round_trip(e.kind);
}

fn list_to_json(items: &Vec<String>) -> (r: String)
    ensures
        r@ == "["@ + joined(texts_of(items@)) + "]"@,
{
    let ghost all = texts_of(items@);
    let mut out = String::from_str("[");
    let mut i: usize = 0;
    while i < items.len()
        invariant
            i <= items.len(),
            all == texts_of(items@),
            out@ == "["@ + joined(all.take(i as int)),
        decreases items.len() - i,
    {
        if i > 0 {
            out.append(",");
        }
        let q = quote(items[i].as_str());
        out.append(q.as_str());
        proof {
            let next = all.take(i + 1);
            assert(next.drop_last() =~= all.take(i as int));
            assert(next.last() == items@[i as int]@);
            if i == 0 {
                assert(all.take(0) =~= Seq::<Seq<char>>::empty());
                assert(out@ =~= "["@ + joined(next));
            } else {
                assert(out@ =~= "["@ + joined(next));
            }
        }
        i = i + 1;
    }
    assert(all.take(items.len() as int) =~= all);
    out.append("]");
    out
}

/// The text form of an envelope.
pub fn encode(e: &WebSocketMessage) -> (r: String)
    ensures
        r@ == frame_of(e@),
{
    let mut out = String::from_str("{\"messageType\":\"");
    let tag = e.message_type.tag();
    out.append(tag.as_str());
    out.append("\",\"dataArray\":");
    match &e.data_array {
        Some(items) => {
            let l = list_to_json(items);
            out.append(l.as_str());
        },
        None => {
            out.append("null");
        },
    }
    out.append(",\"data\":");
    match &e.data {
        Some(t) => {
            let q = quote(t.as_str());
            out.append(q.as_str());
        },
        None => {
            out.append("null");
        },
    }
    out.append("}");
    proof {
        assert(out@ =~= frame_of(e@));
    }
    out
}

impl WebSocketMessage {
    /// Builds an envelope from a kind's wire name and the payload fields,
    /// checking that they agree.
    pub fn from_fields(tag: &String, list: Option<Vec<String>>, text: Option<String>) -> (r: Result<
        WebSocketMessage,
        ProtocolError,
    >)
        ensures
            match envelope_of_fields(tag@, list_view(list), text_view(text)) {
                Ok(m) => r matches Ok(e) && e@ == m,
                Err(x) => r == Err::<WebSocketMessage, ProtocolError>(x),
            },
    {
        match MsgTypes::from_tag(tag) {
            None => Err(ProtocolError::MalformedEnvelope),
            Some(kind) => {
                let fits = match kind {
                    MsgTypes::Users => text.is_none(),
                    _ => list.is_none() && text.is_some(),
                };
                if fits {
                    Ok(WebSocketMessage { message_type: kind, data_array: list, data: text })
                } else {
                    Err(ProtocolError::MalformedEnvelope)
                }
            },
        }
    }
}

/// The text of a member that is a string or `null`: `Some(None)` where it is
/// absent or `null` (or the document is no object), `None` where it is
/// something else.
pub open spec fn text_member(d: JsonDoc, key: Seq<char>) -> Option<Option<Seq<char>>> {
    match d {
        JsonDoc::Obj(m) => if m.contains_key(key) {
            match m[key] {
                JsonDoc::Null => Some(None),
                JsonDoc::Str(t) => Some(Some(t)),
                _ => None,
            }
        } else {
            Some(None)
        },
        _ => Some(None),
    }
}

pub open spec fn all_strings(items: Seq<JsonDoc>) -> bool {
    forall|i: int| 0 <= i < items.len() ==> #[trigger] items[i] is Str
}

pub open spec fn strings_of(items: Seq<JsonDoc>) -> Seq<Seq<char>> {
    items.map_values(|x: JsonDoc| x->Str_0)
}

/// The texts of a member that is an array of strings or `null`, as
/// `text_member` reads a string member.
pub open spec fn list_member(d: JsonDoc, key: Seq<char>) -> Option<Option<Seq<Seq<char>>>> {
    match d {
        JsonDoc::Obj(m) => if m.contains_key(key) {
            match m[key] {
                JsonDoc::Null => Some(None),
                JsonDoc::Arr(items) => if all_strings(items) {
                    Some(Some(strings_of(items)))
                } else {
                    None
                },
                _ => None,
            }
        } else {
            Some(None)
        },
        _ => Some(None),
    }
}

/// The envelope a parsed frame holds: its `messageType` must be a string,
/// its `dataArray` an array of strings or null, its `data` a string or null,
/// and together they must make an envelope.
pub open spec fn envelope_of_doc(doc: Option<JsonDoc>) -> Result<EnvelopeView, ProtocolError> {
    match doc {
        None => Err(ProtocolError::MalformedEnvelope),
        Some(d) => match (
            text_member(d, "messageType"@),
            list_member(d, "dataArray"@),
            text_member(d, "data"@),
        ) {
            (Some(Some(tag)), Some(list), Some(text)) => envelope_of_fields(tag, list, text),
            _ => Err(ProtocolError::MalformedEnvelope),
        },
    }
}

/// The envelope a frame holds.
pub open spec fn envelope_of_frame(s: Seq<char>) -> Result<EnvelopeView, ProtocolError> {
    envelope_of_doc(json_doc(s))
}

fn optional_text(v: &Json, key: &str) -> (r: Result<Option<String>, ProtocolError>)
    ensures
        match text_member(v@, key@) {
            Some(o) => r matches Ok(x) && text_view(x) == o,
            None => r == Err::<Option<String>, ProtocolError>(ProtocolError::MalformedEnvelope),
        },
{
    match member(v, key) {
        None => Ok(None),
        Some(x) => {
            if is_null(&x) {
                Ok(None)
            } else {
                match as_text(&x) {
                    Some(t) => Ok(Some(t)),
                    None => Err(ProtocolError::MalformedEnvelope),
                }
            }
        },
    }
}

fn optional_list(v: &Json, key: &str) -> (r: Result<Option<Vec<String>>, ProtocolError>)
    ensures
        match list_member(v@, key@) {
            Some(o) => r matches Ok(x) && list_view(x) == o,
            None => r == Err::<Option<Vec<String>>, ProtocolError>(
                ProtocolError::MalformedEnvelope,
            ),
        },
{
    match member(v, key) {
        None => Ok(None),
        Some(x) => {
            if is_null(&x) {
                return Ok(None);
            }
            match as_list(&x) {
                None => Err(ProtocolError::MalformedEnvelope),
                Some(items) => {
                    let ghost docs = x@->Arr_0;
                    let mut out: Vec<String> = Vec::new();
                    let mut i: usize = 0;
                    while i < items.len()
                        invariant
                            i <= items.len(),
                            v@ is Obj,
                            v@->Obj_0.contains_key(key@),
                            v@->Obj_0[key@] == JsonDoc::Arr(docs),
                            items@.len() == docs.len(),
                            forall|j: int| 0 <= j < docs.len() ==> (#[trigger] items@[j])@ == docs[j],
                            out@.len() == i,
                            forall|j: int| 0 <= j < i ==> #[trigger] docs[j] is Str,
                            forall|j: int| 0 <= j < i ==> (#[trigger] out@[j])@ == docs[j]->Str_0,
                        decreases items.len() - i,
                    {
                        match as_text(&items[i]) {
                            Some(t) => out.push(t),
                            None => {
                                assert(!(docs[i as int] is Str));
                                assert(!all_strings(docs));
                                assert(list_member(v@, key@) is None);
                                return Err(ProtocolError::MalformedEnvelope);
                            },
                        }
                        i = i + 1;
                    }
                    assert(texts_of(out@) =~= strings_of(docs));
                    Ok(Some(out))
                },
            }
        },
    }
}

/// Parses one frame into the envelope it holds; text that is not JSON, and
/// JSON that is no envelope, give `MalformedEnvelope`.
pub fn decode(s: &str) -> (r: Result<WebSocketMessage, ProtocolError>)
    ensures
        match envelope_of_frame(s@) {
            Ok(m) => r matches Ok(e) && e@ == m,
            Err(x) => r == Err::<WebSocketMessage, ProtocolError>(x),
        },
        r matches Ok(e) ==> e@.wf(),
        s@.len() == 0 || !json_value_start(s@[0]) ==> json_doc(s@) is None,
{
    let v = match parse_json(s) {
        Ok(v) => v,
        Err(_) => return Err(ProtocolError::MalformedEnvelope),
    };
    let tag = match optional_text(&v, "messageType") {
        Ok(Some(t)) => t,
        _ => return Err(ProtocolError::MalformedEnvelope),
    };
    let list = optional_list(&v, "dataArray")?;
    let text = optional_text(&v, "data")?;
    WebSocketMessage::from_fields(&tag, list, text)
}

} // verus!
