//! The session state (roster and message log) and the dispatch of inbound
//! envelopes into it.
use vstd::prelude::*;
use crate::json::{as_text, json_doc, json_value_start, member, parse_json, JsonDoc};
use crate::protocol::{
    decode, encode, envelope_of_frame, frame_of, texts_of, EnvelopeView, MsgTypes, ProtocolError,
    WebSocketMessage,
};

verus! {

/// The avatar image of a user, made from the name alone.
pub open spec fn avatar_url(name: Seq<char>) -> Seq<char> {
    "https://avatars.dicebear.com/api/adventurer-neutral/"@ + name + ".svg"@
}

pub fn avatar_for(name: &str) -> (r: String)
    ensures
        r@ == avatar_url(name@),
{
    let mut out = String::from_str("https://avatars.dicebear.com/api/adventurer-neutral/");
    out.append(name);
    out.append(".svg");
    out
}

/// Whether a user name may start a session: it must not be empty.
pub fn can_log_in(username: &str) -> (r: bool)
    ensures
        r == (username@.len() > 0),
{
    username.unicode_len() > 0
}

/// A user of the roster.
pub struct UserProfile {
    pub name: String,
    pub avatar: String,
}

/// A message of the log.
pub struct MessageData {
    pub from: String,
    pub message: String,
}

pub struct ProfileView {
    pub name: Seq<char>,
    pub avatar: Seq<char>,
}

pub struct MessageView {
    pub from: Seq<char>,
    pub body: Seq<char>,
}

impl View for UserProfile {
    type V = ProfileView;

    open spec fn view(&self) -> ProfileView {
        ProfileView { name: self.name@, avatar: self.avatar@ }
    }
}

impl View for MessageData {
    type V = MessageView;

    open spec fn view(&self) -> MessageView {
        MessageView { from: self.from@, body: self.message@ }
    }
}

/// The profile that the avatar rule gives a name.
pub open spec fn profile_of(name: Seq<char>) -> ProfileView {
    ProfileView { name, avatar: avatar_url(name) }
}

/// The roster that a list of names gives, in the same order.
pub open spec fn roster_of(names: Seq<Seq<char>>) -> Seq<ProfileView> {
    names.map_values(|n: Seq<char>| profile_of(n))
}

/// A roster built from a users list holds exactly the names of that list,
/// in its order, each with the avatar of its name; nothing of an earlier
/// roster enters it.
pub proof fn lemma_roster_is_the_list(names: Seq<Seq<char>>)
    ensures
        roster_of(names).len() == names.len(),
        forall|i: int|
            0 <= i < names.len() ==> (#[trigger] roster_of(names)[i]).name == names[i]
                && roster_of(names)[i].avatar == avatar_url(names[i]),
{
}

/// What became of one inbound envelope.
#[derive(Clone, Copy, Debug, PartialEq, Eq, Structural)]
pub enum Outcome {
    RosterReplaced,
    MessageAppended,
    Ignored,
}

/// Session events.
pub enum Msg {
    /// A frame received from the socket.
    HandleMsg(String),
    /// The user submitted the text of the input field.
    SubmitMessage(String),
}

/// What the session asks of the layer around it after an event.
pub enum Effect {
    /// The state changed: render again.
    Refresh,
    /// Nothing changed.
    Unchanged,
    /// The frame was dropped for this reason; nothing changed.
    Dropped(ProtocolError),
    /// Send this frame over the socket.
    Send(String),
}

/// The state of one chat session: the roster as last reported, and the log
/// of messages in arrival order.
pub struct Chat {
    pub users: Vec<UserProfile>,
    pub messages: Vec<MessageData>,
}

pub struct ChatView {
    pub roster: Seq<ProfileView>,
    pub log: Seq<MessageView>,
}

impl View for Chat {
    type V = ChatView;

    open spec fn view(&self) -> ChatView {
        ChatView {
            roster: self.users@.map_values(|u: UserProfile| u@),
            log: self.messages@.map_values(|m: MessageData| m@),
        }
    }
}

/// The frame that registers a user name with the server.
pub open spec fn register_frame(name: Seq<char>) -> Seq<char> {
    frame_of(EnvelopeView { kind: MsgTypes::Register, list: None, text: Some(name) })
}

/// The frame that sends a chat message.
pub open spec fn message_frame(body: Seq<char>) -> Seq<char> {
    frame_of(EnvelopeView { kind: MsgTypes::Message, list: None, text: Some(body) })
}

/// The message a payload holds: an object whose `from` and `message`
/// members are strings.
pub open spec fn payload_of_doc(doc: Option<JsonDoc>) -> Result<MessageView, ProtocolError> {
    match doc {
        Some(JsonDoc::Obj(m)) => if m.contains_key("from"@) && m.contains_key("message"@)
            && m["from"@] is Str && m["message"@] is Str {
            Ok(MessageView { from: m["from"@]->Str_0, body: m["message"@]->Str_0 })
        } else {
            Err(ProtocolError::MalformedPayload)
        },
        _ => Err(ProtocolError::MalformedPayload),
    }
}

/// The names a users envelope brings (an absent list is an empty one).
pub open spec fn envelope_users(e: EnvelopeView) -> Option<Seq<Seq<char>>> {
    match e.kind {
        MsgTypes::Users => Some(
            match e.list {
                Some(l) => l,
                None => Seq::empty(),
            },
        ),
        _ => None,
    }
}

/// The message a message envelope brings, where its payload holds one.
pub open spec fn envelope_message(e: EnvelopeView) -> Option<MessageView> {
    match (e.kind, e.text) {
        (MsgTypes::Message, Some(t)) => match payload_of_doc(json_doc(t)) {
            Ok(m) => Some(m),
            Err(_) => None,
        },
        _ => None,
    }
}

/// What dispatching an envelope reports.
pub open spec fn envelope_outcome(e: EnvelopeView) -> Result<Outcome, ProtocolError> {
    match e.kind {
        MsgTypes::Users => Ok(Outcome::RosterReplaced),
        MsgTypes::Register => Ok(Outcome::Ignored),
        MsgTypes::Message => match e.text {
            None => Err(ProtocolError::MalformedPayload),
            Some(t) => match payload_of_doc(json_doc(t)) {
                Ok(_) => Ok(Outcome::MessageAppended),
                Err(x) => Err(x),
            },
        },
    }
}

/// The state after an envelope: a users envelope replaces the roster in
/// full, a message envelope with a good payload appends it; nothing else
/// changes anything.
pub open spec fn apply_envelope(s: ChatView, e: EnvelopeView) -> ChatView {
    ChatView {
        roster: match envelope_users(e) {
            Some(l) => roster_of(l),
            None => s.roster,
        },
        log: match envelope_message(e) {
            Some(m) => s.log.push(m),
            None => s.log,
        },
    }
}

pub open spec fn frame_users(f: Seq<char>) -> Option<Seq<Seq<char>>> {
    match envelope_of_frame(f) {
        Ok(e) => envelope_users(e),
        Err(_) => None,
    }
}

pub open spec fn frame_message(f: Seq<char>) -> Option<MessageView> {
    match envelope_of_frame(f) {
        Ok(e) => envelope_message(e),
        Err(_) => None,
    }
}

/// What handling a frame reports.
pub open spec fn frame_outcome(f: Seq<char>) -> Result<Outcome, ProtocolError> {
    match envelope_of_frame(f) {
        Ok(e) => envelope_outcome(e),
        Err(x) => Err(x),
    }
}

/// The state after a frame; a frame that is no envelope changes nothing.
pub open spec fn apply_frame(s: ChatView, f: Seq<char>) -> ChatView {
    match envelope_of_frame(f) {
        Ok(e) => apply_envelope(s, e),
        Err(_) => s,
    }
}

/// The roster after frames: that of the last users frame among them, or
/// `r0` where there is none.
pub open spec fn roster_after(r0: Seq<ProfileView>, frames: Seq<Seq<char>>) -> Seq<ProfileView>
    decreases frames.len(),
{
    if frames.len() == 0 {
        r0
    } else {
        match frame_users(frames.last()) {
            Some(l) => roster_of(l),
            None => roster_after(r0, frames.drop_last()),
        }
    }
}

/// The messages that frames bring, in arrival order.
pub open spec fn messages_of(frames: Seq<Seq<char>>) -> Seq<MessageView>
    decreases frames.len(),
{
    if frames.len() == 0 {
        Seq::empty()
    } else {
        match frame_message(frames.last()) {
            Some(m) => messages_of(frames.drop_last()).push(m),
            None => messages_of(frames.drop_last()),
        }
    }
}

/// One frame appends at most one message and keeps the log before it.
pub proof fn lemma_frame_appends_at_most_one(s: ChatView, f: Seq<char>)
    ensures
        apply_frame(s, f).log.len() <= s.log.len() + 1,
        apply_frame(s, f).log.take(s.log.len() as int) == s.log,
{
    assert(s.log.take(s.log.len() as int) =~= s.log);
    if let Some(m) = frame_message(f) {
        assert(s.log.push(m).take(s.log.len() as int) =~= s.log);
    }
}

/// Frames handled one after another leave the roster of the last users
/// frame, whatever came before it, and the log grown by exactly the
/// messages the frames bring, in order.
pub proof fn lemma_frames_extend(s: ChatView, frames: Seq<Seq<char>>, f: Seq<char>)
    ensures
        apply_frame(ChatView { roster: roster_after(s.roster, frames), log: s.log + messages_of(frames) }, f)
            == (ChatView {
            roster: roster_after(s.roster, frames.push(f)),
            log: s.log + messages_of(frames.push(f)),
        }),
{
    assert(frames.push(f).drop_last() =~= frames);
    if let Some(m) = frame_message(f) {
        assert((s.log + messages_of(frames)).push(m) =~= s.log + messages_of(frames).push(m));
    }
}

/// Parses the payload of a message envelope, a JSON object with the string
/// members `from` and `message`.
pub fn decode_payload(text: &str) -> (r: Result<MessageData, ProtocolError>)
    ensures
        match payload_of_doc(json_doc(text@)) {
            Ok(m) => r matches Ok(d) && d@ == m,
            Err(x) => r is Err && r->Err_0 == x,
        },
{
    let v = match parse_json(text) {
        Ok(v) => v,
        Err(_) => return Err(ProtocolError::MalformedPayload),
    };
    let from = match member(&v, "from") {
        Some(f) => as_text(&f),
        None => None,
    };
    let body = match member(&v, "message") {
        Some(b) => as_text(&b),
        None => None,
    };
    match (from, body) {
        (Some(from), Some(message)) => Ok(MessageData { from, message }),
        _ => Err(ProtocolError::MalformedPayload),
    }
}

impl Chat {
    /// Each profile of the roster carries the avatar of its name.
    pub open spec fn wf(&self) -> bool {
        forall|i: int|
            0 <= i < self@.roster.len() ==> #[trigger] self@.roster[i] == profile_of(
                self@.roster[i].name,
            )
    }

    /// An empty session.
    pub fn new() -> (r: Chat)
        ensures
            r.wf(),
            r@.roster.len() == 0,
            r@.log.len() == 0,
    {
        Chat { users: Vec::new(), messages: Vec::new() }
    }

    /// Opens a session for a user: an empty state, and the frame that
    /// registers the user, to be sent before any other.
    pub fn create(username: &str) -> (r: (Chat, String))
        ensures
            r.0.wf(),
            r.0@.roster.len() == 0,
            r.0@.log.len() == 0,
            r.1@ == register_frame(username@),
    {
        let env = WebSocketMessage {
            message_type: MsgTypes::Register,
            data_array: None,
            data: Some(String::from_str(username)),
        };
        (Chat::new(), encode(&env))
    }

    /// Replaces the whole roster by the profiles of `names`, in order.
    pub fn replace_roster(&mut self, names: &Vec<String>)
        ensures
            final(self).wf(),
            final(self)@.roster == roster_of(texts_of(names@)),
            final(self)@.log == old(self)@.log,
    {
        let mut users: Vec<UserProfile> = Vec::new();
        let mut i: usize = 0;
        while i < names.len()
            invariant
                i <= names.len(),
                users@.len() == i,
                forall|j: int| 0 <= j < i ==> #[trigger] users@[j]@ == profile_of(names@[j]@),
            decreases names.len() - i,
        {
            let name = String::from_str(names[i].as_str());
            let avatar = avatar_for(names[i].as_str());
            users.push(UserProfile { name, avatar });
            i = i + 1;
        }
        assert(users@.map_values(|u: UserProfile| u@) =~= roster_of(texts_of(names@)));
        self.users = users;
    }

    /// Appends a message at the end of the log.
    pub fn push_message(&mut self, m: MessageData)
        requires
            old(self).wf(),
        ensures
            final(self).wf(),
            final(self)@.roster == old(self)@.roster,
            final(self)@.log == old(self)@.log.push(m@),
    {
        self.messages.push(m);
        assert(self@.log =~= old(self)@.log.push(m@));
        assert(self@.roster =~= old(self)@.roster);
    }

    /// Applies one envelope: a users envelope replaces the roster (an absent
    /// list gives an empty one), a message envelope appends its payload to
    /// the log, and any other kind is ignored.
    pub fn dispatch(&mut self, env: WebSocketMessage) -> (r: Result<Outcome, ProtocolError>)
        requires
            old(self).wf(),
        ensures
            final(self).wf(),
            r == envelope_outcome(env@),
            final(self)@ == apply_envelope(old(self)@, env@),
    {
        match env.message_type {
            MsgTypes::Users => {
                match &env.data_array {
                    Some(names) => self.replace_roster(names),
                    None => {
                        let empty: Vec<String> = Vec::new();
                        self.replace_roster(&empty);
                        assert(texts_of(empty@) =~= Seq::<Seq<char>>::empty());
                    },
                }
                Ok(Outcome::RosterReplaced)
            },
            MsgTypes::Message => {
                match &env.data {
                    None => Err(ProtocolError::MalformedPayload),
                    Some(text) => {
                        match decode_payload(text.as_str()) {
                            Ok(m) => {
                                self.push_message(m);
                                Ok(Outcome::MessageAppended)
                            },
                            Err(x) => Err(x),
                        }
                    },
                }
            },
            MsgTypes::Register => Ok(Outcome::Ignored),
        }
    }

    /// Decodes one inbound frame and applies it. A frame that cannot be
    /// decoded, or whose payload is malformed, is dropped and leaves the
    /// state as it was.
    pub fn handle_frame(&mut self, frame: &str) -> (r: Result<Outcome, ProtocolError>)
        requires
            old(self).wf(),
        ensures
            final(self).wf(),
            r == frame_outcome(frame@),
            final(self)@ == apply_frame(old(self)@, frame@),
            frame@.len() == 0 || !json_value_start(frame@[0]) ==> json_doc(frame@) is None,
    {
        match decode(frame) {
            Err(x) => Err(x),
            Ok(env) => self.dispatch(env),
        }
    }

    /// Handles frames one after another, in order, and returns what became
    /// of each.
    pub fn handle_frames(&mut self, frames: &Vec<String>) -> (r: Vec<Result<Outcome, ProtocolError>>)
        requires
            old(self).wf(),
        ensures
            final(self).wf(),
            r@.len() == frames@.len(),
            forall|i: int| 0 <= i < frames@.len() ==> r@[i] == frame_outcome(#[trigger] frames@[i]@),
            final(self)@.roster == roster_after(old(self)@.roster, texts_of(frames@)),
            final(self)@.log == old(self)@.log + messages_of(texts_of(frames@)),
    {
        let ghost start = self@;
        let mut results: Vec<Result<Outcome, ProtocolError>> = Vec::new();
        let mut i: usize = 0;
        while i < frames.len()
            invariant
                i <= frames.len(),
                self.wf(),
                results@.len() == i,
                forall|j: int| 0 <= j < i ==> results@[j] == frame_outcome(#[trigger] frames@[j]@),
                self@.roster == roster_after(start.roster, texts_of(frames@).take(i as int)),
                self@.log == start.log + messages_of(texts_of(frames@).take(i as int)),
            decreases frames.len() - i,
        {
            let o = self.handle_frame(frames[i].as_str());
            proof {
                let done = texts_of(frames@).take(i as int);
                lemma_frames_extend(start, done, frames@[i as int]@);
                assert(done.push(frames@[i as int]@) =~= texts_of(frames@).take(i + 1));
            }
            results.push(o);
            i = i + 1;
        }
        assert(texts_of(frames@).take(frames.len() as int) =~= texts_of(frames@));
        results
    }

    /// Handles one session event and says what the layer around it must do:
    /// a received frame is applied as `handle_frame` does; submitted text
    /// becomes a message frame to send, and the state stays.
    pub fn update(&mut self, msg: Msg) -> (r: Effect)
        requires
            old(self).wf(),
        ensures
            final(self).wf(),
            match msg {
                Msg::HandleMsg(frame) => {
                    &&& final(self)@ == apply_frame(old(self)@, frame@)
                    &&& frame@.len() == 0 || !json_value_start(frame@[0]) ==> json_doc(frame@) is None
                    &&& match frame_outcome(frame@) {
                        Ok(Outcome::Ignored) => r is Unchanged,
                        Ok(_) => r is Refresh,
                        Err(x) => r matches Effect::Dropped(y) && y == x,
                    }
                },
                Msg::SubmitMessage(body) => {
                    &&& r matches Effect::Send(f) && f@ == message_frame(body@)
                    &&& final(self)@ == old(self)@
                },
            },
    {
        match msg {
            Msg::HandleMsg(frame) => {
                match self.handle_frame(frame.as_str()) {
                    Ok(Outcome::Ignored) => Effect::Unchanged,
                    Ok(_) => Effect::Refresh,
                    Err(x) => Effect::Dropped(x),
                }
            },
            Msg::SubmitMessage(body) => {
                let env = WebSocketMessage {
                    message_type: MsgTypes::Message,
                    data_array: None,
                    data: Some(body),
                };
                Effect::Send(encode(&env))
            },
        }
    }
}

} // verus!
