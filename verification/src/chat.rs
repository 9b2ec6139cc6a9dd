//! The session reducer: it turns the frames that the distributor delivers
//! into the roster and the feed, and the user's input into outbound frames.
//!
//! The roster is whatever the last `users` frame said; the feed grows by one
//! entry for each `message` frame whose payload is a chat message. Nothing
//! else changes either of them: what the user submits appears in the feed
//! only when the server sends it back.

use vstd::prelude::*;
use vstd::string::StringExecFns;
use crate::connection::{Connection, ConnectionModel};
use crate::event_bus::{EventBus, SubscriptionHandle};
use crate::text::{is_blank, lemma_trimmed_blank, str_ends_with, trim, trimmed};
use crate::wire::{
    decode, decode_chat_message, decoded, decoded_chat_message, encode, encodes,
    law_decode_inverts_encode, texts, ChatMessage, ChatMessageModel, DecodeError, Envelope,
    EnvelopeModel,
};

verus! {

/// What the reducer reacts to.
#[derive(Clone, Debug, PartialEq, Eq)]
pub enum Msg {
    /// A raw frame, as the distributor delivered it.
    HandleMsg(String),
    /// The user asks to send what the input holds.
    SubmitMessage,
}

/// One user of the roster.
#[derive(Clone, Debug, PartialEq, Eq)]
pub struct UserProfile {
    pub name: String,
    pub avatar: String,
}

/// Mathematical model of a [`UserProfile`].
#[verifier::ext_equal]
pub struct UserProfileModel {
    pub name: Seq<char>,
    pub avatar: Seq<char>,
}

impl View for UserProfile {
    type V = UserProfileModel;

    open spec fn view(&self) -> UserProfileModel {
        UserProfileModel { name: self.name@, avatar: self.avatar@ }
    }
}

/// The address of the avatar that belongs to a name.
pub open spec fn avatar_of(name: Seq<char>) -> Seq<char> {
    "https://avatars.dicebear.com/api/adventurer-neutral/"@ + name + ".svg"@
}

/// The profile that a name gets in the roster.
pub open spec fn profile_of(name: Seq<char>) -> UserProfileModel {
    UserProfileModel { name, avatar: avatar_of(name) }
}

/// The roster that a list of names stands for.
pub open spec fn roster_of(names: Seq<Seq<char>>) -> Seq<UserProfileModel> {
    names.map_values(|name: Seq<char>| profile_of(name))
}

/// The models of a list of profiles.
pub open spec fn profiles(users: Seq<UserProfile>) -> Seq<UserProfileModel> {
    users.map_values(|user: UserProfile| user@)
}

/// The models of a list of chat messages.
pub open spec fn chat_messages(messages: Seq<ChatMessage>) -> Seq<ChatMessageModel> {
    messages.map_values(|message: ChatMessage| message@)
}

/// One entry of the feed as it is shown: the message, the avatar of its
/// sender, and whether the body is the address of a picture.
#[derive(Clone, Debug, PartialEq, Eq)]
pub struct FeedEntry {
    pub sender: String,
    pub body: String,
    /// `None` where the sender is not in the roster.
    pub avatar: Option<String>,
    pub is_image: bool,
}

/// Mathematical model of a [`FeedEntry`].
#[verifier::ext_equal]
pub struct FeedEntryModel {
    pub sender: Seq<char>,
    pub body: Seq<char>,
    pub avatar: Option<Seq<char>>,
    pub is_image: bool,
}

impl View for FeedEntry {
    type V = FeedEntryModel;

    open spec fn view(&self) -> FeedEntryModel {
        FeedEntryModel {
            sender: self.sender@,
            body: self.body@,
            avatar: match self.avatar {
                Some(avatar) => Some(avatar@),
                None => None,
            },
            is_image: self.is_image,
        }
    }
}

/// What the view layer draws: the roster, and the feed with each sender's
/// avatar looked up in that roster.
#[derive(Clone, Debug, PartialEq, Eq)]
pub struct ChatView {
    pub users: Vec<UserProfile>,
    pub feed: Vec<FeedEntry>,
}

/// Mathematical model of a [`ChatView`].
#[verifier::ext_equal]
pub struct ChatViewModel {
    pub users: Seq<UserProfileModel>,
    pub feed: Seq<FeedEntryModel>,
}

/// The models of a list of feed entries.
pub open spec fn feed_entries(entries: Seq<FeedEntry>) -> Seq<FeedEntryModel> {
    entries.map_values(|entry: FeedEntry| entry@)
}

impl View for ChatView {
    type V = ChatViewModel;

    open spec fn view(&self) -> ChatViewModel {
        ChatViewModel { users: profiles(self.users@), feed: feed_entries(self.feed@) }
    }
}

/// The avatar of the first user of the roster that has this name.
pub open spec fn avatar_for(users: Seq<UserProfileModel>, sender: Seq<char>) -> Option<Seq<char>>
    decreases users.len(),
{
    if users.len() == 0 {
        None
    } else if users.first().name == sender {
        Some(users.first().avatar)
    } else {
        avatar_for(users.drop_first(), sender)
    }
}

/// Whether a body is shown as a picture: it ends in `.gif`.
pub open spec fn shows_image(body: Seq<char>) -> bool {
    ".gif"@.is_suffix_of(body)
}

/// The entry that a message gets in the view.
pub open spec fn entry_of(users: Seq<UserProfileModel>, message: ChatMessageModel) -> FeedEntryModel {
    FeedEntryModel {
        sender: message.sender,
        body: message.body,
        avatar: avatar_for(users, message.sender),
        is_image: shows_image(message.body),
    }
}

/// Looking a sender up gives the avatar of the first user of that name, and
/// nothing where no user has it.
pub proof fn lemma_avatar_for(users: Seq<UserProfileModel>, sender: Seq<char>, at: int)
    requires
        0 <= at <= users.len(),
        forall|j: int| 0 <= j < at ==> (#[trigger] users[j]).name != sender,
        at < users.len() ==> users[at].name == sender,
    ensures
        at < users.len() ==> avatar_for(users, sender) == Some(users[at].avatar),
        at == users.len() ==> avatar_for(users, sender) is None,
    decreases at,
{
    if at > 0 {
        let rest = users.drop_first();
        assert forall|j: int| 0 <= j < at - 1 implies (#[trigger] rest[j]).name != sender by {
            assert(rest[j] == users[j + 1]);
        }
        lemma_avatar_for(rest, sender, at - 1);
    }
}

/// Whether an envelope is acted upon: it is a roster snapshot, or a
/// `message` whose payload is a chat message.
pub open spec fn applies(envelope: EnvelopeModel) -> bool {
    match envelope {
        EnvelopeModel::Users(_) => true,
        EnvelopeModel::Message(Some(data)) => decoded_chat_message(data) is Ok,
        _ => false,
    }
}

/// Whether a frame is accepted: it changes the roster or the feed, and the
/// view is to be drawn again.
pub open spec fn accepted(raw: Seq<char>) -> bool {
    match decoded(raw) {
        Ok(envelope) => applies(envelope),
        Err(_) => false,
    }
}

/// Mathematical model of a [`Chat`].
#[verifier::ext_equal]
pub struct ChatModel {
    /// The roster.
    pub users: Seq<UserProfileModel>,
    /// The feed, oldest message first.
    pub messages: Seq<ChatMessageModel>,
    /// What the input holds.
    pub input: Seq<char>,
    /// The registration with the distributor.
    pub subscription: int,
}

impl ChatModel {
    /// The state at the start of a session.
    pub open spec fn initial(subscription: int) -> ChatModel {
        ChatModel { users: Seq::empty(), messages: Seq::empty(), input: Seq::empty(), subscription }
    }

    /// The state after a roster snapshot: the roster holds the profiles of
    /// these names and nothing else.
    pub open spec fn with_roster(self, names: Seq<Seq<char>>) -> ChatModel {
        ChatModel { users: roster_of(names), ..self }
    }

    /// The state after a chat message has arrived: it is the last entry of
    /// the feed.
    pub open spec fn with_message(self, message: ChatMessageModel) -> ChatModel {
        ChatModel { messages: self.messages.push(message), ..self }
    }

    /// The state after an envelope has arrived. A roster snapshot replaces
    /// the roster, a `message` with a chat message as payload extends the
    /// feed, and every other envelope leaves the state as it is.
    pub open spec fn apply(self, envelope: EnvelopeModel) -> ChatModel {
        match envelope {
            EnvelopeModel::Users(names) => self.with_roster(names),
            EnvelopeModel::Message(Some(data)) => match decoded_chat_message(data) {
                Ok(message) => self.with_message(message),
                Err(_) => self,
            },
            _ => self,
        }
    }

    /// The state after a frame was delivered: that after its envelope, and
    /// the same as before where the frame carries none.
    pub open spec fn handle_frame(self, raw: Seq<char>) -> ChatModel {
        match decoded(raw) {
            Ok(envelope) => self.apply(envelope),
            Err(_) => self,
        }
    }

    /// The state after a run of frames was delivered, one after the other.
    pub open spec fn handle_all(self, frames: Seq<Seq<char>>) -> ChatModel
        decreases frames.len(),
    {
        if frames.len() == 0 {
            self
        } else {
            self.handle_all(frames.drop_last()).handle_frame(frames.last())
        }
    }

    /// The envelope that a submission sends: none while the input is blank,
    /// else a `message` with the input, trimmed.
    pub open spec fn outgoing(self) -> Option<EnvelopeModel> {
        if is_blank(self.input) {
            None
        } else {
            Some(EnvelopeModel::Message(Some(trimmed(self.input))))
        }
    }

    /// The state after a submission: the input is cleared, and nothing else
    /// has changed.
    pub open spec fn submit(self) -> ChatModel {
        ChatModel { input: Seq::empty(), ..self }
    }

    /// The state after the user has typed.
    pub open spec fn with_input(self, input: Seq<char>) -> ChatModel {
        ChatModel { input, ..self }
    }

    /// What the view layer draws in this state.
    pub open spec fn view(self) -> ChatViewModel {
        ChatViewModel {
            users: self.users,
            feed: self.messages.map_values(|message: ChatMessageModel| entry_of(self.users, message)),
        }
    }
}

/// Whether any frame of a run is accepted.
pub open spec fn any_accepted(frames: Seq<Seq<char>>) -> bool {
    exists|i: int| 0 <= i < frames.len() && accepted(#[trigger] frames[i])
}

/// What handing an envelope to the connection does: an open connection
/// queues exactly one frame, a wire form of the envelope; a closed one is
/// unchanged, and so is any connection where there is nothing to send.
pub open spec fn handed_over(
    before: ConnectionModel,
    after: ConnectionModel,
    envelope: Option<EnvelopeModel>,
) -> bool {
    match envelope {
        Some(envelope) if before.open => {
            &&& after.outbound.len() == before.outbound.len() + 1
            &&& encodes(after.outbound.last(), envelope)
            &&& after == before.send(after.outbound.last())
        },
        _ => after == before,
    }
}

/// The address of the avatar that belongs to a name.
pub fn avatar_url(name: &str) -> (url: String)
    ensures
        url@ == avatar_of(name@),
{
    let mut url = "https://avatars.dicebear.com/api/adventurer-neutral/".to_owned();
    url.append(name);
    url.append(".svg");
    url
}

/// The session reducer.
#[derive(Debug)]
pub struct Chat {
    users: Vec<UserProfile>,
    chat_input: String,
    messages: Vec<ChatMessage>,
    producer: SubscriptionHandle,
}

impl Chat {
    /// The mathematical model of the reducer's state.
    pub closed spec fn model(&self) -> ChatModel {
        ChatModel {
            users: profiles(self.users@),
            messages: chat_messages(self.messages@),
            input: self.chat_input@,
            subscription: self.producer@,
        }
    }

    /// Starts the session: registers with the distributor, and announces
    /// the user's name to the server with a `register` envelope. The
    /// announcement is not awaited; if the connection does not take it, the
    /// session goes on all the same.
    pub fn create(username: &str, wss: &mut Connection, bus: &mut EventBus) -> (chat: Chat)
        ensures
            chat.model() == ChatModel::initial(old(bus)@.inboxes.len() as int),
            final(bus)@ == old(bus)@.subscribe(),
            handed_over(
                old(wss)@,
                final(wss)@,
                Some(EnvelopeModel::Register(Some(username@))),
            ),
    {
        let register = Envelope::Register(Some(username.to_owned()));
        let _ = wss.send(encode(&register));
        let producer = bus.subscribe();
        let chat = Chat {
            users: Vec::new(),
            chat_input: String::new(),
            messages: Vec::new(),
            producer,
        };
        assert(chat.model().users =~= Seq::empty());
        assert(chat.model().messages =~= Seq::empty());
        chat
    }

    /// Replaces the roster with the profiles of these names, in their order.
    pub fn replace_roster(&mut self, names: &Vec<String>)
        ensures
            final(self).model() == old(self).model().with_roster(texts(names@)),
    {
        let mut users: Vec<UserProfile> = Vec::new();
        let mut i: usize = 0;
        while i < names.len()
            invariant
                i <= names.len(),
                users.len() == i,
                forall|j: int| 0 <= j < i ==> (#[trigger] users[j])@ == profile_of(names[j]@),
            decreases names.len() - i,
        {
            let name = names[i].clone();
            let avatar = avatar_url(name.as_str());
            users.push(UserProfile { name, avatar });
            i = i + 1;
        }
        assert(profiles(users@) =~= roster_of(texts(names@)));
        self.users = users;
    }

    /// Adds a chat message at the end of the feed.
    pub fn append_message(&mut self, message: ChatMessage)
        ensures
            final(self).model() == old(self).model().with_message(message@),
    {
        self.messages.push(message);
        assert(chat_messages(self.messages@) =~= chat_messages(old(self).messages@).push(
            message@,
        ));
    }

    /// Acts on an envelope. Returns whether it changed the roster or the
    /// feed.
    pub fn apply(&mut self, envelope: &Envelope) -> (changed: bool)
        ensures
            final(self).model() == old(self).model().apply(envelope@),
            changed == applies(envelope@),
    {
        match envelope {
            Envelope::Users(names) => {
                self.replace_roster(names);
                true
            },
            Envelope::Message(Some(data)) => match decode_chat_message(data.as_str()) {
                Ok(message) => {
                    self.append_message(message);
                    true
                },
                Err(_) => false,
            },
            _ => false,
        }
    }

    /// Handles one raw frame. Returns whether the frame was accepted, that
    /// is, whether the view is to be drawn again. A frame that does not
    /// decode is dropped without a trace.
    pub fn handle_frame(&mut self, raw: &str) -> (changed: bool)
        ensures
            final(self).model() == old(self).model().handle_frame(raw@),
            changed == accepted(raw@),
    {
        match decode(raw) {
            Ok(envelope) => self.apply(&envelope),
            Err(_) => false,
        }
    }

    /// The envelope that a submission would send now: none while the input
    /// is blank, else a `message` with the input, trimmed.
    pub fn outgoing(&self) -> (envelope: Option<Envelope>)
        ensures
            match envelope {
                Some(envelope) => self.model().outgoing() == Some(envelope@),
                None => self.model().outgoing() is None,
            },
    {
        let text = trim(self.chat_input.as_str());
        proof {
            lemma_trimmed_blank(self.chat_input@);
        }
        if text.as_str().is_empty() {
            None
        } else {
            Some(Envelope::Message(Some(text)))
        }
    }

    /// Reads and clears the input. Unless the input was blank, hands a
    /// `message` envelope with the trimmed input to the connection. The feed
    /// does not change: the message appears there when the server sends it
    /// back.
    pub fn submit_message(&mut self, wss: &mut Connection)
        ensures
            final(self).model() == old(self).model().submit(),
            handed_over(old(wss)@, final(wss)@, old(self).model().outgoing()),
    {
        let outgoing = self.outgoing();
        self.chat_input = String::new();
        match outgoing {
            Some(message) => {
                let _ = wss.send(encode(&message));
            },
            None => {},
        }
    }

    /// Reacts to a message. Returns whether the view is to be drawn again:
    /// after an accepted frame, and never after a submission.
    pub fn update(&mut self, wss: &mut Connection, msg: Msg) -> (changed: bool)
        ensures
            match msg {
                Msg::HandleMsg(raw) => {
                    &&& final(self).model() == old(self).model().handle_frame(raw@)
                    &&& changed == accepted(raw@)
                    &&& final(wss)@ == old(wss)@
                },
                Msg::SubmitMessage => {
                    &&& final(self).model() == old(self).model().submit()
                    &&& !changed
                    &&& handed_over(old(wss)@, final(wss)@, old(self).model().outgoing())
                },
            },
    {
        match msg {
            Msg::HandleMsg(raw) => self.handle_frame(raw.as_str()),
            Msg::SubmitMessage => {
                self.submit_message(wss);
                false
            },
        }
    }

    /// Takes the frames that the distributor holds for this session and
    /// handles them in the order in which they were published. Returns
    /// whether any of them was accepted.
    pub fn pump(&mut self, bus: &mut EventBus) -> (changed: bool)
        ensures
            final(self).model() == old(self).model().handle_all(old(bus)@.pending(old(self).model().subscription)),
            final(bus)@ == old(bus)@.take(old(self).model().subscription),
            changed == any_accepted(old(bus)@.pending(old(self).model().subscription)),
    {
        let frames = bus.take(&self.producer);
        let mut changed = false;
        let mut i: usize = 0;
        while i < frames.len()
            invariant
                i <= frames.len(),
                self.model() == old(self).model().handle_all(texts(frames@).take(i as int)),
                changed == any_accepted(texts(frames@).take(i as int)),
            decreases frames.len() - i,
        {
            let ghost done = texts(frames@).take(i as int);
            let ghost next = texts(frames@).take(i + 1);
            assert(next.drop_last() =~= done);
            assert(next.last() == frames[i as int]@);
            let accepted_now = self.handle_frame(frames[i].as_str());
            proof {
                if any_accepted(done) {
                    let k = choose|k: int| 0 <= k < done.len() && accepted(#[trigger] done[k]);
                    assert(accepted(next[k]));
                }
                if accepted_now {
                    assert(accepted(next[i as int]));
                }
                if any_accepted(next) {
                    let k = choose|k: int| 0 <= k < next.len() && accepted(#[trigger] next[k]);
                    if k < i {
                        assert(accepted(done[k]));
                    }
                }
            }
            changed = changed || accepted_now;
            i = i + 1;
        }
        assert(texts(frames@).take(frames.len() as int) =~= texts(frames@));
        changed
    }

    /// What the view layer draws: the roster as it is, and for each message
    /// of the feed the avatar of its sender, looked up in the roster now.
    /// A message whose sender is not in the roster has no avatar.
    pub fn view(&self) -> (drawn: ChatView)
        ensures
            drawn@ == self.model().view(),
    {
        let mut users: Vec<UserProfile> = Vec::new();
        let mut i: usize = 0;
        while i < self.users.len()
            invariant
                i <= self.users.len(),
                users.len() == i,
                forall|j: int| 0 <= j < i ==> (#[trigger] users[j])@ == self.users[j]@,
            decreases self.users.len() - i,
        {
            let user = &self.users[i];
            users.push(UserProfile { name: user.name.clone(), avatar: user.avatar.clone() });
            i = i + 1;
        }
        assert(profiles(users@) =~= profiles(self.users@));
        let mut feed: Vec<FeedEntry> = Vec::new();
        let mut k: usize = 0;
        while k < self.messages.len()
            invariant
                k <= self.messages.len(),
                feed.len() == k,
                forall|j: int|
                    0 <= j < k ==> (#[trigger] feed[j])@ == entry_of(
                        profiles(self.users@),
                        self.messages[j]@,
                    ),
            decreases self.messages.len() - k,
        {
            let message = &self.messages[k];
            let avatar = self.avatar_of_sender(&message.sender);
            let is_image = str_ends_with(message.body.as_str(), ".gif");
            feed.push(
                FeedEntry {
                    sender: message.sender.clone(),
                    body: message.body.clone(),
                    avatar,
                    is_image,
                },
            );
            k = k + 1;
        }
        assert(feed_entries(feed@) =~= self.model().view().feed);
        ChatView { users, feed }
    }

    /// The avatar of the first user of the roster that has this name.
    fn avatar_of_sender(&self, sender: &String) -> (avatar: Option<String>)
        ensures
            match avatar {
                Some(avatar) => avatar_for(profiles(self.users@), sender@) == Some(avatar@),
                None => avatar_for(profiles(self.users@), sender@) is None,
            },
    {
        let mut i: usize = 0;
        while i < self.users.len()
            invariant
                i <= self.users.len(),
                forall|j: int| 0 <= j < i ==> (#[trigger] profiles(self.users@)[j]).name != sender@,
            decreases self.users.len() - i,
        {
            if self.users[i].name == *sender {
                proof {
                    lemma_avatar_for(profiles(self.users@), sender@, i as int);
                }
                return Some(self.users[i].avatar.clone());
            }
            i = i + 1;
        }
        proof {
            lemma_avatar_for(profiles(self.users@), sender@, i as int);
        }
        None
    }

    /// Puts what the user has typed into the input.
    pub fn set_input(&mut self, input: &str)
        ensures
            final(self).model() == old(self).model().with_input(input@),
    {
        self.chat_input = input.to_owned();
    }

    /// What the input holds.
    pub fn input(&self) -> (input: &String)
        ensures
            input@ == self.model().input,
    {
        &self.chat_input
    }

    /// The roster.
    pub fn users(&self) -> (users: &Vec<UserProfile>)
        ensures
            profiles(users@) == self.model().users,
    {
        &self.users
    }

    /// The feed, oldest message first.
    pub fn messages(&self) -> (messages: &Vec<ChatMessage>)
        ensures
            chat_messages(messages@) == self.model().messages,
    {
        &self.messages
    }

    /// The registration with the distributor.
    pub fn subscription(&self) -> (handle: &SubscriptionHandle)
        ensures
            handle@ == self.model().subscription,
    {
        &self.producer
    }
}

/// The chat messages that a run of frames carries, in the order of the
/// frames.
pub open spec fn arrivals(frames: Seq<Seq<char>>) -> Seq<ChatMessageModel>
    decreases frames.len(),
{
    if frames.len() == 0 {
        Seq::empty()
    } else {
        let earlier = arrivals(frames.drop_last());
        match decoded(frames.last()) {
            Ok(EnvelopeModel::Message(Some(data))) => match decoded_chat_message(data) {
                Ok(message) => earlier.push(message),
                Err(_) => earlier,
            },
            _ => earlier,
        }
    }
}

/// A `users` frame replaces the roster: afterwards the roster holds exactly
/// the names of the frame, in their order, each with the avatar that belongs
/// to the name, whatever the roster was before. The feed is untouched.
pub proof fn law_users_frame_replaces_roster(
    state: ChatModel,
    raw: Seq<char>,
    names: Seq<Seq<char>>,
)
    requires
        decoded(raw) == Ok::<EnvelopeModel, DecodeError>(EnvelopeModel::Users(names)),
    ensures
        accepted(raw),
        state.handle_frame(raw).users == roster_of(names),
        state.handle_frame(raw).users.len() == names.len(),
        forall|i: int|
            0 <= i < names.len() ==> (#[trigger] state.handle_frame(raw).users[i]).name == names[i]
                && state.handle_frame(raw).users[i].avatar == avatar_of(names[i]),
        state.handle_frame(raw).messages == state.messages,
        state.handle_frame(raw).input == state.input,
{
}

/// Roster snapshots are not merged: whatever frame came before, after a
/// `users` frame the roster is that of this frame alone.
pub proof fn law_roster_is_not_merged(
    state: ChatModel,
    first: Seq<char>,
    second: Seq<char>,
    names: Seq<Seq<char>>,
)
    requires
        decoded(second) == Ok::<EnvelopeModel, DecodeError>(EnvelopeModel::Users(names)),
    ensures
        state.handle_frame(first).handle_frame(second).users == roster_of(names),
{
}

/// A `message` frame whose payload is a chat message adds exactly that
/// message at the end of the feed, and leaves the roster as it is.
pub proof fn law_message_frame_extends_feed(
    state: ChatModel,
    raw: Seq<char>,
    data: Seq<char>,
    message: ChatMessageModel,
)
    requires
        decoded(raw) == Ok::<EnvelopeModel, DecodeError>(EnvelopeModel::Message(Some(data))),
        decoded_chat_message(data) == Ok::<ChatMessageModel, DecodeError>(message),
    ensures
        accepted(raw),
        state.handle_frame(raw).messages == state.messages.push(message),
        state.handle_frame(raw).users == state.users,
        state.handle_frame(raw).input == state.input,
{
}

/// The feed keeps the order of arrival: after a run of frames it is what it
/// was, followed by the chat messages of the run in the order of the frames.
pub proof fn law_feed_keeps_arrival_order(state: ChatModel, frames: Seq<Seq<char>>)
    ensures
        state.handle_all(frames).messages == state.messages + arrivals(frames),
    decreases frames.len(),
{
    if frames.len() > 0 {
        law_feed_keeps_arrival_order(state, frames.drop_last());
    }
    assert(state.handle_all(frames).messages =~= state.messages + arrivals(frames));
}

/// A frame that is not accepted changes nothing. That is so for a text that
/// does not decode, for a `register` frame, for a `message` frame without
/// payload, and for a `message` frame whose payload is not a chat message.
pub proof fn law_rejected_frame_changes_nothing(state: ChatModel, raw: Seq<char>)
    requires
        !accepted(raw),
    ensures
        state.handle_frame(raw) == state,
        decoded(raw) is Err || decoded(raw)->Ok_0 is Register || decoded(raw)
            == Ok::<EnvelopeModel, DecodeError>(EnvelopeModel::Message(None)) || (decoded(
            raw,
        )->Ok_0 is Message && decoded_chat_message(decoded(raw)->Ok_0->Message_0->Some_0) is Err),
{
}

/// A `message` frame whose payload is not a chat message is dropped: the
/// state stays as it is, and the view is not drawn again.
pub proof fn law_malformed_payload_is_dropped(state: ChatModel, raw: Seq<char>, data: Seq<char>)
    requires
        decoded(raw) == Ok::<EnvelopeModel, DecodeError>(EnvelopeModel::Message(Some(data))),
        decoded_chat_message(data) is Err,
    ensures
        !accepted(raw),
        state.handle_frame(raw) == state,
{
}

/// Submitting a blank input sends nothing: the connection is as it was, and
/// neither the roster nor the feed changes.
pub proof fn law_blank_submission_sends_nothing(
    state: ChatModel,
    before: ConnectionModel,
    after: ConnectionModel,
)
    requires
        is_blank(state.input),
        handed_over(before, after, state.outgoing()),
    ensures
        after == before,
        state.submit().messages == state.messages,
        state.submit().users == state.users,
{
}

/// Submitting an input that is not blank queues exactly one frame on an
/// open connection, behind those that waited already. The frame decodes to a
/// `message` envelope with the trimmed input. The feed does not change.
pub proof fn law_submission_sends_one_message(
    state: ChatModel,
    before: ConnectionModel,
    after: ConnectionModel,
)
    requires
        !is_blank(state.input),
        before.open,
        handed_over(before, after, state.outgoing()),
    ensures
        after.outbound.len() == before.outbound.len() + 1,
        after.outbound.drop_last() == before.outbound,
        decoded(after.outbound.last()) == Ok::<EnvelopeModel, DecodeError>(
            EnvelopeModel::Message(Some(trimmed(state.input))),
        ),
        state.submit().messages == state.messages,
        state.submit().users == state.users,
{
    law_decode_inverts_encode(
        after.outbound.last(),
        EnvelopeModel::Message(Some(trimmed(state.input))),
    );
    assert(after.outbound.drop_last() =~= before.outbound);
}

} // verus!
