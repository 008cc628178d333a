//! Message records as they travel through the hub: what a client sends,
//! what the store is asked to create, what it hands back, and the frame
//! that is pushed to each recipient.

use vstd::prelude::*;

verus! {

/// The kind of content a message carries.
#[derive(PartialEq, Eq, Structural, Clone, Copy, Debug)]
pub enum MessageContentType {
    Text,
    Image,
    Video,
    File,
    System,
}

/// The lower-case wire and storage name of a content type.
pub open spec fn content_type_name(ct: MessageContentType) -> Seq<char> {
    match ct {
        MessageContentType::Text => "text"@,
        MessageContentType::Image => "image"@,
        MessageContentType::Video => "video"@,
        MessageContentType::File => "file"@,
        MessageContentType::System => "system"@,
    }
}

/// Character-wise equality of two string slices.
fn same_text(s: &str, t: &str) -> (r: bool)
    ensures
        r == (s@ == t@),
{
    let n = s.unicode_len();
    let m = t.unicode_len();
    if n != m {
        return false;
    }
    let mut i: usize = 0;
    while i < n
        invariant
            n == s@.len(),
            m == t@.len(),
            n == m,
            i <= n,
            forall|k: int| 0 <= k < i ==> s@[k] == t@[k],
        decreases n - i,
    {
        if s.get_char(i) != t.get_char(i) {
            return false;
        }
        i = i + 1;
    }
    assert(s@ =~= t@);
    true
}

impl MessageContentType {
    /// The name under which the content type is stored and sent.
    pub fn as_str(&self) -> (r: &'static str)
        ensures
            r@ == content_type_name(*self),
    {
        match self {
            MessageContentType::Text => "text",
            MessageContentType::Image => "image",
            MessageContentType::Video => "video",
            MessageContentType::File => "file",
            MessageContentType::System => "system",
        }
    }

    /// Reads a content type from its name; `None` for any other text.
    pub fn from_name(s: &str) -> (r: Option<MessageContentType>)
        ensures
            r matches Some(ct) ==> content_type_name(ct) == s@,
            r is None ==> forall|ct: MessageContentType| content_type_name(ct) != s@,
    {
        if same_text(s, "text") {
            Some(MessageContentType::Text)
        } else if same_text(s, "image") {
            Some(MessageContentType::Image)
        } else if same_text(s, "video") {
            Some(MessageContentType::Video)
        } else if same_text(s, "file") {
            Some(MessageContentType::File)
        } else if same_text(s, "system") {
            Some(MessageContentType::System)
        } else {
            None
        }
    }
}

/// Image or video dimensions and format attached to a message.
#[derive(Clone, Debug, PartialEq)]
pub struct MediaMetadata {
    pub width: u32,
    pub height: u32,
    pub format: String,
}

/// The public face of a user: what recipients see as a message's sender.
#[derive(Clone, Debug, PartialEq)]
pub struct SimpleUser {
    pub id: i64,
    pub avatar_url: String,
    pub display_name: String,
}

impl SimpleUser {
    /// A profile that carries only the identity, for a sender whose profile
    /// could not be resolved.
    pub fn anonymous(id: i64) -> (r: SimpleUser)
        ensures
            is_bare_profile(r, id),
    {
        SimpleUser { id, avatar_url: String::new(), display_name: String::new() }
    }

    /// A field-for-field copy.
    pub fn duplicate(&self) -> (r: SimpleUser)
        ensures
            r == *self,
    {
        SimpleUser {
            id: self.id,
            avatar_url: self.avatar_url.clone(),
            display_name: self.display_name.clone(),
        }
    }
}

/// `p` names user `id` and nothing else.
pub open spec fn is_bare_profile(p: SimpleUser, id: i64) -> bool {
    &&& p.id == id
    &&& p.avatar_url@.len() == 0
    &&& p.display_name@.len() == 0
}

/// One chat message as a client submits it.
#[derive(Clone, Debug, PartialEq)]
pub struct SendMessageReq {
    pub sender_id: Option<i64>,
    pub parent_msg_id: Option<i64>,
    pub content_type: MessageContentType,
    pub text_content: String,
    pub media_url: Option<String>,
    pub media_metadata: Option<MediaMetadata>,
}

/// A request to change a stored message.
#[derive(Clone, Debug, PartialEq)]
pub struct UpdateMessageReq {
    pub id: i64,
    pub chan_id: i64,
    pub sender_id: Option<i64>,
    pub parent_msg_id: Option<i64>,
    pub content_type: MessageContentType,
    pub text_content: String,
    pub media_url: Option<String>,
    pub media_metadata: Option<MediaMetadata>,
}

/// A page of a channel's history.
#[derive(Clone, Copy, Debug, PartialEq)]
pub struct ListMessagesReq {
    pub offset: i64,
    pub limit: i64,
}

/// One inbound frame of a live connection: a batch of messages for one
/// channel, in the order the client wrote them.
#[derive(Clone, Debug, PartialEq)]
pub struct SendMessageInSocket {
    pub channel_id: i64,
    pub msgs: Vec<SendMessageReq>,
}

/// What the message store is asked to create.
#[derive(Clone, Debug, PartialEq)]
pub struct CreateMessage {
    pub channel_id: i64,
    pub sender_id: Option<i64>,
    pub parent_msg_id: Option<i64>,
    pub content_type: MessageContentType,
    pub text_content: String,
    pub media_url: Option<String>,
    pub media_metadata: Option<MediaMetadata>,
}

/// A message as the store holds it once created; times are milliseconds
/// since the Unix epoch.
#[derive(Clone, Debug, PartialEq)]
pub struct Message {
    pub id: i64,
    pub channel_id: i64,
    pub sender_id: Option<i64>,
    pub parent_msg_id: Option<i64>,
    pub content_type: MessageContentType,
    pub text_content: String,
    pub media_url: Option<String>,
    pub media_metadata: Option<MediaMetadata>,
    pub created_at: i64,
    pub updated_at: i64,
}

/// The frame pushed to each recipient for one stored message.
#[derive(Clone, Debug, PartialEq)]
pub struct WebSocketMessage {
    pub sender: SimpleUser,
    pub parent_msg_id: Option<i64>,
    pub content_type: MessageContentType,
    pub text_content: String,
    pub media_url: Option<String>,
    pub media_metadata: Option<MediaMetadata>,
}

/// The record to store for message `m`, sent by `sender_id` to `channel_id`.
pub open spec fn record_of(channel_id: i64, sender_id: i64, m: SendMessageReq) -> CreateMessage {
    CreateMessage {
        channel_id,
        sender_id: Some(sender_id),
        parent_msg_id: m.parent_msg_id,
        content_type: m.content_type,
        text_content: m.text_content,
        media_url: m.media_url,
        media_metadata: m.media_metadata,
    }
}

/// The frame that announces stored message `m` from `sender`.
pub open spec fn frame_of(sender: SimpleUser, m: Message) -> WebSocketMessage {
    WebSocketMessage {
        sender,
        parent_msg_id: m.parent_msg_id,
        content_type: m.content_type,
        text_content: m.text_content,
        media_url: m.media_url,
        media_metadata: m.media_metadata,
    }
}

impl CreateMessage {
    /// The record to store for `m`: the channel and the sender come from the
    /// connection, the content from the message itself.
    pub fn for_message(channel_id: i64, sender_id: i64, m: SendMessageReq) -> (r: CreateMessage)
        ensures
            r == record_of(channel_id, sender_id, m),
    {
        CreateMessage {
            channel_id,
            sender_id: Some(sender_id),
            parent_msg_id: m.parent_msg_id,
            content_type: m.content_type,
            text_content: m.text_content,
            media_url: m.media_url,
            media_metadata: m.media_metadata,
        }
    }
}

impl WebSocketMessage {
    /// The frame for stored message `m`, attributed to `sender`.
    pub fn for_stored(sender: SimpleUser, m: Message) -> (r: WebSocketMessage)
        ensures
            r == frame_of(sender, m),
    {
        WebSocketMessage {
            sender,
            parent_msg_id: m.parent_msg_id,
            content_type: m.content_type,
            text_content: m.text_content,
            media_url: m.media_url,
            media_metadata: m.media_metadata,
        }
    }
}

} // verus!
