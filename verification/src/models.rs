//! Data model of the platform: users, chats, messages, attachments,
//! buttons, markup, and the update (event) variants delivered by the
//! long-poll endpoint.
//!
//! These are plain data carriers. Geographic coordinates are held as
//! fixed-point microdegrees (degrees times one million) so that every
//! field is an exactly-represented integer.

use vstd::prelude::*;
use std::collections::HashMap;

verus! {

// --- Users ---

#[derive(Debug, Clone, PartialEq)]
pub struct User {
    pub user_id: i64,
    pub first_name: String,
    pub last_name: Option<String>,
    pub username: Option<String>,
    pub is_bot: bool,
    pub last_activity_time: i64,
}

#[derive(Debug, Clone, PartialEq)]
pub struct UserWithPhoto {
    pub user_id: i64,
    pub first_name: String,
    pub last_name: Option<String>,
    pub username: Option<String>,
    pub is_bot: bool,
    pub last_activity_time: i64,
    pub description: Option<String>,
    pub avatar_url: Option<String>,
    pub full_avatar_url: Option<String>,
}

#[derive(Debug, Clone, PartialEq)]
pub struct Image {
    pub url: String,
}

// --- Common results ---

#[derive(Debug, Clone, PartialEq)]
pub struct ApiError {
    pub code: String,
    pub message: String,
}

#[derive(Debug, Clone, PartialEq)]
pub struct SimpleQueryResult {
    pub success: bool,
    pub message: Option<String>,
}

// --- Bots ---

#[derive(Debug, Clone, PartialEq)]
pub struct BotInfo {
    pub user_id: i64,
    pub first_name: String,
    pub last_name: Option<String>,
    pub username: Option<String>,
    pub is_bot: bool,
    pub last_activity_time: i64,
    pub description: Option<String>,
    pub avatar_url: Option<String>,
    pub full_avatar_url: Option<String>,
    pub commands: Option<Vec<BotCommand>>,
}

#[derive(Debug, Clone, PartialEq)]
pub struct BotPatch {
    pub name: Option<String>,
    pub description: Option<String>,
    pub commands: Option<Vec<BotCommand>>,
    pub photo: Option<PhotoAttachmentRequestPayload>,
}

#[derive(Debug, Clone, PartialEq)]
pub struct BotCommand {
    pub name: String,
    pub description: Option<String>,
}

// --- Buttons and keyboards ---

#[derive(Debug, Clone, PartialEq)]
pub enum Intent {
    Positive,
    Negative,
    Default,
}

#[derive(Debug, Clone, PartialEq)]
pub struct CallbackButton {
    pub text: String,
    pub payload: String,
    pub intent: Option<Intent>,
}

#[derive(Debug, Clone, PartialEq)]
pub struct LinkButton {
    pub text: String,
    pub url: String,
}

#[derive(Debug, Clone, PartialEq)]
pub struct RequestGeoLocationButton {
    pub text: String,
    pub quick: Option<bool>,
}

#[derive(Debug, Clone, PartialEq)]
pub struct RequestContactButton {
    pub text: String,
}

#[derive(Debug, Clone, PartialEq)]
pub struct ChatButton {
    pub text: String,
    pub chat_title: String,
    pub chat_description: Option<String>,
    pub start_payload: Option<String>,
    pub uuid: Option<i64>,
}

#[derive(Debug, Clone, PartialEq)]
pub enum Button {
    Callback(CallbackButton),
    Link(LinkButton),
    RequestGeoLocation(RequestGeoLocationButton),
    RequestContact(RequestContactButton),
    Chat(ChatButton),
}

#[derive(Debug, Clone, PartialEq)]
pub struct SendMessageButton {
    pub text: String,
    pub payload: Option<String>,
    pub intent: Option<Intent>,
}

#[derive(Debug, Clone, PartialEq)]
pub struct SendGeoLocationButton {
    pub text: String,
    pub payload: Option<String>,
    pub quick: Option<bool>,
}

#[derive(Debug, Clone, PartialEq)]
pub struct SendContactButton {
    pub text: String,
    pub payload: Option<String>,
}

#[derive(Debug, Clone, PartialEq)]
pub enum ReplyButton {
    Message(SendMessageButton),
    UserGeoLocation(SendGeoLocationButton),
    UserContact(SendContactButton),
}

#[derive(Debug, Clone, PartialEq)]
pub struct Keyboard {
    pub buttons: Vec<Vec<Button>>,
}

// --- Text markup ---

#[derive(Debug, Clone, PartialEq)]
pub struct StrongMarkup {
    pub from: i32,
    pub length: i32,
}

#[derive(Debug, Clone, PartialEq)]
pub struct EmphasizedMarkup {
    pub from: i32,
    pub length: i32,
}

#[derive(Debug, Clone, PartialEq)]
pub struct MonospacedMarkup {
    pub from: i32,
    pub length: i32,
}

#[derive(Debug, Clone, PartialEq)]
pub struct LinkMarkup {
    pub from: i32,
    pub length: i32,
    pub url: String,
}

#[derive(Debug, Clone, PartialEq)]
pub struct StrikethroughMarkup {
    pub from: i32,
    pub length: i32,
}

#[derive(Debug, Clone, PartialEq)]
pub struct UnderlineMarkup {
    pub from: i32,
    pub length: i32,
}

#[derive(Debug, Clone, PartialEq)]
pub struct UserMentionMarkup {
    pub from: i32,
    pub length: i32,
    pub user_link: Option<String>,
    pub user_id: Option<i64>,
}

#[derive(Debug, Clone, PartialEq)]
pub struct HeadingMarkup {
    pub from: i32,
    pub length: i32,
}

#[derive(Debug, Clone, PartialEq)]
pub struct HighlightedMarkup {
    pub from: i32,
    pub length: i32,
}

#[derive(Debug, Clone, PartialEq)]
pub enum MarkupElement {
    Strong(StrongMarkup),
    Emphasized(EmphasizedMarkup),
    Monospaced(MonospacedMarkup),
    Link(LinkMarkup),
    Strikethrough(StrikethroughMarkup),
    Underline(UnderlineMarkup),
    UserMention(UserMentionMarkup),
    Heading(HeadingMarkup),
    Highlighted(HighlightedMarkup),
}

// --- Received attachments ---

#[derive(Debug, Clone, PartialEq)]
pub struct PhotoAttachmentPayload {
    pub photo_id: i64,
    pub token: String,
    pub url: String,
}

#[derive(Debug, Clone, PartialEq)]
pub struct PhotoAttachment {
    pub payload: PhotoAttachmentPayload,
}

#[derive(Debug, Clone, PartialEq)]
pub struct MediaAttachmentPayload {
    pub url: String,
    pub token: String,
}

#[derive(Debug, Clone, PartialEq)]
pub struct VideoThumbnail {
    pub url: String,
}

#[derive(Debug, Clone, PartialEq)]
pub struct VideoAttachment {
    pub payload: MediaAttachmentPayload,
    pub thumbnail: Option<VideoThumbnail>,
    pub width: Option<i32>,
    pub height: Option<i32>,
    pub duration: Option<i32>,
}

#[derive(Debug, Clone, PartialEq)]
pub struct AudioAttachment {
    pub payload: MediaAttachmentPayload,
    pub transcription: Option<String>,
}

#[derive(Debug, Clone, PartialEq)]
pub struct FileAttachmentPayload {
    pub url: String,
    pub token: String,
}

#[derive(Debug, Clone, PartialEq)]
pub struct FileAttachment {
    pub payload: FileAttachmentPayload,
    pub filename: String,
    pub size: i64,
}

#[derive(Debug, Clone, PartialEq)]
pub struct StickerAttachmentPayload {
    pub url: String,
    pub code: String,
}

#[derive(Debug, Clone, PartialEq)]
pub struct StickerAttachment {
    pub payload: StickerAttachmentPayload,
    pub width: i32,
    pub height: i32,
}

#[derive(Debug, Clone, PartialEq)]
pub struct ContactAttachmentPayload {
    pub vcf_info: Option<String>,
    pub max_info: Option<User>,
}

#[derive(Debug, Clone, PartialEq)]
pub struct ContactAttachment {
    pub payload: ContactAttachmentPayload,
}

#[derive(Debug, Clone, PartialEq)]
pub struct InlineKeyboardAttachment {
    pub payload: Keyboard,
}

#[derive(Debug, Clone, PartialEq)]
pub struct ReplyKeyboardAttachment {
    pub buttons: Vec<Vec<ReplyButton>>,
}

#[derive(Debug, Clone, PartialEq)]
pub struct ShareAttachmentPayload {
    pub url: Option<String>,
    pub token: Option<String>,
}

#[derive(Debug, Clone, PartialEq)]
pub struct ShareAttachment {
    pub payload: ShareAttachmentPayload,
    pub title: Option<String>,
    pub description: Option<String>,
    pub image_url: Option<String>,
}

/// Coordinates in fixed-point microdegrees: degrees times 1_000_000.
#[derive(Debug, Clone, PartialEq)]
pub struct LocationAttachment {
    pub latitude_udeg: i64,
    pub longitude_udeg: i64,
}

#[derive(Debug, Clone, PartialEq)]
pub struct DataAttachment {
    pub data: String,
}

#[derive(Debug, Clone, PartialEq)]
pub enum Attachment {
    Image(PhotoAttachment),
    Video(VideoAttachment),
    Audio(AudioAttachment),
    File(FileAttachment),
    Sticker(StickerAttachment),
    Contact(ContactAttachment),
    InlineKeyboard(InlineKeyboardAttachment),
    ReplyKeyboard(ReplyKeyboardAttachment),
    Share(ShareAttachment),
    Location(LocationAttachment),
    Data(DataAttachment),
}

// --- Attachment requests (outgoing) ---

#[derive(Debug, Clone, PartialEq)]
pub struct PhotoToken {
    pub token: String,
}

#[derive(Debug, Clone, PartialEq)]
pub struct PhotoAttachmentRequestPayload {
    pub url: Option<String>,
    pub token: Option<String>,
    pub photos: Option<HashMap<String, PhotoToken>>,
}

#[derive(Debug, Clone, PartialEq)]
pub struct PhotoAttachmentRequest {
    pub payload: PhotoAttachmentRequestPayload,
}

#[derive(Debug, Clone, PartialEq)]
pub struct UploadedInfo {
    pub token: String,
}

#[derive(Debug, Clone, PartialEq)]
pub struct VideoAttachmentRequest {
    pub payload: UploadedInfo,
}

#[derive(Debug, Clone, PartialEq)]
pub struct AudioAttachmentRequest {
    pub payload: UploadedInfo,
}

#[derive(Debug, Clone, PartialEq)]
pub struct FileAttachmentRequest {
    pub payload: UploadedInfo,
}

#[derive(Debug, Clone, PartialEq)]
pub struct StickerAttachmentRequestPayload {
    pub code: String,
}

#[derive(Debug, Clone, PartialEq)]
pub struct StickerAttachmentRequest {
    pub payload: StickerAttachmentRequestPayload,
}

#[derive(Debug, Clone, PartialEq)]
pub struct ContactAttachmentRequestPayload {
    pub name: Option<String>,
    pub contact_id: Option<i64>,
    pub vcf_info: Option<String>,
    pub vcf_phone: Option<String>,
}

#[derive(Debug, Clone, PartialEq)]
pub struct ContactAttachmentRequest {
    pub payload: ContactAttachmentRequestPayload,
}

#[derive(Debug, Clone, PartialEq)]
pub struct InlineKeyboardAttachmentRequestPayload {
    pub buttons: Vec<Vec<Button>>,
}

#[derive(Debug, Clone, PartialEq)]
pub struct InlineKeyboardAttachmentRequest {
    pub payload: InlineKeyboardAttachmentRequestPayload,
}

#[derive(Debug, Clone, PartialEq)]
pub struct ReplyKeyboardAttachmentRequest {
    pub direct: Option<bool>,
    pub direct_user_id: Option<i64>,
    pub buttons: Vec<Vec<ReplyButton>>,
}

/// Coordinates in fixed-point microdegrees: degrees times 1_000_000.
#[derive(Debug, Clone, PartialEq)]
pub struct LocationAttachmentRequest {
    pub latitude_udeg: i64,
    pub longitude_udeg: i64,
}

#[derive(Debug, Clone, PartialEq)]
pub struct ShareAttachmentRequest {
    pub payload: ShareAttachmentPayload,
}

#[derive(Debug, Clone, PartialEq)]
pub enum AttachmentRequest {
    Image(PhotoAttachmentRequest),
    Video(VideoAttachmentRequest),
    Audio(AudioAttachmentRequest),
    File(FileAttachmentRequest),
    Sticker(StickerAttachmentRequest),
    Contact(ContactAttachmentRequest),
    InlineKeyboard(InlineKeyboardAttachmentRequest),
    ReplyKeyboard(ReplyKeyboardAttachmentRequest),
    Location(LocationAttachmentRequest),
    Share(ShareAttachmentRequest),
}

// --- Uploads ---

#[derive(Debug, Clone, PartialEq)]
pub struct UploadEndpoint {
    pub url: String,
    pub token: Option<String>,
}

#[derive(Debug, Clone, PartialEq)]
pub enum UploadType {
    Image,
    Video,
    Audio,
    File,
}

// --- Chats ---

#[derive(Debug, Clone, PartialEq)]
pub enum ChatType {
    Dialog,
    Chat,
    Channel,
}

#[derive(Debug, Clone, PartialEq)]
pub enum ChatStatus {
    Active,
    Removed,
    Left,
    Closed,
    Suspended,
}

#[derive(Debug, Clone, PartialEq)]
pub struct Chat {
    pub chat_id: i64,
    pub chat_type: ChatType,
    pub status: ChatStatus,
    pub title: Option<String>,
    pub icon: Option<Image>,
    pub last_event_time: i64,
    pub participants_count: i32,
    pub owner_id: Option<i64>,
    pub participants: Option<HashMap<String, i64>>,
    pub is_public: bool,
    pub link: Option<String>,
    pub description: Option<String>,
    pub dialog_with_user: Option<UserWithPhoto>,
    pub messages_count: Option<i32>,
    pub chat_message_id: Option<String>,
    pub pinned_message: Option<Message>,
}

#[derive(Debug, Clone, PartialEq)]
pub struct ChatList {
    pub chats: Vec<Chat>,
    pub marker: Option<i64>,
}

#[derive(Debug, Clone, PartialEq)]
pub struct ChatPatch {
    pub icon: Option<PhotoAttachmentRequestPayload>,
    pub title: Option<String>,
    pub pin: Option<String>,
    pub notify: Option<bool>,
}

// --- Messages ---

#[derive(Debug, Clone, PartialEq)]
pub enum MessageLinkType {
    Forward,
    Reply,
}

#[derive(Debug, Clone, PartialEq)]
pub struct Recipient {
    pub chat_id: Option<i64>,
    pub chat_type: ChatType,
    pub user_id: Option<i64>,
}

#[derive(Debug, Clone, PartialEq)]
pub struct MessageBody {
    pub mid: String,
    pub seq: i64,
    pub text: Option<String>,
    pub attachments: Option<Vec<Attachment>>,
    pub markup: Option<Vec<MarkupElement>>,
}

#[derive(Debug, Clone, PartialEq)]
pub struct LinkedMessage {
    pub link_type: MessageLinkType,
    pub sender: Option<User>,
    pub chat_id: Option<i64>,
    pub message: MessageBody,
}

#[derive(Debug, Clone, PartialEq)]
pub struct MessageStat {
    pub views: i32,
}

#[derive(Debug, Clone, PartialEq)]
pub struct Message {
    pub sender: Option<User>,
    pub recipient: Recipient,
    pub timestamp: i64,
    pub link: Option<LinkedMessage>,
    pub body: MessageBody,
    pub stat: Option<MessageStat>,
    pub url: Option<String>,
}

#[derive(Debug, Clone, PartialEq)]
pub struct MessageList {
    pub messages: Vec<Message>,
}

#[derive(Debug, Clone, PartialEq)]
pub enum TextFormat {
    Markdown,
    Html,
}

#[derive(Debug, Clone, PartialEq)]
pub struct NewMessageLink {
    pub link_type: MessageLinkType,
    pub mid: String,
}

#[derive(Debug, Clone, PartialEq)]
pub struct NewMessageBody {
    pub text: Option<String>,
    pub attachments: Option<Vec<AttachmentRequest>>,
    pub link: Option<NewMessageLink>,
    pub notify: Option<bool>,
    pub format: Option<TextFormat>,
}

#[derive(Debug, Clone, PartialEq)]
pub struct SendMessageResult {
    pub message: Message,
}

// --- Subscriptions ---

#[derive(Debug, Clone, PartialEq)]
pub struct Subscription {
    pub url: String,
    pub time: i64,
    pub update_types: Option<Vec<String>>,
    pub version: Option<String>,
}

#[derive(Debug, Clone, PartialEq)]
pub struct GetSubscriptionsResult {
    pub subscriptions: Vec<Subscription>,
}

#[derive(Debug, Clone, PartialEq)]
pub struct SubscriptionRequestBody {
    pub url: String,
    pub secret: Option<String>,
    pub update_types: Option<Vec<String>>,
    pub version: Option<String>,
}

// --- Updates (platform events) ---

#[derive(Debug, Clone, PartialEq)]
pub struct Callback {
    pub timestamp: i64,
    pub callback_id: String,
    pub payload: Option<String>,
    pub user: User,
}

#[derive(Debug, Clone, PartialEq)]
pub struct MessageCreatedUpdate {
    pub timestamp: i64,
    pub message: Message,
    pub user_locale: Option<String>,
}

#[derive(Debug, Clone, PartialEq)]
pub struct MessageCallbackUpdate {
    pub timestamp: i64,
    pub callback: Callback,
    pub message: Option<Message>,
    pub user_locale: Option<String>,
}

#[derive(Debug, Clone, PartialEq)]
pub struct MessageEditedUpdate {
    pub timestamp: i64,
    pub message: Message,
}

#[derive(Debug, Clone, PartialEq)]
pub struct MessageRemovedUpdate {
    pub timestamp: i64,
    pub message_id: String,
    pub chat_id: i64,
    pub user_id: i64,
}

#[derive(Debug, Clone, PartialEq)]
pub struct BotAddedToChatUpdate {
    pub timestamp: i64,
    pub chat_id: i64,
    pub user: User,
    pub is_channel: bool,
}

#[derive(Debug, Clone, PartialEq)]
pub struct BotRemovedFromChatUpdate {
    pub timestamp: i64,
    pub chat_id: i64,
    pub user: User,
    pub is_channel: bool,
}

#[derive(Debug, Clone, PartialEq)]
pub struct UserAddedToChatUpdate {
    pub timestamp: i64,
    pub chat_id: i64,
    pub user: User,
    pub inviter_id: Option<i64>,
    pub is_channel: bool,
}

#[derive(Debug, Clone, PartialEq)]
pub struct UserRemovedFromChatUpdate {
    pub timestamp: i64,
    pub chat_id: i64,
    pub user: User,
    pub admin_id: Option<i64>,
    pub is_channel: bool,
}

#[derive(Debug, Clone, PartialEq)]
pub struct BotStartedUpdate {
    pub timestamp: i64,
    pub chat_id: i64,
    pub user: User,
    pub payload: Option<String>,
    pub user_locale: Option<String>,
}

#[derive(Debug, Clone, PartialEq)]
pub struct ChatTitleChangedUpdate {
    pub timestamp: i64,
    pub chat_id: i64,
    pub user: User,
    pub title: String,
}

#[derive(Debug, Clone, PartialEq)]
pub struct MessageChatCreatedUpdate {
    pub timestamp: i64,
    pub chat: Chat,
    pub message_id: String,
    pub start_payload: Option<String>,
}

/// One platform event, tagged by kind.
#[derive(Debug, Clone, PartialEq)]
pub enum Update {
    MessageCreated(MessageCreatedUpdate),
    MessageCallback(MessageCallbackUpdate),
    MessageEdited(MessageEditedUpdate),
    MessageRemoved(MessageRemovedUpdate),
    BotAdded(BotAddedToChatUpdate),
    BotRemoved(BotRemovedFromChatUpdate),
    UserAdded(UserAddedToChatUpdate),
    UserRemoved(UserRemovedFromChatUpdate),
    BotStarted(BotStartedUpdate),
    ChatTitleChanged(ChatTitleChangedUpdate),
    MessageChatCreated(MessageChatCreatedUpdate),
    /// An event of a kind this library does not know. Kept as a value so
    /// that new platform event kinds flow through the pipeline instead of
    /// breaking it; consumers decide whether to log or ignore it.
    Unknown,
}

/// One long-poll response: the events found plus the marker to resume
/// from once every one of them has been handed to the consumer.
#[derive(Debug, Clone, PartialEq)]
pub struct UpdateList {
    pub updates: Vec<Update>,
    pub marker: Option<i64>,
}

impl Message {
    /// The outgoing body of a plain-text answer into this message's chat.
    pub fn answer_body(&self, text: String) -> (body: NewMessageBody)
        ensures
            body.text == Some(text),
            body.attachments is None,
            body.link is None,
            body.notify == Some(false),
            body.format == Some(TextFormat::Markdown),
    {
        NewMessageBody::new(text)
    }

    /// The outgoing body that forwards this message alongside `text`.
    pub fn forward_body(&self, text: String) -> (body: NewMessageBody)
        ensures
            body.text == Some(text),
            body.attachments is None,
            body.link matches Some(link) && link.link_type == MessageLinkType::Forward
                && link.mid@ == self.body.mid@,
            body.notify == Some(false),
            body.format == Some(TextFormat::Markdown),
    {
        NewMessageBody::with_link(text, MessageLinkType::Forward, self.body.mid.clone())
    }

    /// The outgoing body that replies to this message with `text`.
    pub fn reply_body(&self, text: String) -> (body: NewMessageBody)
        ensures
            body.text == Some(text),
            body.attachments is None,
            body.link matches Some(link) && link.link_type == MessageLinkType::Reply
                && link.mid@ == self.body.mid@,
            body.notify == Some(false),
            body.format == Some(TextFormat::Markdown),
    {
        NewMessageBody::with_link(text, MessageLinkType::Reply, self.body.mid.clone())
    }
}

impl NewMessageBody {
    /// A plain-text outgoing message: no attachments or link, silent
    /// notification, markdown formatting.
    pub fn new(text: String) -> (body: Self)
        ensures
            body.text == Some(text),
            body.attachments is None,
            body.link is None,
            body.notify == Some(false),
            body.format == Some(TextFormat::Markdown),
    {
        NewMessageBody {
            text: Some(text),
            attachments: None,
            link: None,
            notify: Some(false),
            format: Some(TextFormat::Markdown),
        }
    }

    /// The body that forwards or replies to the message with identifier
    /// `mid`: a plain-text body as [`NewMessageBody::new`] builds it, plus
    /// a link of the given kind to that message.
    pub fn with_link(text: String, link_type: MessageLinkType, mid: String) -> (body: Self)
        ensures
            body.text == Some(text),
            body.attachments is None,
            body.link == Some(NewMessageLink { link_type, mid }),
            body.notify == Some(false),
            body.format == Some(TextFormat::Markdown),
    {
        let mut body = NewMessageBody::new(text);
        body.link = Some(NewMessageLink { link_type, mid });
        body
    }

    /// Replace the notification flag, leaving the rest of the body as it was.
    pub fn set_notify(&mut self, notify: bool)
        ensures
            final(self).notify == Some(notify),
            final(self).text == old(self).text,
            final(self).attachments == old(self).attachments,
            final(self).link == old(self).link,
            final(self).format == old(self).format,
    {
        self.notify = Some(notify);
    }
}

} // verus!

