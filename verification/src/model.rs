//! The data model of a conversation: messages, their content, tool calls
//! and results, and the bots that can answer.
//!
//! Every executable type here is a plain value and has a mathematical
//! view (`@` / `deep_view`) over which all contracts in this crate are
//! stated. `Clone` is implemented by hand so that verified code knows a
//! clone has the same view as its original.

use vstd::prelude::*;

verus! {

/// A stable bot identity, namespaced by the client that owns the bot
/// (for example `"openclaw/assistant"`).
#[derive(Debug)]
pub struct BotId {
    pub id: String,
}

impl View for BotId {
    type V = Seq<char>;

    open spec fn view(&self) -> Seq<char> {
        self.id@
    }
}

impl DeepView for BotId {
    type V = Seq<char>;

    open spec fn deep_view(&self) -> Seq<char> {
        self@
    }
}

impl BotId {
    pub fn new(id: &str) -> (r: BotId)
        ensures
            r@ == id@,
    {
        BotId { id: id.to_owned() }
    }

    /// Whether two bot ids name the same bot.
    pub fn same_as(&self, other: &BotId) -> (b: bool)
        ensures
            b == (self@ == other@),
    {
        self.id == other.id
    }
}

impl Clone for BotId {
    fn clone(&self) -> (r: Self)
        ensures
            r@ == self@,
    {
        BotId { id: self.id.clone() }
    }
}

/// The mathematical view of an [`EntityId`].
pub enum EntityIdV {
    User,
    Bot(Seq<char>),
    Tool,
    App,
}

/// The identity a message is attributed to.
#[derive(Debug)]
pub enum EntityId {
    /// The human user of the conversation.
    User,
    /// A bot, by its id.
    Bot(BotId),
    /// The tool-execution side of the conversation.
    Tool,
    /// The application itself (status and error messages).
    App,
}

impl View for EntityId {
    type V = EntityIdV;

    open spec fn view(&self) -> EntityIdV {
        match self {
            EntityId::User => EntityIdV::User,
            EntityId::Bot(id) => EntityIdV::Bot(id@),
            EntityId::Tool => EntityIdV::Tool,
            EntityId::App => EntityIdV::App,
        }
    }
}

impl DeepView for EntityId {
    type V = EntityIdV;

    open spec fn deep_view(&self) -> EntityIdV {
        self@
    }
}

impl Clone for EntityId {
    fn clone(&self) -> (r: Self)
        ensures
            r@ == self@,
    {
        match self {
            EntityId::User => EntityId::User,
            EntityId::Bot(id) => EntityId::Bot(id.clone()),
            EntityId::Tool => EntityId::Tool,
            EntityId::App => EntityId::App,
        }
    }
}

/// How a bot presents itself visually; its view is the text shown.
#[derive(Debug)]
pub enum EntityAvatar {
    /// A short text (such as a single grapheme) standing for the bot.
    Text(String),
}

impl View for EntityAvatar {
    type V = Seq<char>;

    open spec fn view(&self) -> Seq<char> {
        match self {
            EntityAvatar::Text(t) => t@,
        }
    }
}

impl Clone for EntityAvatar {
    fn clone(&self) -> (r: Self)
        ensures
            r@ == self@,
    {
        match self {
            EntityAvatar::Text(t) => EntityAvatar::Text(t.clone()),
        }
    }
}

/// The input modalities a bot supports.
#[derive(Clone, Copy, Debug, PartialEq, Eq, Structural)]
pub struct BotCapabilities {
    pub text_input: bool,
    pub attachment_input: bool,
}

impl BotCapabilities {
    pub fn new() -> (r: BotCapabilities)
        ensures
            !r.text_input,
            !r.attachment_input,
    {
        BotCapabilities { text_input: false, attachment_input: false }
    }

    pub fn with_text_input(self) -> (r: BotCapabilities)
        ensures
            r == (BotCapabilities { text_input: true, ..self }),
    {
        BotCapabilities { text_input: true, ..self }
    }

    pub fn with_attachment_input(self) -> (r: BotCapabilities)
        ensures
            r == (BotCapabilities { attachment_input: true, ..self }),
    {
        BotCapabilities { attachment_input: true, ..self }
    }
}

/// The mathematical view of a [`Bot`].
pub struct BotV {
    pub id: Seq<char>,
    pub name: Seq<char>,
    pub avatar: Seq<char>,
    pub capabilities: BotCapabilities,
}

/// A selectable responder exposed by a client.
#[derive(Debug)]
pub struct Bot {
    pub id: BotId,
    pub name: String,
    pub avatar: EntityAvatar,
    pub capabilities: BotCapabilities,
}

impl View for Bot {
    type V = BotV;

    open spec fn view(&self) -> BotV {
        BotV { id: self.id@, name: self.name@, avatar: self.avatar@, capabilities: self.capabilities }
    }
}

impl DeepView for Bot {
    type V = BotV;

    open spec fn deep_view(&self) -> BotV {
        self@
    }
}

impl Clone for Bot {
    fn clone(&self) -> (r: Self)
        ensures
            r@ == self@,
    {
        Bot {
            id: self.id.clone(),
            name: self.name.clone(),
            avatar: self.avatar.clone(),
            capabilities: self.capabilities,
        }
    }
}

/// The mathematical view of an [`Attachment`].
pub struct AttachmentV {
    pub name: Seq<char>,
    pub mime: Option<Seq<char>>,
    pub content: Seq<u8>,
}

/// A file or blob attached to a message.
#[derive(Debug)]
pub struct Attachment {
    pub name: String,
    pub mime: Option<String>,
    pub content: Vec<u8>,
}

impl View for Attachment {
    type V = AttachmentV;

    open spec fn view(&self) -> AttachmentV {
        AttachmentV { name: self.name@, mime: self.mime.deep_view(), content: self.content@ }
    }
}

impl DeepView for Attachment {
    type V = AttachmentV;

    open spec fn deep_view(&self) -> AttachmentV {
        self@
    }
}

impl Attachment {
    /// An attachment over a copied byte content.
    pub fn from_bytes(name: String, mime: Option<String>, content: &[u8]) -> (r: Attachment)
        ensures
            r@ == (AttachmentV { name: name@, mime: mime.deep_view(), content: content@ }),
    {
        let mut bytes: Vec<u8> = Vec::new();
        let mut i: usize = 0;
        while i < content.len()
            invariant
                i <= content.len(),
                bytes@ == content@.subrange(0, i as int),
            decreases content.len() - i,
        {
            bytes.push(content[i]);
            proof {
                assert(bytes@ =~= content@.subrange(0, i + 1));
            }
            i += 1;
        }
        proof {
            assert(bytes@ =~= content@);
        }
        Attachment { name, mime, content: bytes }
    }
}

impl Clone for Attachment {
    fn clone(&self) -> (r: Self)
        ensures
            r@ == self@,
    {
        Attachment {
            name: self.name.clone(),
            mime: match &self.mime {
                Some(m) => Some(m.clone()),
                None => None,
            },
            content: clone_bytes(&self.content),
        }
    }
}

/// The permission state of a tool call. Transitions go only from
/// `Pending` to `Approved` or from `Pending` to `Denied`, never back.
#[derive(Clone, Copy, Debug, PartialEq, Eq, Structural)]
pub enum ToolCallPermissionStatus {
    Pending,
    Approved,
    Denied,
}

/// The mathematical view of a [`ToolCall`].
pub struct ToolCallV {
    pub id: Seq<char>,
    pub name: Seq<char>,
    pub permission_status: ToolCallPermissionStatus,
}

/// An assistant-requested invocation of an external capability, gated by
/// user approval.
#[derive(Debug)]
pub struct ToolCall {
    /// Unique within the conversation.
    pub id: String,
    /// Namespaced name, such as `pkg.tool`.
    pub name: String,
    pub permission_status: ToolCallPermissionStatus,
}

impl View for ToolCall {
    type V = ToolCallV;

    open spec fn view(&self) -> ToolCallV {
        ToolCallV { id: self.id@, name: self.name@, permission_status: self.permission_status }
    }
}

impl DeepView for ToolCall {
    type V = ToolCallV;

    open spec fn deep_view(&self) -> ToolCallV {
        self@
    }
}

impl Clone for ToolCall {
    fn clone(&self) -> (r: Self)
        ensures
            r@ == self@,
    {
        ToolCall {
            id: self.id.clone(),
            name: self.name.clone(),
            permission_status: self.permission_status,
        }
    }
}

/// The mathematical view of a [`ToolResult`].
pub struct ToolResultV {
    pub tool_call_id: Seq<char>,
    pub content: Seq<char>,
    pub is_error: bool,
}

/// The outcome of executing (or refusing) one tool call.
#[derive(Debug)]
pub struct ToolResult {
    /// The id of the [`ToolCall`] this result answers.
    pub tool_call_id: String,
    pub content: String,
    pub is_error: bool,
}

impl View for ToolResult {
    type V = ToolResultV;

    open spec fn view(&self) -> ToolResultV {
        ToolResultV {
            tool_call_id: self.tool_call_id@,
            content: self.content@,
            is_error: self.is_error,
        }
    }
}

impl DeepView for ToolResult {
    type V = ToolResultV;

    open spec fn deep_view(&self) -> ToolResultV {
        self@
    }
}

impl Clone for ToolResult {
    fn clone(&self) -> (r: Self)
        ensures
            r@ == self@,
    {
        ToolResult {
            tool_call_id: self.tool_call_id.clone(),
            content: self.content.clone(),
            is_error: self.is_error,
        }
    }
}

/// The mathematical view of a [`MessageContent`].
pub struct MessageContentV {
    pub text: Seq<char>,
    pub attachments: Seq<AttachmentV>,
    pub tool_calls: Seq<ToolCallV>,
    pub tool_results: Seq<ToolResultV>,
}

impl MessageContentV {
    /// Content holding only the given text.
    pub open spec fn of_text(text: Seq<char>) -> MessageContentV {
        MessageContentV {
            text,
            attachments: Seq::empty(),
            tool_calls: Seq::empty(),
            tool_results: Seq::empty(),
        }
    }
}

/// The content of one message. During streaming, `text` holds the full
/// accumulated text so far, never a bare delta.
#[derive(Debug)]
pub struct MessageContent {
    pub text: String,
    pub attachments: Vec<Attachment>,
    pub tool_calls: Vec<ToolCall>,
    pub tool_results: Vec<ToolResult>,
}

impl View for MessageContent {
    type V = MessageContentV;

    open spec fn view(&self) -> MessageContentV {
        MessageContentV {
            text: self.text@,
            attachments: self.attachments.deep_view(),
            tool_calls: self.tool_calls.deep_view(),
            tool_results: self.tool_results.deep_view(),
        }
    }
}

impl DeepView for MessageContent {
    type V = MessageContentV;

    open spec fn deep_view(&self) -> MessageContentV {
        self@
    }
}

impl MessageContent {
    /// Content with no text, attachments, calls or results.
    pub fn empty() -> (r: MessageContent)
        ensures
            r@ == MessageContentV::of_text(Seq::<char>::empty()),
    {
        let r = MessageContent {
            text: String::new(),
            attachments: Vec::new(),
            tool_calls: Vec::new(),
            tool_results: Vec::new(),
        };
        proof {
            assert(r@.attachments =~= Seq::<AttachmentV>::empty());
            assert(r@.tool_calls =~= Seq::<ToolCallV>::empty());
            assert(r@.tool_results =~= Seq::<ToolResultV>::empty());
        }
        r
    }

    /// Content holding only text.
    pub fn from_text(text: String) -> (r: MessageContent)
        ensures
            r@ == MessageContentV::of_text(text@),
    {
        let r = MessageContent {
            text,
            attachments: Vec::new(),
            tool_calls: Vec::new(),
            tool_results: Vec::new(),
        };
        proof {
            assert(r@.attachments =~= Seq::<AttachmentV>::empty());
            assert(r@.tool_calls =~= Seq::<ToolCallV>::empty());
            assert(r@.tool_results =~= Seq::<ToolResultV>::empty());
        }
        r
    }
}

impl Clone for MessageContent {
    fn clone(&self) -> (r: Self)
        ensures
            r@ == self@,
    {
        MessageContent {
            text: self.text.clone(),
            attachments: clone_attachments(&self.attachments),
            tool_calls: clone_tool_calls(&self.tool_calls),
            tool_results: clone_tool_results(&self.tool_results),
        }
    }
}

/// The mathematical view of a [`Message`].
pub struct MessageV {
    pub from: EntityIdV,
    pub content: MessageContentV,
}

/// One entry of the conversation. Creation order is significant and
/// defines conversation order; a message changes only through explicit
/// mutations of the message list.
#[derive(Debug)]
pub struct Message {
    pub from: EntityId,
    pub content: MessageContent,
}

impl View for Message {
    type V = MessageV;

    open spec fn view(&self) -> MessageV {
        MessageV { from: self.from@, content: self.content@ }
    }
}

impl DeepView for Message {
    type V = MessageV;

    open spec fn deep_view(&self) -> MessageV {
        self@
    }
}

impl Clone for Message {
    fn clone(&self) -> (r: Self)
        ensures
            r@ == self@,
    {
        Message { from: self.from.clone(), content: self.content.clone() }
    }
}

/// The mathematical view of a [`Tool`].
pub struct ToolV {
    pub name: Seq<char>,
    pub description: Seq<char>,
}

/// An entry of the tool catalog handed to a backend.
#[derive(Debug)]
pub struct Tool {
    /// Namespaced name, such as `pkg.tool`.
    pub name: String,
    pub description: String,
}

impl View for Tool {
    type V = ToolV;

    open spec fn view(&self) -> ToolV {
        ToolV { name: self.name@, description: self.description@ }
    }
}

impl DeepView for Tool {
    type V = ToolV;

    open spec fn deep_view(&self) -> ToolV {
        self@
    }
}

impl Clone for Tool {
    fn clone(&self) -> (r: Self)
        ensures
            r@ == self@,
    {
        Tool { name: self.name.clone(), description: self.description.clone() }
    }
}

pub fn clone_bytes(v: &Vec<u8>) -> (r: Vec<u8>)
    ensures
        r@ == v@,
{
    let mut r: Vec<u8> = Vec::new();
    let mut i: usize = 0;
    while i < v.len()
        invariant
            i <= v.len(),
            r@ == v@.subrange(0, i as int),
        decreases v.len() - i,
    {
        r.push(v[i]);
        proof {
            assert(r@ =~= v@.subrange(0, i + 1));
        }
        i += 1;
    }
    proof {
        assert(r@ =~= v@);
    }
    r
}

pub fn clone_attachments(v: &Vec<Attachment>) -> (r: Vec<Attachment>)
    ensures
        r.deep_view() == v.deep_view(),
{
    let mut r: Vec<Attachment> = Vec::new();
    let mut i: usize = 0;
    while i < v.len()
        invariant
            i <= v.len(),
            r@.len() == i,
            forall|j: int| 0 <= j < i ==> r@[j].deep_view() == v@[j].deep_view(),
        decreases v.len() - i,
    {
        r.push(v[i].clone());
        i += 1;
    }
    proof {
        assert forall|j: int| 0 <= j < v@.len() implies r.deep_view()[j] == v.deep_view()[j] by {
            assert(r@[j].deep_view() == v@[j].deep_view());
        }
        assert(r.deep_view() =~= v.deep_view());
    }
    r
}

pub fn clone_tool_calls(v: &Vec<ToolCall>) -> (r: Vec<ToolCall>)
    ensures
        r.deep_view() == v.deep_view(),
{
    let mut r: Vec<ToolCall> = Vec::new();
    let mut i: usize = 0;
    while i < v.len()
        invariant
            i <= v.len(),
            r@.len() == i,
            forall|j: int| 0 <= j < i ==> r@[j].deep_view() == v@[j].deep_view(),
        decreases v.len() - i,
    {
        r.push(v[i].clone());
        i += 1;
    }
    proof {
        assert forall|j: int| 0 <= j < v@.len() implies r.deep_view()[j] == v.deep_view()[j] by {
            assert(r@[j].deep_view() == v@[j].deep_view());
        }
        assert(r.deep_view() =~= v.deep_view());
    }
    r
}

pub fn clone_tool_results(v: &Vec<ToolResult>) -> (r: Vec<ToolResult>)
    ensures
        r.deep_view() == v.deep_view(),
{
    let mut r: Vec<ToolResult> = Vec::new();
    let mut i: usize = 0;
    while i < v.len()
        invariant
            i <= v.len(),
            r@.len() == i,
            forall|j: int| 0 <= j < i ==> r@[j].deep_view() == v@[j].deep_view(),
        decreases v.len() - i,
    {
        r.push(v[i].clone());
        i += 1;
    }
    proof {
        assert forall|j: int| 0 <= j < v@.len() implies r.deep_view()[j] == v.deep_view()[j] by {
            assert(r@[j].deep_view() == v@[j].deep_view());
        }
        assert(r.deep_view() =~= v.deep_view());
    }
    r
}

pub fn clone_messages(v: &Vec<Message>) -> (r: Vec<Message>)
    ensures
        r.deep_view() == v.deep_view(),
{
    let mut r: Vec<Message> = Vec::new();
    let mut i: usize = 0;
    while i < v.len()
        invariant
            i <= v.len(),
            r@.len() == i,
            forall|j: int| 0 <= j < i ==> r@[j].deep_view() == v@[j].deep_view(),
        decreases v.len() - i,
    {
        r.push(v[i].clone());
        i += 1;
    }
    proof {
        assert forall|j: int| 0 <= j < v@.len() implies r.deep_view()[j] == v.deep_view()[j] by {
            assert(r@[j].deep_view() == v@[j].deep_view());
        }
        assert(r.deep_view() =~= v.deep_view());
    }
    r
}

pub fn clone_bots(v: &Vec<Bot>) -> (r: Vec<Bot>)
    ensures
        r.deep_view() == v.deep_view(),
{
    let mut r: Vec<Bot> = Vec::new();
    let mut i: usize = 0;
    while i < v.len()
        invariant
            i <= v.len(),
            r@.len() == i,
            forall|j: int| 0 <= j < i ==> r@[j].deep_view() == v@[j].deep_view(),
        decreases v.len() - i,
    {
        r.push(v[i].clone());
        i += 1;
    }
    proof {
        assert forall|j: int| 0 <= j < v@.len() implies r.deep_view()[j] == v.deep_view()[j] by {
            assert(r@[j].deep_view() == v@[j].deep_view());
        }
        assert(r.deep_view() =~= v.deep_view());
    }
    r
}

} // verus!
