//! Message domain types: identifiers, addresses, metadata, full messages,
//! listing filters, drafts and send packages.

use vstd::prelude::*;

verus! {

/// Declares `serde_json::Value` so that raw JSON carried inside an
/// attachment can be held opaquely; nothing in this crate reads it.
#[verifier::external_type_specification]
#[verifier::external_body]
pub struct ExJsonValue(serde_json::Value);

/// Message API ID.
#[derive(Debug)]
pub struct MessageId(pub String);

/// Label/folder API ID.
#[derive(Debug)]
pub struct LabelId(pub String);

/// Conversation API ID.
#[derive(Debug)]
pub struct ConversationId(pub String);

/// Address ID (for sender/recipient address keys).
#[derive(Debug)]
pub struct AddressId(pub String);

impl View for MessageId {
    type V = Seq<char>;

    open spec fn view(&self) -> Seq<char> {
        self.0@
    }
}

impl View for LabelId {
    type V = Seq<char>;

    open spec fn view(&self) -> Seq<char> {
        self.0@
    }
}

impl View for ConversationId {
    type V = Seq<char>;

    open spec fn view(&self) -> Seq<char> {
        self.0@
    }
}

impl View for AddressId {
    type V = Seq<char>;

    open spec fn view(&self) -> Seq<char> {
        self.0@
    }
}

impl Clone for MessageId {
    fn clone(&self) -> (r: Self)
        ensures
            r == *self,
    {
        MessageId(self.0.clone())
    }
}

impl Clone for LabelId {
    fn clone(&self) -> (r: Self)
        ensures
            r == *self,
    {
        LabelId(self.0.clone())
    }
}

impl Clone for ConversationId {
    fn clone(&self) -> (r: Self)
        ensures
            r == *self,
    {
        ConversationId(self.0.clone())
    }
}

impl Clone for AddressId {
    fn clone(&self) -> (r: Self)
        ensures
            r == *self,
    {
        AddressId(self.0.clone())
    }
}

/// A boolean that the API transmits as an integer flag.
#[derive(Debug, Clone, Copy, PartialEq, Eq, Structural)]
pub enum Boolean {
    False,
    True,
}

impl Boolean {
    /// The integer the API uses for this flag.
    pub fn value(&self) -> (v: u8)
        ensures
            v == self.spec_value(),
    {
        match self {
            Boolean::False => 0,
            Boolean::True => 1,
        }
    }

    pub open spec fn spec_value(&self) -> u8 {
        match self {
            Boolean::False => 0u8,
            Boolean::True => 1u8,
        }
    }
}

/// Email address with optional display name.
#[derive(Debug)]
pub struct MessageAddress {
    /// Display name.
    pub name: String,
    /// Email address.
    pub address: String,
}

/// Mathematical model of a [`MessageAddress`].
pub struct MessageAddressView {
    pub name: Seq<char>,
    pub address: Seq<char>,
}

impl View for MessageAddress {
    type V = MessageAddressView;

    open spec fn view(&self) -> MessageAddressView {
        MessageAddressView { name: self.name@, address: self.address@ }
    }
}

impl MessageAddress {
    pub fn new(name: String, address: String) -> (r: Self)
        ensures
            r.name@ == name@,
            r.address@ == address@,
    {
        MessageAddress { name, address }
    }

    /// What this address looks like when rendered: `name <address>`, or
    /// the bare address when the display name is empty.
    pub open spec fn spec_display(&self) -> Seq<char> {
        if self.name@.len() == 0 {
            self.address@
        } else {
            self.name@ + " <"@ + self.address@ + ">"@
        }
    }

    /// Render the address for human-readable output.
    pub fn display_string(&self) -> (r: String)
        ensures
            r@ == self.spec_display(),
    {
        if self.name.as_str().is_empty() {
            self.address.clone()
        } else {
            let mut out = self.name.clone();
            out.append(" <");
            out.append(self.address.as_str());
            out.append(">");
            out
        }
    }
}

impl Clone for MessageAddress {
    fn clone(&self) -> (r: Self)
        ensures
            r == *self,
    {
        MessageAddress { name: self.name.clone(), address: self.address.clone() }
    }
}

/// Message flags (a bitfield on the wire).
#[derive(Debug, Clone, Copy, PartialEq, Eq, Structural)]
pub enum MessageFlag {
    /// No flags set.
    Unset,
    /// Message has been received (as opposed to sent).
    Received,
    /// Message has been sent.
    Sent,
    /// Message is internal to the service.
    Internal,
    /// Message is end-to-end encrypted.
    E2E,
    /// Message is an auto-reply.
    Auto,
    /// Message has been replied to.
    Replied,
    /// Message has been replied to all.
    RepliedAll,
    /// Message has been forwarded.
    Forwarded,
    /// Message is a receipt request.
    ReceiptRequest,
    /// Message is a receipt.
    ReceiptSent,
    /// Message is DKIM signed.
    DKIMSigned,
    /// Message failed DKIM verification.
    DKIMFailed,
    /// Message is spam.
    Spam,
    /// Message is phishing.
    Phishing,
    /// Message is a virus.
    Virus,
    /// Message has been scheduled.
    Scheduled,
}

impl MessageFlag {
    /// The bit the API assigns to this flag.
    pub fn value(&self) -> (v: u64)
        ensures
            v == self.spec_value(),
    {
        match self {
            MessageFlag::Unset => 0,
            MessageFlag::Received => 1,
            MessageFlag::Sent => 2,
            MessageFlag::Internal => 4,
            MessageFlag::E2E => 8,
            MessageFlag::Auto => 16,
            MessageFlag::Replied => 32,
            MessageFlag::RepliedAll => 64,
            MessageFlag::Forwarded => 128,
            MessageFlag::ReceiptRequest => 256,
            MessageFlag::ReceiptSent => 512,
            MessageFlag::DKIMSigned => 1024,
            MessageFlag::DKIMFailed => 2048,
            MessageFlag::Spam => 4096,
            MessageFlag::Phishing => 8192,
            MessageFlag::Virus => 16384,
            MessageFlag::Scheduled => 32768,
        }
    }

    pub open spec fn spec_value(&self) -> u64 {
        match self {
            MessageFlag::Unset => 0u64,
            MessageFlag::Received => 1u64,
            MessageFlag::Sent => 2u64,
            MessageFlag::Internal => 4u64,
            MessageFlag::E2E => 8u64,
            MessageFlag::Auto => 16u64,
            MessageFlag::Replied => 32u64,
            MessageFlag::RepliedAll => 64u64,
            MessageFlag::Forwarded => 128u64,
            MessageFlag::ReceiptRequest => 256u64,
            MessageFlag::ReceiptSent => 512u64,
            MessageFlag::DKIMSigned => 1024u64,
            MessageFlag::DKIMFailed => 2048u64,
            MessageFlag::Spam => 4096u64,
            MessageFlag::Phishing => 8192u64,
            MessageFlag::Virus => 16384u64,
            MessageFlag::Scheduled => 32768u64,
        }
    }
}

/// MIME type for message content.
#[derive(Debug)]
pub struct MimeType(pub String);

impl MimeType {
    pub fn text_plain() -> (r: Self)
        ensures
            r.0@ == "text/plain"@,
    {
        MimeType(String::from_str("text/plain"))
    }

    pub fn text_html() -> (r: Self)
        ensures
            r.0@ == "text/html"@,
    {
        MimeType(String::from_str("text/html"))
    }

    pub fn is_html(&self) -> (r: bool)
        ensures
            r == (self.0@ == "text/html"@),
    {
        let html = String::from_str("text/html");
        self.0 == html
    }

    pub fn is_plain(&self) -> (r: bool)
        ensures
            r == (self.0@ == "text/plain"@),
    {
        let plain = String::from_str("text/plain");
        self.0 == plain
    }
}

impl Clone for MimeType {
    fn clone(&self) -> (r: Self)
        ensures
            r == *self,
    {
        MimeType(self.0.clone())
    }
}

/// Message metadata (lightweight, for listing).
#[derive(Debug)]
pub struct MessageMetadata {
    /// Unique message ID.
    pub id: MessageId,
    /// Conversation this message belongs to.
    pub conversation_id: ConversationId,
    /// Address ID of the sender address (for key lookup).
    pub address_id: AddressId,
    /// Subject line.
    pub subject: String,
    /// Sender address.
    pub sender: MessageAddress,
    /// Primary recipients (To:).
    pub to_list: Vec<MessageAddress>,
    /// Carbon copy recipients (CC:).
    pub cc_list: Vec<MessageAddress>,
    /// Blind carbon copy recipients (BCC:).
    pub bcc_list: Vec<MessageAddress>,
    /// Reply-to addresses.
    pub reply_tos: Vec<MessageAddress>,
    /// Message flags.
    pub flags: MessageFlag,
    /// Unix timestamp when the message was sent/received.
    pub time: i64,
    /// Size in bytes.
    pub size: u64,
    /// Whether the message is unread.
    pub unread: Boolean,
    /// Whether the message has been replied to.
    pub is_replied: Boolean,
    /// Whether the message has been replied to all.
    pub is_replied_all: Boolean,
    /// Whether the message has been forwarded.
    pub is_forwarded: Boolean,
    /// Number of attachments.
    pub num_attachments: u32,
    /// Labels/folders this message is in.
    pub label_ids: Vec<LabelId>,
    /// External message ID (from headers).
    pub external_id: Option<String>,
}

/// Attachment metadata.
#[derive(Debug)]
pub struct Attachment {
    /// Unique attachment ID.
    pub id: String,
    /// Filename.
    pub name: String,
    /// Size in bytes.
    pub size: u64,
    /// MIME type.
    pub mime_type: String,
    /// Content-ID for inline attachments.
    pub content_id: Option<String>,
    /// Attachment headers (encrypted), carried through as raw JSON.
    pub headers: Option<serde_json::Value>,
    /// Key packets for decryption.
    pub key_packets: Option<String>,
}

/// Full message with body content, as returned when fetching one message.
#[derive(Debug)]
pub struct FullMessage {
    /// Unique message ID.
    pub id: MessageId,
    /// Conversation this message belongs to.
    pub conversation_id: ConversationId,
    /// Address ID of the sender address (for key lookup).
    pub address_id: AddressId,
    /// Subject line.
    pub subject: String,
    /// Sender address.
    pub sender: MessageAddress,
    /// Primary recipients (To:).
    pub to_list: Vec<MessageAddress>,
    /// Carbon copy recipients (CC:).
    pub cc_list: Vec<MessageAddress>,
    /// Blind carbon copy recipients (BCC:).
    pub bcc_list: Vec<MessageAddress>,
    /// Reply-to addresses.
    pub reply_tos: Vec<MessageAddress>,
    /// Message flags.
    pub flags: MessageFlag,
    /// Unix timestamp when the message was sent/received.
    pub time: i64,
    /// Size in bytes.
    pub size: u64,
    /// Whether the message is unread.
    pub unread: Boolean,
    /// Whether the message has been replied to.
    pub is_replied: Boolean,
    /// Whether the message has been replied to all.
    pub is_replied_all: Boolean,
    /// Whether the message has been forwarded.
    pub is_forwarded: Boolean,
    /// Number of attachments.
    pub num_attachments: u32,
    /// Labels/folders this message is in.
    pub label_ids: Vec<LabelId>,
    /// External message ID (from headers).
    pub external_id: Option<String>,
    /// Raw email headers.
    pub header: String,
    /// Encrypted message body.
    pub body: String,
    /// MIME type of the body.
    pub mime_type: MimeType,
    /// Message attachments.
    pub attachments: Vec<Attachment>,
}

impl FullMessage {
    /// Get the metadata view of this message: every listing field copied,
    /// body, headers and attachments dropped.
    pub fn metadata(&self) -> (r: MessageMetadata)
        ensures
            r.id == self.id,
            r.conversation_id == self.conversation_id,
            r.address_id == self.address_id,
            r.subject@ == self.subject@,
            r.sender == self.sender,
            r.to_list@ == self.to_list@,
            r.cc_list@ == self.cc_list@,
            r.bcc_list@ == self.bcc_list@,
            r.reply_tos@ == self.reply_tos@,
            r.flags == self.flags,
            r.time == self.time,
            r.size == self.size,
            r.unread == self.unread,
            r.is_replied == self.is_replied,
            r.is_replied_all == self.is_replied_all,
            r.is_forwarded == self.is_forwarded,
            r.num_attachments == self.num_attachments,
            r.label_ids@ == self.label_ids@,
            r.external_id == self.external_id,
    {
        MessageMetadata {
            id: self.id.clone(),
            conversation_id: self.conversation_id.clone(),
            address_id: self.address_id.clone(),
            subject: self.subject.clone(),
            sender: self.sender.clone(),
            to_list: clone_addresses(&self.to_list),
            cc_list: clone_addresses(&self.cc_list),
            bcc_list: clone_addresses(&self.bcc_list),
            reply_tos: clone_addresses(&self.reply_tos),
            flags: self.flags,
            time: self.time,
            size: self.size,
            unread: self.unread,
            is_replied: self.is_replied,
            is_replied_all: self.is_replied_all,
            is_forwarded: self.is_forwarded,
            num_attachments: self.num_attachments,
            label_ids: clone_label_ids(&self.label_ids),
            external_id: clone_opt_string(&self.external_id),
        }
    }
}

/// Copy a recipient list element by element.
fn clone_addresses(v: &Vec<MessageAddress>) -> (r: Vec<MessageAddress>)
    ensures
        r@ == v@,
{
    let mut out: Vec<MessageAddress> = Vec::new();
    let mut i: usize = 0;
    while i < v.len()
        invariant
            i <= v.len(),
            out@ == v@.subrange(0, i as int),
        decreases v.len() - i,
    {
        out.push(v[i].clone());
        i += 1;
        proof {
            assert(out@ =~= v@.subrange(0, i as int));
        }
    }
    proof {
        assert(out@ =~= v@);
    }
    out
}

/// Copy a label list element by element.
fn clone_label_ids(v: &Vec<LabelId>) -> (r: Vec<LabelId>)
    ensures
        r@ == v@,
{
    let mut out: Vec<LabelId> = Vec::new();
    let mut i: usize = 0;
    while i < v.len()
        invariant
            i <= v.len(),
            out@ == v@.subrange(0, i as int),
        decreases v.len() - i,
    {
        out.push(v[i].clone());
        i += 1;
        proof {
            assert(out@ =~= v@.subrange(0, i as int));
        }
    }
    proof {
        assert(out@ =~= v@);
    }
    out
}

/// Copy a message ID list element by element.
pub(crate) fn clone_message_ids(v: &[MessageId]) -> (r: Vec<MessageId>)
    ensures
        r@ == v@,
{
    let mut out: Vec<MessageId> = Vec::new();
    let mut i: usize = 0;
    while i < v.len()
        invariant
            i <= v.len(),
            out@ == v@.subrange(0, i as int),
        decreases v.len() - i,
    {
        out.push(v[i].clone());
        i += 1;
        proof {
            assert(out@ =~= v@.subrange(0, i as int));
        }
    }
    proof {
        assert(out@ =~= v@);
    }
    out
}

/// Copy an optional string.
fn clone_opt_string(v: &Option<String>) -> (r: Option<String>)
    ensures
        r == *v,
{
    match v {
        Option::Some(s) => Option::Some(s.clone()),
        Option::None => Option::None,
    }
}

/// Message count for a label/folder.
#[derive(Debug)]
pub struct MessageCount {
    /// Label ID.
    pub label_id: LabelId,
    /// Total message count.
    pub total: u32,
    /// Unread message count.
    pub unread: u32,
}

/// Filter for message listing.
#[derive(Debug)]
pub struct MessageFilter {
    /// Filter by label/folder.
    pub label_id: Option<String>,
    /// Page number (0-indexed).
    pub page: Option<u32>,
    /// Page size; the API caps it at 150.
    pub page_size: Option<u32>,
    /// Sort descending by time.
    pub desc: Option<Boolean>,
    /// End ID for pagination.
    pub end_id: Option<String>,
    /// Filter by subject.
    pub subject: Option<String>,
    /// Filter by address ID.
    pub address_id: Option<String>,
}

/// Mathematical model of a [`MessageFilter`].
pub struct MessageFilterView {
    pub label_id: Option<Seq<char>>,
    pub page: Option<u32>,
    pub page_size: Option<u32>,
    pub desc: Option<Boolean>,
    pub end_id: Option<Seq<char>>,
    pub subject: Option<Seq<char>>,
    pub address_id: Option<Seq<char>>,
}

impl View for MessageFilter {
    type V = MessageFilterView;

    open spec fn view(&self) -> MessageFilterView {
        MessageFilterView {
            label_id: match &self.label_id {
                Option::Some(s) => Option::Some(s@),
                Option::None => Option::None,
            },
            page: self.page,
            page_size: self.page_size,
            desc: self.desc,
            end_id: match &self.end_id {
                Option::Some(s) => Option::Some(s@),
                Option::None => Option::None,
            },
            subject: match &self.subject {
                Option::Some(s) => Option::Some(s@),
                Option::None => Option::None,
            },
            address_id: match &self.address_id {
                Option::Some(s) => Option::Some(s@),
                Option::None => Option::None,
            },
        }
    }
}

impl MessageFilter {
    /// The empty filter: no restriction on any field.
    pub open spec fn spec_empty() -> MessageFilter {
        MessageFilter {
            label_id: Option::None,
            page: Option::None,
            page_size: Option::None,
            desc: Option::None,
            end_id: Option::None,
            subject: Option::None,
            address_id: Option::None,
        }
    }

    pub fn new() -> (r: Self)
        ensures
            r == MessageFilter::spec_empty(),
    {
        MessageFilter {
            label_id: Option::None,
            page: Option::None,
            page_size: Option::None,
            desc: Option::None,
            end_id: Option::None,
            subject: Option::None,
            address_id: Option::None,
        }
    }

    pub fn with_label(self, label_id: String) -> (r: Self)
        ensures
            r == (MessageFilter { label_id: Option::Some(label_id), ..self }),
    {
        MessageFilter { label_id: Option::Some(label_id), ..self }
    }

    pub fn with_page(self, page: u32) -> (r: Self)
        ensures
            r == (MessageFilter { page: Option::Some(page), ..self }),
    {
        MessageFilter { page: Option::Some(page), ..self }
    }

    /// Set the page size; values above the API maximum of 150 are capped.
    pub fn with_page_size(self, size: u32) -> (r: Self)
        ensures
            r == (MessageFilter {
                page_size: Option::Some(if size > 150 { 150u32 } else { size }),
                ..self
            }),
    {
        let capped: u32 = if size > 150 { 150 } else { size };
        MessageFilter { page_size: Option::Some(capped), ..self }
    }

    pub fn descending(self) -> (r: Self)
        ensures
            r == (MessageFilter { desc: Option::Some(Boolean::True), ..self }),
    {
        MessageFilter { desc: Option::Some(Boolean::True), ..self }
    }
}

impl Default for MessageFilter {
    fn default() -> (r: Self)
        ensures
            r == MessageFilter::spec_empty(),
    {
        MessageFilter::new()
    }
}

/// Draft message for creation.
#[derive(Debug)]
pub struct DraftMessage {
    /// Subject line.
    pub subject: String,
    /// Sender address.
    pub sender: MessageAddress,
    /// Primary recipients (To:).
    pub to_list: Vec<MessageAddress>,
    /// Carbon copy recipients (CC:).
    pub cc_list: Vec<MessageAddress>,
    /// Blind carbon copy recipients (BCC:).
    pub bcc_list: Vec<MessageAddress>,
    /// Message body (encrypted for sending).
    pub body: String,
    /// MIME type of the body.
    pub mime_type: String,
}

/// Mathematical model of a [`DraftMessage`].
pub struct DraftMessageView {
    pub subject: Seq<char>,
    pub sender: MessageAddressView,
    pub to_list: Seq<MessageAddressView>,
    pub cc_list: Seq<MessageAddressView>,
    pub bcc_list: Seq<MessageAddressView>,
    pub body: Seq<char>,
    pub mime_type: Seq<char>,
}

impl View for DraftMessage {
    type V = DraftMessageView;

    open spec fn view(&self) -> DraftMessageView {
        DraftMessageView {
            subject: self.subject@,
            sender: self.sender@,
            to_list: self.to_list@.map_values(|a: MessageAddress| a@),
            cc_list: self.cc_list@.map_values(|a: MessageAddress| a@),
            bcc_list: self.bcc_list@.map_values(|a: MessageAddress| a@),
            body: self.body@,
            mime_type: self.mime_type@,
        }
    }
}

impl Clone for DraftMessage {
    fn clone(&self) -> (r: Self)
        ensures
            r@ == self@,
    {
        DraftMessage {
            subject: self.subject.clone(),
            sender: self.sender.clone(),
            to_list: clone_addresses(&self.to_list),
            cc_list: clone_addresses(&self.cc_list),
            bcc_list: clone_addresses(&self.bcc_list),
            body: self.body.clone(),
            mime_type: self.mime_type.clone(),
        }
    }
}

impl DraftMessage {
    /// Create a new draft message. CC and BCC start empty; the MIME type
    /// is `text/html` or `text/plain` according to `is_html`.
    pub fn new(
        subject: String,
        sender: MessageAddress,
        to_list: Vec<MessageAddress>,
        body: String,
        is_html: bool,
    ) -> (r: Self)
        ensures
            r.subject@ == subject@,
            r.sender == sender,
            r.to_list@ == to_list@,
            r.cc_list@ == Seq::<MessageAddress>::empty(),
            r.bcc_list@ == Seq::<MessageAddress>::empty(),
            r.body@ == body@,
            is_html ==> r.mime_type@ == "text/html"@,
            !is_html ==> r.mime_type@ == "text/plain"@,
    {
        DraftMessage {
            subject,
            sender,
            to_list,
            cc_list: Vec::new(),
            bcc_list: Vec::new(),
            body,
            mime_type: if is_html {
                String::from_str("text/html")
            } else {
                String::from_str("text/plain")
            },
        }
    }

    /// Replace the CC recipients.
    pub fn with_cc(self, cc: Vec<MessageAddress>) -> (r: Self)
        ensures
            r == (DraftMessage { cc_list: cc, ..self }),
    {
        DraftMessage { cc_list: cc, ..self }
    }

    /// Replace the BCC recipients.
    pub fn with_bcc(self, bcc: Vec<MessageAddress>) -> (r: Self)
        ensures
            r == (DraftMessage { bcc_list: bcc, ..self }),
    {
        DraftMessage { bcc_list: bcc, ..self }
    }
}

/// Message package for sending: the encrypted message for one class of
/// recipients.
#[derive(Debug)]
pub struct MessagePackage {
    /// Per-recipient key packets, keyed by recipient email address.
    pub addresses: Vec<(String, MessagePackageAddress)>,
    /// Type of recipient (1 = internal, 2 = external).
    pub package_type: u8,
    /// Encrypted message body for this package type.
    pub body: String,
    /// MIME type of the body.
    pub mime_type: String,
}

/// Address-specific package data (key packets for a recipient).
#[derive(Debug)]
pub struct MessagePackageAddress {
    /// Encrypted body session key packet for this recipient.
    pub body_key_packet: String,
    /// Attachment key packets, keyed by attachment ID.
    pub attachment_key_packets: Vec<(String, String)>,
}

/// Mathematical model of a [`MessagePackageAddress`].
pub struct MessagePackageAddressView {
    pub body_key_packet: Seq<char>,
    pub attachment_key_packets: Seq<(Seq<char>, Seq<char>)>,
}

impl MessagePackageAddressView {
    /// The key packets act as a map keyed by attachment ID: the IDs are
    /// pairwise distinct.
    pub open spec fn wf(&self) -> bool {
        forall|i: int, j: int|
            0 <= i < j < self.attachment_key_packets.len()
                ==> #[trigger] self.attachment_key_packets[i].0
                != #[trigger] self.attachment_key_packets[j].0
    }
}

impl View for MessagePackageAddress {
    type V = MessagePackageAddressView;

    open spec fn view(&self) -> MessagePackageAddressView {
        MessagePackageAddressView {
            body_key_packet: self.body_key_packet@,
            attachment_key_packets: self.attachment_key_packets@.map_values(
                |p: (String, String)| (p.0@, p.1@),
            ),
        }
    }
}

/// Mathematical model of a [`MessagePackage`].
pub struct MessagePackageView {
    pub addresses: Seq<(Seq<char>, MessagePackageAddressView)>,
    pub package_type: u8,
    pub body: Seq<char>,
    pub mime_type: Seq<char>,
}

impl MessagePackageView {
    /// The address entries act as a map keyed by recipient email: the
    /// keys are pairwise distinct, and each entry's own key packets form
    /// a map too.
    pub open spec fn wf(&self) -> bool {
        &&& forall|i: int, j: int|
            0 <= i < j < self.addresses.len() ==> #[trigger] self.addresses[i].0
                != #[trigger] self.addresses[j].0
        &&& forall|i: int| 0 <= i < self.addresses.len() ==> (#[trigger] self.addresses[i].1).wf()
    }
}

impl View for MessagePackage {
    type V = MessagePackageView;

    open spec fn view(&self) -> MessagePackageView {
        MessagePackageView {
            addresses: self.addresses@.map_values(
                |p: (String, MessagePackageAddress)| (p.0@, p.1@),
            ),
            package_type: self.package_type,
            body: self.body@,
            mime_type: self.mime_type@,
        }
    }
}

impl Clone for MessagePackageAddress {
    fn clone(&self) -> (r: Self)
        ensures
            r@ == self@,
    {
        let r = MessagePackageAddress {
            body_key_packet: self.body_key_packet.clone(),
            attachment_key_packets: clone_string_pairs(&self.attachment_key_packets),
        };
        proof {
            assert(r@.attachment_key_packets =~= self@.attachment_key_packets);
        }
        r
    }
}

/// Copy a list of string pairs element by element.
fn clone_string_pairs(v: &Vec<(String, String)>) -> (r: Vec<(String, String)>)
    ensures
        r@ == v@,
{
    let mut out: Vec<(String, String)> = Vec::new();
    let mut i: usize = 0;
    while i < v.len()
        invariant
            i <= v.len(),
            out@ == v@.subrange(0, i as int),
        decreases v.len() - i,
    {
        let (a, b) = &v[i];
        out.push((a.clone(), b.clone()));
        i += 1;
        proof {
            assert(out@ =~= v@.subrange(0, i as int));
        }
    }
    proof {
        assert(out@ =~= v@);
    }
    out
}

impl Clone for MessagePackage {
    fn clone(&self) -> (r: Self)
        ensures
            r@ == self@,
    {
        let r = MessagePackage {
            addresses: clone_package_addresses(&self.addresses),
            package_type: self.package_type,
            body: self.body.clone(),
            mime_type: self.mime_type.clone(),
        };
        proof {
            assert(r@.addresses =~= self@.addresses);
        }
        r
    }
}

/// Copy a recipient-to-package list; the copy's model is the original's.
fn clone_package_addresses(v: &Vec<(String, MessagePackageAddress)>) -> (r: Vec<
    (String, MessagePackageAddress),
>)
    ensures
        r@.len() == v@.len(),
        forall|i: int|
            0 <= i < v@.len() ==> #[trigger] r@[i].0 == v@[i].0 && r@[i].1@ == v@[i].1@,
{
    let mut out: Vec<(String, MessagePackageAddress)> = Vec::new();
    let mut i: usize = 0;
    while i < v.len()
        invariant
            i <= v.len(),
            out@.len() == i,
            forall|j: int| 0 <= j < i ==> #[trigger] out@[j].0 == v@[j].0 && out@[j].1@ == v@[j].1@,
        decreases v.len() - i,
    {
        let (a, b) = &v[i];
        out.push((a.clone(), b.clone()));
        i += 1;
    }
    out
}

/// Copy a package list; each copy's model is the original's.
pub(crate) fn clone_packages(v: &[MessagePackage]) -> (r: Vec<MessagePackage>)
    ensures
        r@.map_values(|p: MessagePackage| p@) == v@.map_values(|p: MessagePackage| p@),
{
    let mut out: Vec<MessagePackage> = Vec::new();
    let mut i: usize = 0;
    while i < v.len()
        invariant
            i <= v.len(),
            out@.len() == i,
            forall|j: int| 0 <= j < i ==> #[trigger] out@[j]@ == v@[j]@,
        decreases v.len() - i,
    {
        out.push(v[i].clone());
        i += 1;
    }
    proof {
        assert(out@.map_values(|p: MessagePackage| p@) =~= v@.map_values(
            |p: MessagePackage| p@,
        ));
    }
    out
}

impl MessagePackageAddress {
    pub fn new(body_key_packet: String) -> (r: Self)
        ensures
            r.body_key_packet@ == body_key_packet@,
            r.attachment_key_packets@ == Seq::<(String, String)>::empty(),
            r@.wf(),
    {
        MessagePackageAddress { body_key_packet, attachment_key_packets: Vec::new() }
    }
}

} // verus!
