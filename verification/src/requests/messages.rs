//! Message API request builders: listing, fetching, flag and label
//! operations, attachment download, drafts and sending.

use vstd::prelude::*;
use crate::http::{
    spec_decimal, u32_to_string, Header, Method, RequestBody, RequestBodyView, RequestData,
};
use crate::message::{
    clone_message_ids, DraftMessage, FullMessage, MessageCount, MessageFilter, MessageFilterView,
    MessageId, MessageMetadata, MessagePackage,
};

verus! {

/// `q` with `part` appended: separated by `&` when `q` is non-empty.
pub open spec fn spec_join_part(q: Seq<char>, part: Seq<char>) -> Seq<char> {
    if q.len() == 0 {
        part
    } else {
        q + "&"@ + part
    }
}

/// The query string that a message listing filter produces: the present
/// fields in the fixed order label, page, page size, end ID, descending.
pub open spec fn spec_messages_query(f: MessageFilterView) -> Seq<char> {
    let q0 = Seq::<char>::empty();
    let q1 = match f.label_id {
        Option::Some(l) => spec_join_part(q0, "LabelID="@ + l),
        Option::None => q0,
    };
    let q2 = match f.page {
        Option::Some(p) => spec_join_part(q1, "Page="@ + spec_decimal(p as nat)),
        Option::None => q1,
    };
    let q3 = match f.page_size {
        Option::Some(p) => spec_join_part(q2, "PageSize="@ + spec_decimal(p as nat)),
        Option::None => q2,
    };
    let q4 = match f.end_id {
        Option::Some(e) => spec_join_part(q3, "EndID="@ + e),
        Option::None => q3,
    };
    match f.desc {
        Option::Some(_) => spec_join_part(q4, "Desc=1"@),
        Option::None => q4,
    }
}

/// The full listing path: the base route, plus `?` and the query when the
/// filter produces one.
pub open spec fn spec_messages_url(f: MessageFilterView) -> Seq<char> {
    if spec_messages_query(f).len() == 0 {
        "mail/v4/messages"@
    } else {
        "mail/v4/messages?"@ + spec_messages_query(f)
    }
}

/// Append `part` to a query string, inserting the `&` separator when the
/// query already has content.
fn push_part(query: String, part: &str) -> (r: String)
    ensures
        r@ == spec_join_part(query@, part@),
{
    if query.as_str().is_empty() {
        String::from_str(part)
    } else {
        let mut q = query;
        q.append("&");
        q.append(part);
        q
    }
}

/// Request to list messages with optional filtering.
///
/// Endpoint: GET mail/v4/messages
pub struct GetMessagesRequest {
    filter: MessageFilter,
}

/// Response to [`GetMessagesRequest`].
#[derive(Debug)]
pub struct GetMessagesResponse {
    pub messages: Vec<MessageMetadata>,
    pub total: u32,
}

impl GetMessagesRequest {
    /// The filter this listing was built from.
    pub closed spec fn spec_filter(&self) -> MessageFilterView {
        self.filter@
    }

    pub fn new(filter: MessageFilter) -> (r: Self)
        ensures
            r.spec_filter() == filter@,
    {
        GetMessagesRequest { filter }
    }

    /// Create a request listing the messages in one label/folder.
    pub fn for_label(label_id: String) -> (r: Self)
        ensures
            r.spec_filter() == (MessageFilterView {
                label_id: Option::Some(label_id@),
                page: Option::None,
                page_size: Option::None,
                desc: Option::None,
                end_id: Option::None,
                subject: Option::None,
                address_id: Option::None,
            }),
    {
        GetMessagesRequest::new(MessageFilter::new().with_label(label_id))
    }

    pub fn build(&self) -> (r: RequestData)
        ensures
            r.method == Method::Get,
            r.url@ == spec_messages_url(self.spec_filter()),
            r.headers@ == Seq::<Header>::empty(),
            r.body is None,
    {
        let mut query = String::new();
        if let Option::Some(label_id) = &self.filter.label_id {
            let mut part = String::from_str("LabelID=");
            part.append(label_id.as_str());
            query = push_part(query, part.as_str());
        }
        if let Option::Some(page) = &self.filter.page {
            let mut part = String::from_str("Page=");
            let digits = u32_to_string(*page);
            part.append(digits.as_str());
            query = push_part(query, part.as_str());
        }
        if let Option::Some(page_size) = &self.filter.page_size {
            let mut part = String::from_str("PageSize=");
            let digits = u32_to_string(*page_size);
            part.append(digits.as_str());
            query = push_part(query, part.as_str());
        }
        if let Option::Some(end_id) = &self.filter.end_id {
            let mut part = String::from_str("EndID=");
            part.append(end_id.as_str());
            query = push_part(query, part.as_str());
        }
        if self.filter.desc.is_some() {
            query = push_part(query, "Desc=1");
        }
        let url = if query.as_str().is_empty() {
            String::from_str("mail/v4/messages")
        } else {
            let mut u = String::from_str("mail/v4/messages?");
            u.append(query.as_str());
            u
        };
        RequestData::new(Method::Get, url)
    }
}

/// Request to get a single message by ID.
///
/// Endpoint: GET mail/v4/messages/{id}
pub struct GetMessageRequest {
    id: MessageId,
}

/// Response to [`GetMessageRequest`].
#[derive(Debug)]
pub struct GetMessageResponse {
    pub message: FullMessage,
}

impl GetMessageRequest {
    /// The requested message ID.
    pub closed spec fn spec_id(&self) -> Seq<char> {
        self.id@
    }

    pub fn new(id: &MessageId) -> (r: Self)
        ensures
            r.spec_id() == id@,
    {
        GetMessageRequest { id: id.clone() }
    }

    pub fn build(&self) -> (r: RequestData)
        ensures
            r.method == Method::Get,
            r.url@ == "mail/v4/messages/"@ + self.spec_id(),
            r.headers@ == Seq::<Header>::empty(),
            r.body is None,
    {
        let mut url = String::from_str("mail/v4/messages/");
        url.append(self.id.0.as_str());
        RequestData::new(Method::Get, url)
    }
}

/// Request to mark messages as read.
///
/// Endpoint: PUT mail/v4/messages/read
pub struct MarkMessagesReadRequest {
    ids: Vec<MessageId>,
}

impl MarkMessagesReadRequest {
    /// The IDs the request will submit.
    pub closed spec fn spec_ids(&self) -> Seq<Seq<char>> {
        self.ids@.map_values(|i: MessageId| i@)
    }

    pub fn new(ids: &[MessageId]) -> (r: Self)
        ensures
            r.spec_ids() == ids@.map_values(|i: MessageId| i@),
    {
        MarkMessagesReadRequest { ids: clone_message_ids(ids) }
    }

    pub fn build(&self) -> (r: RequestData)
        ensures
            r.method == Method::Put,
            r.url@ == "mail/v4/messages/read"@,
            r.headers@ == Seq::<Header>::empty(),
            r.body matches Option::Some(b) && b@ == (RequestBodyView::MarkRead {
                ids: self.spec_ids(),
            }),
    {
        RequestData::new(Method::Put, String::from_str("mail/v4/messages/read")).json(
            RequestBody::MarkRead { ids: clone_message_ids(self.ids.as_slice()) },
        )
    }
}

/// Request to mark messages as unread.
///
/// Endpoint: PUT mail/v4/messages/unread
pub struct MarkMessagesUnreadRequest {
    ids: Vec<MessageId>,
}

impl MarkMessagesUnreadRequest {
    /// The IDs the request will submit.
    pub closed spec fn spec_ids(&self) -> Seq<Seq<char>> {
        self.ids@.map_values(|i: MessageId| i@)
    }

    pub fn new(ids: &[MessageId]) -> (r: Self)
        ensures
            r.spec_ids() == ids@.map_values(|i: MessageId| i@),
    {
        MarkMessagesUnreadRequest { ids: clone_message_ids(ids) }
    }

    pub fn build(&self) -> (r: RequestData)
        ensures
            r.method == Method::Put,
            r.url@ == "mail/v4/messages/unread"@,
            r.headers@ == Seq::<Header>::empty(),
            r.body matches Option::Some(b) && b@ == (RequestBodyView::MarkUnread {
                ids: self.spec_ids(),
            }),
    {
        RequestData::new(Method::Put, String::from_str("mail/v4/messages/unread")).json(
            RequestBody::MarkUnread { ids: clone_message_ids(self.ids.as_slice()) },
        )
    }
}

/// Request to add a label to messages.
///
/// Endpoint: PUT mail/v4/messages/label
pub struct LabelMessagesRequest {
    label_id: String,
    ids: Vec<MessageId>,
}

/// Response for label/unlabel operations.
#[derive(Debug)]
pub struct LabelMessagesResponse {
    pub responses: Vec<LabelMessageResult>,
}

/// Result for one message in a label operation.
#[derive(Debug)]
pub struct LabelMessageResult {
    pub id: MessageId,
    pub response: LabelMessageStatus,
}

/// Status of one label operation.
#[derive(Debug)]
pub struct LabelMessageStatus {
    pub code: u32,
}

impl LabelMessagesRequest {
    /// The label the request will add.
    pub closed spec fn spec_label_id(&self) -> Seq<char> {
        self.label_id@
    }

    /// The IDs the request will submit.
    pub closed spec fn spec_ids(&self) -> Seq<Seq<char>> {
        self.ids@.map_values(|i: MessageId| i@)
    }

    pub fn new(label_id: &str, ids: &[MessageId]) -> (r: Self)
        ensures
            r.spec_label_id() == label_id@,
            r.spec_ids() == ids@.map_values(|i: MessageId| i@),
    {
        LabelMessagesRequest { label_id: String::from_str(label_id), ids: clone_message_ids(ids) }
    }

    pub fn build(&self) -> (r: RequestData)
        ensures
            r.method == Method::Put,
            r.url@ == "mail/v4/messages/label"@,
            r.headers@ == Seq::<Header>::empty(),
            r.body matches Option::Some(b) && b@ == (RequestBodyView::Label {
                label_id: self.spec_label_id(),
                ids: self.spec_ids(),
            }),
    {
        RequestData::new(Method::Put, String::from_str("mail/v4/messages/label")).json(
            RequestBody::Label {
                label_id: self.label_id.clone(),
                ids: clone_message_ids(self.ids.as_slice()),
            },
        )
    }
}

/// Request to remove a label from messages.
///
/// Endpoint: PUT mail/v4/messages/unlabel
pub struct UnlabelMessagesRequest {
    label_id: String,
    ids: Vec<MessageId>,
}

impl UnlabelMessagesRequest {
    /// The label the request will remove.
    pub closed spec fn spec_label_id(&self) -> Seq<char> {
        self.label_id@
    }

    /// The IDs the request will submit.
    pub closed spec fn spec_ids(&self) -> Seq<Seq<char>> {
        self.ids@.map_values(|i: MessageId| i@)
    }

    pub fn new(label_id: &str, ids: &[MessageId]) -> (r: Self)
        ensures
            r.spec_label_id() == label_id@,
            r.spec_ids() == ids@.map_values(|i: MessageId| i@),
    {
        UnlabelMessagesRequest { label_id: String::from_str(label_id), ids: clone_message_ids(ids) }
    }

    pub fn build(&self) -> (r: RequestData)
        ensures
            r.method == Method::Put,
            r.url@ == "mail/v4/messages/unlabel"@,
            r.headers@ == Seq::<Header>::empty(),
            r.body matches Option::Some(b) && b@ == (RequestBodyView::Unlabel {
                label_id: self.spec_label_id(),
                ids: self.spec_ids(),
            }),
    {
        RequestData::new(Method::Put, String::from_str("mail/v4/messages/unlabel")).json(
            RequestBody::Unlabel {
                label_id: self.label_id.clone(),
                ids: clone_message_ids(self.ids.as_slice()),
            },
        )
    }
}

/// Request to permanently delete messages.
///
/// Endpoint: PUT mail/v4/messages/delete
pub struct DeleteMessagesRequest {
    ids: Vec<MessageId>,
}

impl DeleteMessagesRequest {
    /// The IDs the request will submit.
    pub closed spec fn spec_ids(&self) -> Seq<Seq<char>> {
        self.ids@.map_values(|i: MessageId| i@)
    }

    pub fn new(ids: &[MessageId]) -> (r: Self)
        ensures
            r.spec_ids() == ids@.map_values(|i: MessageId| i@),
    {
        DeleteMessagesRequest { ids: clone_message_ids(ids) }
    }

    pub fn build(&self) -> (r: RequestData)
        ensures
            r.method == Method::Put,
            r.url@ == "mail/v4/messages/delete"@,
            r.headers@ == Seq::<Header>::empty(),
            r.body matches Option::Some(b) && b@ == (RequestBodyView::Delete {
                ids: self.spec_ids(),
            }),
    {
        RequestData::new(Method::Put, String::from_str("mail/v4/messages/delete")).json(
            RequestBody::Delete { ids: clone_message_ids(self.ids.as_slice()) },
        )
    }
}

/// Request to get message counts per label.
///
/// Endpoint: GET mail/v4/messages/count
pub struct GetMessageCountsRequest;

/// Response to [`GetMessageCountsRequest`].
#[derive(Debug)]
pub struct GetMessageCountsResponse {
    pub counts: Vec<MessageCount>,
}

impl GetMessageCountsRequest {
    pub fn build(&self) -> (r: RequestData)
        ensures
            r.method == Method::Get,
            r.url@ == "mail/v4/messages/count"@,
            r.headers@ == Seq::<Header>::empty(),
            r.body is None,
    {
        RequestData::new(Method::Get, String::from_str("mail/v4/messages/count"))
    }
}

/// Request to download an attachment by ID. The response is the raw
/// encrypted attachment data.
///
/// Endpoint: GET mail/v4/attachments/{id}
pub struct GetAttachmentRequest {
    attachment_id: String,
}

impl GetAttachmentRequest {
    /// The requested attachment ID.
    pub closed spec fn spec_attachment_id(&self) -> Seq<char> {
        self.attachment_id@
    }

    pub fn new(attachment_id: &str) -> (r: Self)
        ensures
            r.spec_attachment_id() == attachment_id@,
    {
        GetAttachmentRequest { attachment_id: String::from_str(attachment_id) }
    }

    pub fn build(&self) -> (r: RequestData)
        ensures
            r.method == Method::Get,
            r.url@ == "mail/v4/attachments/"@ + self.spec_attachment_id(),
            r.headers@ == Seq::<Header>::empty(),
            r.body is None,
    {
        let mut url = String::from_str("mail/v4/attachments/");
        url.append(self.attachment_id.as_str());
        RequestData::new(Method::Get, url)
    }
}

/// Request to create a draft message.
///
/// Endpoint: POST mail/v4/messages
pub struct CreateDraftRequest {
    draft: DraftMessage,
}

/// Response to [`CreateDraftRequest`].
#[derive(Debug)]
pub struct CreateDraftResponse {
    pub message: FullMessage,
}

impl CreateDraftRequest {
    /// The draft the request will submit.
    pub closed spec fn spec_draft(&self) -> crate::message::DraftMessageView {
        self.draft@
    }

    pub fn new(draft: &DraftMessage) -> (r: Self)
        ensures
            r.spec_draft() == draft@,
    {
        CreateDraftRequest { draft: draft.clone() }
    }

    pub fn build(&self) -> (r: RequestData)
        ensures
            r.method == Method::Post,
            r.url@ == "mail/v4/messages"@,
            r.headers@ == Seq::<Header>::empty(),
            r.body matches Option::Some(b) && b@ == (RequestBodyView::CreateDraft {
                message: self.spec_draft(),
            }),
    {
        RequestData::new(Method::Post, String::from_str("mail/v4/messages")).json(
            RequestBody::CreateDraft { message: self.draft.clone() },
        )
    }
}

/// Request to update an existing draft message.
///
/// Endpoint: PUT mail/v4/messages/{id}
pub struct UpdateDraftRequest {
    id: MessageId,
    draft: DraftMessage,
}

/// Response to [`UpdateDraftRequest`].
#[derive(Debug)]
pub struct UpdateDraftResponse {
    pub message: FullMessage,
}

impl UpdateDraftRequest {
    /// The draft's message ID.
    pub closed spec fn spec_id(&self) -> Seq<char> {
        self.id@
    }

    /// The replacement content the request will submit.
    pub closed spec fn spec_draft(&self) -> crate::message::DraftMessageView {
        self.draft@
    }

    pub fn new(id: &MessageId, draft: &DraftMessage) -> (r: Self)
        ensures
            r.spec_id() == id@,
            r.spec_draft() == draft@,
    {
        UpdateDraftRequest { id: id.clone(), draft: draft.clone() }
    }

    pub fn build(&self) -> (r: RequestData)
        ensures
            r.method == Method::Put,
            r.url@ == "mail/v4/messages/"@ + self.spec_id(),
            r.headers@ == Seq::<Header>::empty(),
            r.body matches Option::Some(b) && b@ == (RequestBodyView::UpdateDraft {
                message: self.spec_draft(),
            }),
    {
        let mut url = String::from_str("mail/v4/messages/");
        url.append(self.id.0.as_str());
        RequestData::new(Method::Put, url).json(
            RequestBody::UpdateDraft { message: self.draft.clone() },
        )
    }
}

/// Request to send a previously created draft.
///
/// Endpoint: POST mail/v4/messages/{id}
pub struct SendMessageRequest {
    id: MessageId,
    packages: Vec<MessagePackage>,
}

/// Response to [`SendMessageRequest`].
#[derive(Debug)]
pub struct SendMessageResponse {
    pub sent: SentMessage,
}

/// The sent message's identity in a [`SendMessageResponse`].
#[derive(Debug)]
pub struct SentMessage {
    pub id: MessageId,
}

impl SendMessageRequest {
    /// The draft's message ID.
    pub closed spec fn spec_id(&self) -> Seq<char> {
        self.id@
    }

    /// The encrypted packages the request will submit.
    pub closed spec fn spec_packages(&self) -> Seq<crate::message::MessagePackageView> {
        self.packages@.map_values(|p: MessagePackage| p@)
    }

    pub fn new(id: &MessageId, packages: &[MessagePackage]) -> (r: Self)
        ensures
            r.spec_id() == id@,
            r.spec_packages() == packages@.map_values(|p: MessagePackage| p@),
    {
        SendMessageRequest { id: id.clone(), packages: crate::message::clone_packages(packages) }
    }

    pub fn build(&self) -> (r: RequestData)
        ensures
            r.method == Method::Post,
            r.url@ == "mail/v4/messages/"@ + self.spec_id(),
            r.headers@ == Seq::<Header>::empty(),
            r.body matches Option::Some(b) && b@ == (RequestBodyView::SendPackages {
                packages: self.spec_packages(),
            }),
    {
        let mut url = String::from_str("mail/v4/messages/");
        url.append(self.id.0.as_str());
        RequestData::new(Method::Post, url).json(
            RequestBody::SendPackages {
                packages: crate::message::clone_packages(self.packages.as_slice()),
            },
        )
    }
}

} // verus!
