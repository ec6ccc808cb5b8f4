use mailauth::http::{Method, RequestBody};
use mailauth::message::{
    DraftMessage, MessageAddress, MessageFilter, MessageId, MessagePackage, MessagePackageAddress,
};
use mailauth::requests::messages::{
    CreateDraftRequest, DeleteMessagesRequest, GetAttachmentRequest, GetMessageCountsRequest,
    GetMessageRequest, GetMessagesRequest, LabelMessagesRequest, MarkMessagesReadRequest,
    MarkMessagesUnreadRequest, SendMessageRequest, UnlabelMessagesRequest, UpdateDraftRequest,
};

fn ids(names: &[&str]) -> Vec<MessageId> {
    names.iter().map(|n| MessageId(n.to_string())).collect()
}

#[test]
fn get_messages_without_filter_has_bare_path() {
    let data = GetMessagesRequest::new(MessageFilter::new()).build();
    assert_eq!(data.url, "mail/v4/messages");
    assert!(matches!(data.method, Method::Get));
    assert!(data.body.is_none());
}

#[test]
fn get_messages_filter_parts_join_in_fixed_order() {
    let filter = MessageFilter::new()
        .with_label("label-7".to_string())
        .with_page(2)
        .with_page_size(50)
        .descending();
    let data = GetMessagesRequest::new(filter).build();
    assert_eq!(data.url, "mail/v4/messages?LabelID=label-7&Page=2&PageSize=50&Desc=1");
}

#[test]
fn get_messages_single_part_has_no_separator() {
    let data = GetMessagesRequest::new(MessageFilter::new().with_page(0)).build();
    assert_eq!(data.url, "mail/v4/messages?Page=0");
}

#[test]
fn get_messages_for_label_filters_by_label_only() {
    let data = GetMessagesRequest::for_label("folder-3".to_string()).build();
    assert_eq!(data.url, "mail/v4/messages?LabelID=folder-3");
}

#[test]
fn page_size_is_capped_at_the_api_maximum() {
    let data = GetMessagesRequest::new(MessageFilter::new().with_page_size(9999)).build();
    assert_eq!(data.url, "mail/v4/messages?PageSize=150");
}

#[test]
fn get_message_appends_the_id() {
    let id = MessageId("msg-1".to_string());
    let data = GetMessageRequest::new(&id).build();
    assert_eq!(data.url, "mail/v4/messages/msg-1");
    assert!(matches!(data.method, Method::Get));
}

#[test]
fn mark_read_submits_the_ids() {
    let ids = ids(&["a", "b"]);
    let data = MarkMessagesReadRequest::new(&ids).build();
    assert_eq!(data.url, "mail/v4/messages/read");
    assert!(matches!(data.method, Method::Put));
    match data.body.expect("body") {
        RequestBody::MarkRead { ids } => {
            assert_eq!(ids.len(), 2);
            assert_eq!(ids[0].0, "a");
            assert_eq!(ids[1].0, "b");
        }
        _ => panic!("wrong body shape"),
    }
}

#[test]
fn mark_unread_submits_the_ids() {
    let ids = ids(&["x"]);
    let data = MarkMessagesUnreadRequest::new(&ids).build();
    assert_eq!(data.url, "mail/v4/messages/unread");
    match data.body.expect("body") {
        RequestBody::MarkUnread { ids } => assert_eq!(ids[0].0, "x"),
        _ => panic!("wrong body shape"),
    }
}

#[test]
fn label_and_unlabel_submit_label_and_ids() {
    let the_ids = ids(&["m1", "m2"]);
    let data = LabelMessagesRequest::new("lbl", &the_ids).build();
    assert_eq!(data.url, "mail/v4/messages/label");
    match data.body.expect("body") {
        RequestBody::Label { label_id, ids } => {
            assert_eq!(label_id, "lbl");
            assert_eq!(ids.len(), 2);
        }
        _ => panic!("wrong body shape"),
    }

    let data = UnlabelMessagesRequest::new("lbl", &the_ids).build();
    assert_eq!(data.url, "mail/v4/messages/unlabel");
    match data.body.expect("body") {
        RequestBody::Unlabel { label_id, ids } => {
            assert_eq!(label_id, "lbl");
            assert_eq!(ids[1].0, "m2");
        }
        _ => panic!("wrong body shape"),
    }
}

#[test]
fn delete_submits_the_ids() {
    let the_ids = ids(&["gone"]);
    let data = DeleteMessagesRequest::new(&the_ids).build();
    assert_eq!(data.url, "mail/v4/messages/delete");
    match data.body.expect("body") {
        RequestBody::Delete { ids } => assert_eq!(ids[0].0, "gone"),
        _ => panic!("wrong body shape"),
    }
}

#[test]
fn counts_and_attachment_urls() {
    let data = GetMessageCountsRequest.build();
    assert_eq!(data.url, "mail/v4/messages/count");

    let data = GetAttachmentRequest::new("att-9").build();
    assert_eq!(data.url, "mail/v4/attachments/att-9");
    assert!(data.body.is_none());
}

fn sample_draft() -> DraftMessage {
    DraftMessage::new(
        "Hello".to_string(),
        MessageAddress::new("Alice".to_string(), "alice@example.com".to_string()),
        vec![MessageAddress::new("Bob".to_string(), "bob@example.com".to_string())],
        "body text".to_string(),
        false,
    )
}

#[test]
fn create_draft_posts_the_draft() {
    let draft = sample_draft();
    let data = CreateDraftRequest::new(&draft).build();
    assert_eq!(data.url, "mail/v4/messages");
    assert!(matches!(data.method, Method::Post));
    match data.body.expect("body") {
        RequestBody::CreateDraft { message } => {
            assert_eq!(message.subject, "Hello");
            assert_eq!(message.mime_type, "text/plain");
            assert_eq!(message.to_list[0].address, "bob@example.com");
        }
        _ => panic!("wrong body shape"),
    }
}

#[test]
fn update_draft_puts_to_the_message_url() {
    let draft = sample_draft();
    let id = MessageId("draft-5".to_string());
    let data = UpdateDraftRequest::new(&id, &draft).build();
    assert_eq!(data.url, "mail/v4/messages/draft-5");
    assert!(matches!(data.method, Method::Put));
    match data.body.expect("body") {
        RequestBody::UpdateDraft { message } => assert_eq!(message.body, "body text"),
        _ => panic!("wrong body shape"),
    }
}

#[test]
fn send_message_posts_the_packages() {
    let id = MessageId("draft-5".to_string());
    let packages = vec![MessagePackage {
        addresses: vec![(
            "bob@example.com".to_string(),
            MessagePackageAddress::new("packet".to_string()),
        )],
        package_type: 1,
        body: "encrypted".to_string(),
        mime_type: "text/plain".to_string(),
    }];
    let data = SendMessageRequest::new(&id, &packages).build();
    assert_eq!(data.url, "mail/v4/messages/draft-5");
    assert!(matches!(data.method, Method::Post));
    match data.body.expect("body") {
        RequestBody::SendPackages { packages } => {
            assert_eq!(packages.len(), 1);
            assert_eq!(packages[0].addresses[0].0, "bob@example.com");
            assert_eq!(packages[0].addresses[0].1.body_key_packet, "packet");
        }
        _ => panic!("wrong body shape"),
    }
}
