use slack_rs::api::conversations::{hello_list_requests, list_query, ListResponse, ListType};
use slack_rs::api::util::bearer_authorization;
use slack_rs::api::{connect_query, ConversationsListTypes, CONVERSATIONS_LIST_URL, RTM_CONNECT_URL};

fn pairs(query: &[(String, String)]) -> Vec<(&str, &str)> {
    query.iter().map(|(k, v)| (k.as_str(), v.as_str())).collect()
}

#[test]
fn empty_list_response() {
    let r = ListResponse::<u64>::empty();
    assert!(r.ok);
    assert!(r.channels.is_empty());
    assert_eq!(r.response_metadata.next_cursor, "");
}

#[test]
fn list_types_params() {
    assert_eq!(ListType::All.types_param(), "public_channel,private_channel,im,mpim");
    assert_eq!(ListType::Private.types_param(), "private_channel");
    assert_eq!(ListType::Public.types_param(), "public_channel");
    assert_eq!(ListType::Im.types_param(), "im");
    assert_eq!(ListType::Mpim.types_param(), "mpim");
}

#[test]
fn conversations_list_types_params() {
    assert_eq!(
        ConversationsListTypes::All.types_param(),
        "public_channel,private_channel,im,mpim"
    );
    assert_eq!(ConversationsListTypes::Private.types_param(), "private_channel");
    assert_eq!(ConversationsListTypes::Public.types_param(), "public_channel");
    assert_eq!(ConversationsListTypes::Im.types_param(), "im");
    assert_eq!(ConversationsListTypes::Mpim.types_param(), "mpim");
}

#[test]
fn list_query_without_cursor() {
    let q = list_query(ListType::Public, None);
    assert_eq!(
        pairs(&q),
        vec![("types", "public_channel"), ("limit", "10"), ("cursor", "")]
    );
}

#[test]
fn list_query_with_cursor() {
    let q = list_query(ListType::All, Some("dXNlcjpVMDYxTkZUVDI="));
    assert_eq!(
        pairs(&q),
        vec![
            ("types", "public_channel,private_channel,im,mpim"),
            ("limit", "10"),
            ("cursor", "dXNlcjpVMDYxTkZUVDI="),
        ]
    );
}

#[test]
fn bearer_header_value() {
    assert_eq!(bearer_authorization("xoxp-1234"), "Bearer xoxp-1234");
    assert_eq!(bearer_authorization(""), "Bearer ");
}

#[test]
fn connect_query_asks_for_mpims() {
    assert_eq!(pairs(&connect_query()), vec![("mpim_aware", "1")]);
}

#[test]
fn method_urls() {
    assert_eq!(RTM_CONNECT_URL, "https://slack.com/api/rtm.connect");
    assert_eq!(CONVERSATIONS_LIST_URL, "https://slack.com/api/conversations.list");
}

#[test]
fn hello_asks_for_four_first_pages() {
    let requests = hello_list_requests();
    let kinds: Vec<ListType> = requests.iter().map(|(k, _)| *k).collect();
    assert_eq!(kinds, vec![ListType::Public, ListType::Private, ListType::Im, ListType::Mpim]);
    assert!(requests.iter().all(|(_, cursor)| cursor.is_empty()));
}
