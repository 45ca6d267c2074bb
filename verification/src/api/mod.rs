pub mod conversations;
pub mod rtm;
pub mod util;

use crate::model::{Me, Team};
use vstd::prelude::*;

verus! {

/// The Web API method that hands out the real-time socket's address.
pub const RTM_CONNECT_URL: &'static str = "https://slack.com/api/rtm.connect";

/// The Web API method that lists a workspace's conversations.
pub const CONVERSATIONS_LIST_URL: &'static str = "https://slack.com/api/conversations.list";

/// The query of an `rtm.connect` request: it asks to be told of
/// multi-party direct conversations.
pub open spec fn connect_query_spec() -> Seq<(Seq<char>, Seq<char>)> {
    seq![("mpim_aware"@, "1"@)]
}

/// The query parameters of an `rtm.connect` request.
pub fn connect_query() -> (query: Vec<(String, String)>)
    ensures
        query@.map_values(|p: (String, String)| (p.0@, p.1@)) == connect_query_spec(),
{
    let mut query: Vec<(String, String)> = Vec::new();
    query.push((String::from_str("mpim_aware"), String::from_str("1")));
    assert(query@.map_values(|p: (String, String)| (p.0@, p.1@)) =~= connect_query_spec());
    query
}

/// The answer to `rtm.connect` (the same fields as `rtm::ConnectResponse`).
pub struct RtmConnectResponse {
    pub ok: bool,
    pub url: Option<String>,
    pub team: Option<Team>,
    pub me: Option<Me>,
    pub error: Option<String>,
}

/// Which kinds of conversation a `conversations.list` call asks for.
#[derive(Clone, Copy, Debug, PartialEq, Eq, Structural)]
pub enum ConversationsListTypes {
    All,
    Private,
    Public,
    Im,
    Mpim,
}

/// The `types` parameter of `conversations.list` for a kind of conversation.
pub open spec fn conversations_types_param(types: ConversationsListTypes) -> Seq<char> {
    match types {
        ConversationsListTypes::All => "public_channel,private_channel,im,mpim"@,
        ConversationsListTypes::Private => "private_channel"@,
        ConversationsListTypes::Public => "public_channel"@,
        ConversationsListTypes::Im => "im"@,
        ConversationsListTypes::Mpim => "mpim"@,
    }
}

impl ConversationsListTypes {
    /// The `types` parameter that asks for this kind of conversation.
    pub fn types_param(&self) -> (param: &'static str)
        ensures
            param@ == conversations_types_param(*self),
    {
        match self {
            ConversationsListTypes::All => "public_channel,private_channel,im,mpim",
            ConversationsListTypes::Private => "private_channel",
            ConversationsListTypes::Public => "public_channel",
            ConversationsListTypes::Im => "im",
            ConversationsListTypes::Mpim => "mpim",
        }
    }
}

/// The `types` values name the kinds of conversation as Slack does:
/// `public_channel`, `private_channel`, `im` and `mpim`, and asking for all
/// kinds lists those four, comma-separated, in that order. So no two kinds
/// share a value.
pub proof fn lemma_conversations_types_params()
    ensures
        conversations_types_param(ConversationsListTypes::Public) == "public_channel"@,
        conversations_types_param(ConversationsListTypes::Private) == "private_channel"@,
        conversations_types_param(ConversationsListTypes::Im) == "im"@,
        conversations_types_param(ConversationsListTypes::Mpim) == "mpim"@,
        conversations_types_param(ConversationsListTypes::All)
            == conversations_types_param(ConversationsListTypes::Public) + ","@
            + conversations_types_param(ConversationsListTypes::Private) + ","@
            + conversations_types_param(ConversationsListTypes::Im) + ","@
            + conversations_types_param(ConversationsListTypes::Mpim),
        forall|a: ConversationsListTypes, b: ConversationsListTypes|
            a != b ==> conversations_types_param(a) != conversations_types_param(b),
{
    reveal_strlit("public_channel,private_channel,im,mpim");
    reveal_strlit("public_channel");
    reveal_strlit("private_channel");
    reveal_strlit("im");
    reveal_strlit("mpim");
    reveal_strlit(",");
    assert(conversations_types_param(ConversationsListTypes::All)
        =~= conversations_types_param(ConversationsListTypes::Public) + ","@
        + conversations_types_param(ConversationsListTypes::Private) + ","@
        + conversations_types_param(ConversationsListTypes::Im) + ","@
        + conversations_types_param(ConversationsListTypes::Mpim));
    assert forall|a: ConversationsListTypes, b: ConversationsListTypes|
        a != b implies conversations_types_param(a) != conversations_types_param(b) by {
        assert(conversations_types_param(a).len() != conversations_types_param(b).len());
    }
}

/// An `rtm.connect` query has one parameter, `mpim_aware`, set to `1`:
/// the answer is to cover multi-party direct conversations too.
pub proof fn lemma_connect_query()
    ensures
        connect_query_spec().len() == 1,
        connect_query_spec()[0].0 == seq!['m', 'p', 'i', 'm', '_', 'a', 'w', 'a', 'r', 'e'],
        connect_query_spec()[0].1 == seq!['1'],
{
    reveal_strlit("mpim_aware");
    reveal_strlit("1");
    assert(connect_query_spec()[0].0 =~= seq!['m', 'p', 'i', 'm', '_', 'a', 'w', 'a', 'r', 'e']);
    assert(connect_query_spec()[0].1 =~= seq!['1']);
}

} // verus!
