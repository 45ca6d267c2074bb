use crate::api::util::ResponseMetadata;
use vstd::prelude::*;

verus! {

/// Which kinds of conversation a `conversations.list` call asks for.
#[derive(Clone, Copy, Debug, PartialEq, Eq, Structural)]
pub enum ListType {
    All,
    Private,
    Public,
    Im,
    Mpim,
}

/// The `types` parameter of `conversations.list` for a kind of conversation.
pub open spec fn list_types_param(types: ListType) -> Seq<char> {
    match types {
        ListType::All => "public_channel,private_channel,im,mpim"@,
        ListType::Private => "private_channel"@,
        ListType::Public => "public_channel"@,
        ListType::Im => "im"@,
        ListType::Mpim => "mpim"@,
    }
}

impl ListType {
    /// The `types` parameter that asks for this kind of conversation.
    pub fn types_param(&self) -> (param: &'static str)
        ensures
            param@ == list_types_param(*self),
    {
        match self {
            ListType::All => "public_channel,private_channel,im,mpim",
            ListType::Private => "private_channel",
            ListType::Public => "public_channel",
            ListType::Im => "im",
            ListType::Mpim => "mpim",
        }
    }
}

/// One page of a `conversations.list` answer.
pub struct ListResponse<T> {
    pub ok: bool,
    pub channels: Vec<T>,
    pub response_metadata: ResponseMetadata,
}

impl<T> ListResponse<T> {
    /// A successful answer with no conversation and no next page.
    pub fn empty() -> (response: ListResponse<T>)
        ensures
            response.ok,
            response.channels@ == Seq::<T>::empty(),
            response.response_metadata.next_cursor@ == Seq::<char>::empty(),
    {
        ListResponse {
            ok: true,
            channels: Vec::new(),
            response_metadata: ResponseMetadata { next_cursor: String::new() },
        }
    }
}

/// The query of a `conversations.list` request: the kinds asked for, a page
/// limit of ten, and the cursor to start from (empty for the first page).
pub open spec fn list_query_spec(types: ListType, cursor: Option<Seq<char>>) -> Seq<
    (Seq<char>, Seq<char>),
> {
    seq![
        ("types"@, list_types_param(types)),
        ("limit"@, "10"@),
        (
            "cursor"@,
            match cursor {
                Some(c) => c,
                None => Seq::<char>::empty(),
            },
        ),
    ]
}

/// The query parameters, in order, of a `conversations.list` request for
/// `types`, starting at `cursor`.
pub fn list_query(types: ListType, cursor: Option<&str>) -> (query: Vec<(String, String)>)
    ensures
        query@.map_values(|p: (String, String)| (p.0@, p.1@)) == list_query_spec(
            types,
            match cursor {
                Some(c) => Some(c@),
                None => None,
            },
        ),
{
    let cursor_value = match cursor {
        Some(s) => String::from_str(s),
        None => String::new(),
    };
    let mut query: Vec<(String, String)> = Vec::new();
    query.push((String::from_str("types"), String::from_str(types.types_param())));
    query.push((String::from_str("limit"), String::from_str("10")));
    query.push((String::from_str("cursor"), cursor_value));
    assert(query@.map_values(|p: (String, String)| (p.0@, p.1@)) =~= list_query_spec(
        types,
        match cursor {
            Some(c) => Some(c@),
            None => None,
        },
    ));
    query
}

/// The `conversations.list` requests that answer a real-time `hello`, in
/// order: public channels, private channels, direct conversations and
/// multi-party direct conversations (the order in which
/// `Workspace::apply_conversation_lists` takes their answers), each from
/// the first page (an empty cursor).
pub open spec fn hello_list_requests_spec() -> Seq<(ListType, Seq<char>)> {
    seq![
        (ListType::Public, Seq::<char>::empty()),
        (ListType::Private, Seq::<char>::empty()),
        (ListType::Im, Seq::<char>::empty()),
        (ListType::Mpim, Seq::<char>::empty()),
    ]
}

/// The kinds of conversation, each with the cursor to start from, that a
/// `hello` asks to list.
pub fn hello_list_requests() -> (requests: Vec<(ListType, String)>)
    ensures
        requests@.map_values(|r: (ListType, String)| (r.0, r.1@)) == hello_list_requests_spec(),
{
    let mut requests: Vec<(ListType, String)> = Vec::new();
    requests.push((ListType::Public, String::new()));
    requests.push((ListType::Private, String::new()));
    requests.push((ListType::Im, String::new()));
    requests.push((ListType::Mpim, String::new()));
    assert(requests@.map_values(|r: (ListType, String)| (r.0, r.1@)) =~= hello_list_requests_spec());
    requests
}

/// The `types` values name the kinds of conversation as Slack does:
/// `public_channel`, `private_channel`, `im` and `mpim`, and asking for all
/// kinds lists those four, comma-separated, in that order. So no two kinds
/// share a value.
pub proof fn lemma_list_types_params()
    ensures
        list_types_param(ListType::Public) == "public_channel"@,
        list_types_param(ListType::Private) == "private_channel"@,
        list_types_param(ListType::Im) == "im"@,
        list_types_param(ListType::Mpim) == "mpim"@,
        list_types_param(ListType::All) == list_types_param(ListType::Public) + ","@
            + list_types_param(ListType::Private) + ","@ + list_types_param(ListType::Im) + ","@
            + list_types_param(ListType::Mpim),
        forall|a: ListType, b: ListType| a != b ==> list_types_param(a) != list_types_param(b),
{
    reveal_strlit("public_channel,private_channel,im,mpim");
    reveal_strlit("public_channel");
    reveal_strlit("private_channel");
    reveal_strlit("im");
    reveal_strlit("mpim");
    reveal_strlit(",");
    assert(list_types_param(ListType::All) =~= list_types_param(ListType::Public) + ","@
        + list_types_param(ListType::Private) + ","@ + list_types_param(ListType::Im) + ","@
        + list_types_param(ListType::Mpim));
    assert forall|a: ListType, b: ListType| a != b implies list_types_param(a) != list_types_param(b) by {
        assert(list_types_param(a).len() != list_types_param(b).len());
    }
}

/// A `conversations.list` query has three parameters, in order: `types`,
/// the value for the kind asked for; `limit`, ten; and `cursor`, the cursor
/// given (empty when none is). Queries for different kinds differ, and
/// queries for the same kind differ only in their cursor.
pub proof fn lemma_list_query(types: ListType, cursor: Option<Seq<char>>, other: ListType, other_cursor: Option<Seq<char>>)
    ensures
        list_query_spec(types, cursor).len() == 3,
        list_query_spec(types, cursor)[0] == ("types"@, list_types_param(types)),
        list_query_spec(types, cursor)[1] == ("limit"@, "10"@),
        list_query_spec(types, cursor)[2] == ("cursor"@, match cursor {
            Some(c) => c,
            None => Seq::<char>::empty(),
        }),
        other != types ==> list_query_spec(other, other_cursor) != list_query_spec(types, cursor),
        list_query_spec(types, other_cursor).subrange(0, 2) == list_query_spec(types, cursor).subrange(0, 2),
{
    lemma_list_types_params();
    if other != types {
        assert(list_query_spec(other, other_cursor)[0] != list_query_spec(types, cursor)[0]);
    }
    assert(list_query_spec(types, other_cursor).subrange(0, 2) =~= list_query_spec(types, cursor).subrange(0, 2));
}

/// A `hello` asks for each kind of conversation but "all" exactly once,
/// public channels first, then private channels, direct and multi-party
/// direct conversations, each from its first page.
pub proof fn lemma_hello_list_requests()
    ensures
        hello_list_requests_spec().len() == 4,
        hello_list_requests_spec()[0].0 == ListType::Public,
        hello_list_requests_spec()[1].0 == ListType::Private,
        hello_list_requests_spec()[2].0 == ListType::Im,
        hello_list_requests_spec()[3].0 == ListType::Mpim,
        forall|i: int| 0 <= i < 4 ==> (#[trigger] hello_list_requests_spec()[i]).1.len() == 0,
{
}

} // verus!
