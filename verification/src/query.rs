//! Request assembly: decimal rendering of identifiers and markers, the
//! comma-joined type filter, resource paths, and the query-parameter
//! lists each endpoint sends. These are the computing halves of the
//! request wrappers; the HTTP transport around them stays outside the
//! library.

use vstd::prelude::*;
use vstd::string::StringExecFns;

verus! {

/// The decimal digit character for `d` in `0..10`.
pub open spec fn digit_char(d: int) -> char {
    if d == 0 {
        '0'
    } else if d == 1 {
        '1'
    } else if d == 2 {
        '2'
    } else if d == 3 {
        '3'
    } else if d == 4 {
        '4'
    } else if d == 5 {
        '5'
    } else if d == 6 {
        '6'
    } else if d == 7 {
        '7'
    } else if d == 8 {
        '8'
    } else {
        '9'
    }
}

/// The decimal digits of `n`, most significant first, no sign and no
/// leading zero (except for `n == 0` itself).
pub open spec fn dec_digits(n: nat) -> Seq<char>
    decreases n,
{
    if n < 10 {
        seq![digit_char(n as int)]
    } else {
        dec_digits(n / 10) + seq![digit_char((n % 10) as int)]
    }
}

/// The decimal rendering of `n`, with a leading minus sign when negative.
pub open spec fn dec_string(n: int) -> Seq<char> {
    if n < 0 {
        seq!['-'] + dec_digits((-n) as nat)
    } else {
        dec_digits(n as nat)
    }
}

/// One decimal digit as a string.
fn digit_str(d: u64) -> (s: String)
    requires
        d < 10,
    ensures
        s@ == seq![digit_char(d as int)],
{
    proof {
        reveal_strlit("0");
        reveal_strlit("1");
        reveal_strlit("2");
        reveal_strlit("3");
        reveal_strlit("4");
        reveal_strlit("5");
        reveal_strlit("6");
        reveal_strlit("7");
        reveal_strlit("8");
        reveal_strlit("9");
    }
    let s = if d == 0 {
        "0"
    } else if d == 1 {
        "1"
    } else if d == 2 {
        "2"
    } else if d == 3 {
        "3"
    } else if d == 4 {
        "4"
    } else if d == 5 {
        "5"
    } else if d == 6 {
        "6"
    } else if d == 7 {
        "7"
    } else if d == 8 {
        "8"
    } else {
        "9"
    };
    assert(s@ =~= seq![digit_char(d as int)]);
    s.to_owned()
}

/// Decimal rendering of an unsigned 64-bit value.
pub fn u64_to_string(n: u64) -> (s: String)
    ensures
        s@ == dec_digits(n as nat),
    decreases n,
{
    if n < 10 {
        digit_str(n)
    } else {
        let mut s = u64_to_string(n / 10);
        let last = digit_str(n % 10);
        s.append(last.as_str());
        s
    }
}

/// Decimal rendering of a signed 64-bit value, as markers and resource
/// identifiers appear in request parameters and paths.
pub fn i64_to_string(n: i64) -> (s: String)
    ensures
        s@ == dec_string(n as int),
{
    if n >= 0 {
        u64_to_string(n as u64)
    } else {
        let magnitude: u64 = if n == i64::MIN {
            9223372036854775808u64
        } else {
            (-n) as u64
        };
        proof {
            reveal_strlit("-");
        }
        let mut s: String = "-".to_owned();
        let digits = u64_to_string(magnitude);
        s.append(digits.as_str());
        assert(s@ =~= dec_string(n as int));
        s
    }
}

/// The views of a sequence of strings.
pub open spec fn strs_view(parts: Seq<String>) -> Seq<Seq<char>> {
    Seq::new(parts.len(), |i: int| parts[i]@)
}

/// `parts` joined with a single comma between neighbours, as the update
/// type filter is sent on the wire.
pub open spec fn join_comma(parts: Seq<Seq<char>>) -> Seq<char>
    decreases parts.len(),
{
    if parts.len() == 0 {
        Seq::empty()
    } else if parts.len() == 1 {
        parts[0]
    } else {
        join_comma(parts.drop_last()) + seq![','] + parts.last()
    }
}

/// Join the update type filter with commas.
pub fn join_types(parts: &Vec<String>) -> (joined: String)
    ensures
        joined@ == join_comma(strs_view(parts@)),
{
    let mut joined = String::new();
    let mut i: usize = 0;
    while i < parts.len()
        invariant
            i <= parts@.len(),
            joined@ == join_comma(strs_view(parts@).subrange(0, i as int)),
        decreases parts@.len() - i,
    {
        if i > 0 {
            proof {
                reveal_strlit(",");
            }
            joined.append(",");
        }
        joined.append(parts[i].as_str());
        proof {
            let views = strs_view(parts@);
            assert(views.subrange(0, i + 1).drop_last() =~= views.subrange(0, i as int));
            assert(views.subrange(0, i + 1).last() == parts@[i as int]@);
        }
        i = i + 1;
    }
    proof {
        assert(strs_view(parts@).subrange(0, parts@.len() as int) =~= strs_view(parts@));
    }
    joined
}

/// The views of a list of query parameters: each name with its value.
pub open spec fn pairs_view(pairs: Seq<(String, String)>) -> Seq<(Seq<char>, Seq<char>)> {
    Seq::new(pairs.len(), |i: int| (pairs[i].0@, pairs[i].1@))
}

/// One optional query parameter: present values contribute one pair,
/// absent ones contribute nothing.
pub open spec fn opt_pair(name: Seq<char>, value: Option<Seq<char>>) -> Seq<
    (Seq<char>, Seq<char>),
> {
    match value {
        Some(v) => seq![(name, v)],
        None => Seq::empty(),
    }
}

/// The query parameters of one long-poll call, in the order they are
/// sent: `limit`, `timeout`, `marker`, `types`, each only when set.
pub open spec fn updates_query_view(
    limit: Option<i32>,
    timeout: Option<i32>,
    marker: Option<i64>,
    types: Option<Seq<Seq<char>>>,
) -> Seq<(Seq<char>, Seq<char>)> {
    opt_pair(
        "limit"@,
        match limit {
            Some(l) => Some(dec_string(l as int)),
            None => None,
        },
    ) + opt_pair(
        "timeout"@,
        match timeout {
            Some(t) => Some(dec_string(t as int)),
            None => None,
        },
    ) + opt_pair(
        "marker"@,
        match marker {
            Some(m) => Some(dec_string(m as int)),
            None => None,
        },
    ) + opt_pair(
        "types"@,
        match types {
            Some(t) => Some(join_comma(t)),
            None => None,
        },
    )
}

/// Build the query of one long-poll fetch call.
pub fn updates_query(
    limit: Option<i32>,
    timeout: Option<i32>,
    marker: Option<i64>,
    types: &Option<Vec<String>>,
) -> (pairs: Vec<(String, String)>)
    ensures
        pairs_view(pairs@) == updates_query_view(
            limit,
            timeout,
            marker,
            match *types {
                Some(t) => Some(strs_view(t@)),
                None => None,
            },
        ),
{
    let mut pairs: Vec<(String, String)> = Vec::new();
    if let Some(l) = limit {
        pairs.push(("limit".to_owned(), i64_to_string(l as i64)));
    }
    if let Some(t) = timeout {
        pairs.push(("timeout".to_owned(), i64_to_string(t as i64)));
    }
    if let Some(m) = marker {
        pairs.push(("marker".to_owned(), i64_to_string(m)));
    }
    match types {
        Some(ts) => {
            pairs.push(("types".to_owned(), join_types(ts)));
        },
        None => {},
    }
    proof {
        assert(pairs_view(pairs@) =~= updates_query_view(
            limit,
            timeout,
            marker,
            match *types {
                Some(t) => Some(strs_view(t@)),
                None => None,
            },
        ));
    }
    pairs
}

/// The query parameters of a chat-list request: `count` and `marker`,
/// each only when set.
pub open spec fn chats_query_view(count: Option<i32>, marker: Option<i64>) -> Seq<
    (Seq<char>, Seq<char>),
> {
    opt_pair(
        "count"@,
        match count {
            Some(c) => Some(dec_string(c as int)),
            None => None,
        },
    ) + opt_pair(
        "marker"@,
        match marker {
            Some(m) => Some(dec_string(m as int)),
            None => None,
        },
    )
}

/// Build the query of a chat-list request.
pub fn chats_query(count: Option<i32>, marker: Option<i64>) -> (pairs: Vec<(String, String)>)
    ensures
        pairs_view(pairs@) == chats_query_view(count, marker),
{
    let mut pairs: Vec<(String, String)> = Vec::new();
    if let Some(c) = count {
        pairs.push(("count".to_owned(), i64_to_string(c as i64)));
    }
    if let Some(m) = marker {
        pairs.push(("marker".to_owned(), i64_to_string(m)));
    }
    proof {
        assert(pairs_view(pairs@) =~= chats_query_view(count, marker));
    }
    pairs
}

/// The query parameters of a send-message request: the target chat or
/// user, each only when set.
pub open spec fn send_message_query_view(chat_id: Option<i64>, user_id: Option<i64>) -> Seq<
    (Seq<char>, Seq<char>),
> {
    opt_pair(
        "chat_id"@,
        match chat_id {
            Some(c) => Some(dec_string(c as int)),
            None => None,
        },
    ) + opt_pair(
        "user_id"@,
        match user_id {
            Some(u) => Some(dec_string(u as int)),
            None => None,
        },
    )
}

/// Build the query of a send-message request.
pub fn send_message_query(chat_id: Option<i64>, user_id: Option<i64>) -> (pairs: Vec<
    (String, String),
>)
    ensures
        pairs_view(pairs@) == send_message_query_view(chat_id, user_id),
{
    let mut pairs: Vec<(String, String)> = Vec::new();
    if let Some(c) = chat_id {
        pairs.push(("chat_id".to_owned(), i64_to_string(c)));
    }
    if let Some(u) = user_id {
        pairs.push(("user_id".to_owned(), i64_to_string(u)));
    }
    proof {
        assert(pairs_view(pairs@) =~= send_message_query_view(chat_id, user_id));
    }
    pairs
}

/// Build the single-parameter query that names a message by identifier,
/// as editing and deleting a message send it.
pub fn message_id_query(message_id: &str) -> (pairs: Vec<(String, String)>)
    ensures
        pairs_view(pairs@) == seq![("message_id"@, message_id@)],
{
    let mut pairs: Vec<(String, String)> = Vec::new();
    pairs.push(("message_id".to_owned(), message_id.to_owned()));
    proof {
        assert(pairs_view(pairs@) =~= seq![("message_id"@, message_id@)]);
    }
    pairs
}

/// Build the single-parameter query that names a subscription by its URL,
/// as unsubscribing sends it.
pub fn url_query(url: &str) -> (pairs: Vec<(String, String)>)
    ensures
        pairs_view(pairs@) == seq![("url"@, url@)],
{
    let mut pairs: Vec<(String, String)> = Vec::new();
    pairs.push(("url".to_owned(), url.to_owned()));
    proof {
        assert(pairs_view(pairs@) =~= seq![("url"@, url@)]);
    }
    pairs
}

/// Put the access token in front of an endpoint's own query parameters,
/// as every authenticated request sends it.
pub fn with_access_token(access_token: &str, params: Vec<(String, String)>) -> (pairs: Vec<
    (String, String),
>)
    ensures
        pairs_view(pairs@) == seq![("access_token"@, access_token@)] + pairs_view(params@),
{
    let mut pairs: Vec<(String, String)> = Vec::new();
    pairs.push(("access_token".to_owned(), access_token.to_owned()));
    let mut rest = params;
    pairs.append(&mut rest);
    proof {
        assert(pairs_view(pairs@) =~= seq![("access_token"@, access_token@)] + pairs_view(
            params@,
        ));
    }
    pairs
}

/// The resource path of one chat.
pub fn chat_path(chat_id: i64) -> (path: String)
    ensures
        path@ == "/chats/"@ + dec_string(chat_id as int),
{
    let mut path: String = "/chats/".to_owned();
    let id = i64_to_string(chat_id);
    path.append(id.as_str());
    path
}

/// The resource path of one message.
pub fn message_path(message_id: &str) -> (path: String)
    ensures
        path@ == "/messages/"@ + message_id@,
{
    let mut path: String = "/messages/".to_owned();
    path.append(message_id);
    path
}

} // verus!
