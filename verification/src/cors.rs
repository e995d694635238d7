//! The permissive CORS policy of both planes: a preflight is answered at
//! once, and every reply allows every origin.

use crate::request::{
    eq_ignore_case, header_value, same_name, text_eq, Header, Reply, ReplyView,
};
use vstd::prelude::*;
use vstd::string::*;

verus! {

/// The name of the header that allows origins.
pub open spec fn allow_origin_name() -> Seq<char> {
    "Access-Control-Allow-Origin"@
}

/// The header line that allows every origin.
pub open spec fn allow_origin() -> (Seq<char>, Seq<u8>) {
    (allow_origin_name(), seq![42u8])
}

/// The header lines of a preflight reply: every origin, every method and
/// every header is allowed.
pub open spec fn preflight_headers() -> Seq<(Seq<char>, Seq<u8>)> {
    seq![
        allow_origin(),
        ("Access-Control-Allow-Methods"@, seq![42u8]),
        ("Access-Control-Allow-Headers"@, seq![42u8]),
    ]
}

/// The header lines without those of the given name, in their order.
pub open spec fn without_name(headers: Seq<(Seq<char>, Seq<u8>)>, name: Seq<char>) -> Seq<
    (Seq<char>, Seq<u8>),
>
    decreases headers.len(),
{
    if headers.len() == 0 {
        Seq::empty()
    } else if same_name(headers.last().0, name) {
        without_name(headers.drop_last(), name)
    } else {
        without_name(headers.drop_last(), name).push(headers.last())
    }
}

/// A reply with its header lines replaced so that it allows every origin:
/// lines that allow origins are taken out and the one that allows all is
/// put last. Status, body and the other lines stay.
pub open spec fn allowing_any_origin(reply: ReplyView) -> ReplyView {
    ReplyView {
        status: reply.status,
        headers: without_name(reply.headers, allow_origin_name()).push(allow_origin()),
        body: reply.body,
    }
}

/// The reply says that every origin is allowed.
pub open spec fn allows_any_origin(reply: ReplyView) -> bool {
    header_value(reply.headers, allow_origin_name()) == Some(seq![42u8])
}

/// The reply to a preflight.
pub open spec fn preflight_reply() -> ReplyView {
    ReplyView { status: 200, headers: preflight_headers(), body: Seq::empty() }
}

/// A request with this method is a preflight.
pub open spec fn is_preflight(method: Seq<char>) -> bool {
    method == "OPTIONS"@
}

/// Behind header lines of other names, a line of the given name is the one
/// that a lookup finds.
proof fn lemma_found_behind(
    headers: Seq<(Seq<char>, Seq<u8>)>,
    name: Seq<char>,
    line: (Seq<char>, Seq<u8>),
)
    requires
        same_name(line.0, name),
        forall|i: int| 0 <= i < headers.len() ==> !same_name((#[trigger] headers[i]).0, name),
    ensures
        header_value(headers.push(line), name) == Some(line.1),
    decreases headers.len(),
{
    let all = headers.push(line);
    if headers.len() == 0 {
        assert(all[0] == line);
    } else {
        assert(all[0] == headers[0]);
        assert(all.drop_first() =~= headers.drop_first().push(line));
        assert forall|i: int| 0 <= i < headers.drop_first().len() implies !same_name(
            (#[trigger] headers.drop_first()[i]).0,
            name,
        ) by {
            assert(headers.drop_first()[i] == headers[i + 1]);
        }
        lemma_found_behind(headers.drop_first(), name, line);
    }
}

/// What is left without a name has no line of that name.
proof fn lemma_without_name(headers: Seq<(Seq<char>, Seq<u8>)>, name: Seq<char>)
    ensures
        forall|i: int|
            0 <= i < without_name(headers, name).len() ==> !same_name(
                (#[trigger] without_name(headers, name)[i]).0,
                name,
            ),
    decreases headers.len(),
{
    if headers.len() > 0 {
        let front = without_name(headers.drop_last(), name);
        lemma_without_name(headers.drop_last(), name);
        assert forall|i: int| 0 <= i < without_name(headers, name).len() implies !same_name(
            (#[trigger] without_name(headers, name)[i]).0,
            name,
        ) by {
            if i < front.len() {
                assert(without_name(headers, name)[i] == front[i]);
            }
        }
    }
}

/// Every reply that was made to allow every origin says so, whatever header
/// lines it had.
pub proof fn lemma_allowing_any_origin(reply: ReplyView)
    ensures
        allows_any_origin(allowing_any_origin(reply)),
        allowing_any_origin(reply).status == reply.status,
        allowing_any_origin(reply).body == reply.body,
{
    lemma_without_name(reply.headers, allow_origin_name());
    lemma_found_behind(
        without_name(reply.headers, allow_origin_name()),
        allow_origin_name(),
        allow_origin(),
    );
}

/// The reply to a preflight allows every origin.
pub proof fn lemma_preflight_allows_any_origin()
    ensures
        allows_any_origin(preflight_reply()),
{
    assert(preflight_headers()[0] == allow_origin());
}

/// A header line whose value is `*`.
pub(crate) fn star_header(name: &str) -> (header: Header)
    ensures
        header.deep_view() == (name@, seq![42u8]),
{
    let mut value: Vec<u8> = Vec::new();
    value.push(42u8);
    assert(value@ =~= seq![42u8]);
    (name.to_owned(), value)
}

/// Whether a request with this method is a preflight.
pub fn is_preflight_method(method: &str) -> (preflight: bool)
    ensures
        preflight == is_preflight(method@),
{
    text_eq(method, "OPTIONS")
}

/// The reply to a preflight: status 200, no body, and the three headers that
/// allow every origin, method and header.
pub fn preflight() -> (reply: Reply)
    ensures
        reply@ == preflight_reply(),
        allows_any_origin(reply@),
{
    let mut headers: Vec<Header> = Vec::new();
    headers.push(star_header("Access-Control-Allow-Origin"));
    headers.push(star_header("Access-Control-Allow-Methods"));
    headers.push(star_header("Access-Control-Allow-Headers"));
    assert(headers.deep_view() =~= preflight_headers());
    proof {
        lemma_preflight_allows_any_origin();
    }
    Reply { status: 200, headers, body: Vec::new() }
}

/// Makes a reply allow every origin.
pub fn with_cors(reply: Reply) -> (allowed: Reply)
    ensures
        allowed@ == allowing_any_origin(reply@),
        allows_any_origin(allowed@),
{
    let ghost all = reply.headers.deep_view();
    let mut headers: Vec<Header> = Vec::new();
    let mut at: usize = 0;
    assert(all.take(0) =~= Seq::empty());
    assert(headers.deep_view() =~= Seq::empty());
    while at < reply.headers.len()
        invariant
            at <= reply.headers.len(),
            all == reply.headers.deep_view(),
            headers.deep_view() == without_name(all.take(at as int), allow_origin_name()),
        decreases reply.headers.len() - at,
    {
        let ghost kept = headers.deep_view();
        assert(all.take(at + 1).drop_last() =~= all.take(at as int));
        assert(all.take(at + 1).last() == all[at as int]);
        if !eq_ignore_case(reply.headers[at].0.as_str(), "Access-Control-Allow-Origin") {
            let name = reply.headers[at].0.clone();
            let value = reply.headers[at].1.clone();
            headers.push((name, value));
            assert(headers.deep_view() =~= kept.push(all[at as int]));
        }
        at += 1;
    }
    assert(all.take(at as int) =~= all);
    let ghost kept = headers.deep_view();
    headers.push(star_header("Access-Control-Allow-Origin"));
    assert(headers.deep_view() =~= kept.push(allow_origin()));
    proof {
        lemma_allowing_any_origin(reply@);
    }
    Reply { status: reply.status, headers, body: reply.body }
}

} // verus!
