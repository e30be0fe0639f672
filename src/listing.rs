use vstd::prelude::*;
use crate::reply::{ContentKind, Reply, ReplyView, STATUS_INTERNAL_ERROR, STATUS_OK};

verus! {

/// One item of the listing as encoded: its JSON text, or why it could not be encoded.
pub type Encoding = Result<String, String>;

/// The cause of the first item, in order, that could not be encoded.
pub open spec fn first_failure(items: Seq<Encoding>) -> Option<Seq<char>>
    decreases items.len(),
{
    if items.len() == 0 {
        None
    } else {
        match first_failure(items.drop_last()) {
            Some(cause) => Some(cause),
            None => match items.last() {
                Ok(_) => None,
                Err(cause) => Some(cause@),
            },
        }
    }
}

/// Every item was encoded.
pub open spec fn all_encoded(items: Seq<Encoding>) -> bool {
    forall|j: int| 0 <= j < items.len() ==> (#[trigger] items[j]) is Ok
}

/// The JSON texts of the items, position by position.
pub open spec fn texts(items: Seq<Encoding>) -> Seq<Seq<char>> {
    items.map_values(|e: Encoding| match e {
        Ok(text) => text@,
        Err(_) => Seq::empty(),
    })
}

/// The texts separated by commas.
pub open spec fn join(parts: Seq<Seq<char>>) -> Seq<char>
    decreases parts.len(),
{
    if parts.len() == 0 {
        Seq::empty()
    } else if parts.len() == 1 {
        parts[0]
    } else {
        join(parts.drop_last()) + ","@ + parts.last()
    }
}

/// A JSON array whose elements are the given texts, in order.
pub open spec fn json_array(parts: Seq<Seq<char>>) -> Seq<char> {
    "["@ + join(parts) + "]"@
}

/// Everything of the listing document that comes before the snapshots.
pub open spec fn listing_head(servers: Seq<Seq<char>>) -> Seq<char> {
    "{\"servers\":"@ + json_array(servers) + ",\"infos\":"@
}

/// The listing document: an object whose `servers` and `infos` are arrays
/// holding the targets' and the snapshots' texts, in order.
pub open spec fn listing_document(servers: Seq<Seq<char>>, infos: Seq<Seq<char>>) -> Seq<char> {
    listing_head(servers) + json_array(infos) + "}"@
}

/// The reply that reports a listing that could not be encoded.
pub open spec fn failure_view(cause: Seq<char>) -> ReplyView {
    ReplyView { status: 500, content: ContentKind::Text, body: "internal error: "@ + cause }
}

/// The reply to `GET /servers`: the whole document when every target and every
/// snapshot was encoded, else the first cause of failure, targets first.
pub open spec fn listing_view(servers: Seq<Encoding>, infos: Seq<Encoding>) -> ReplyView {
    match first_failure(servers) {
        Some(cause) => failure_view(cause),
        None => match first_failure(infos) {
            Some(cause) => failure_view(cause),
            None => ReplyView {
                status: 200,
                content: ContentKind::Json,
                body: listing_document(texts(servers), texts(infos)),
            },
        },
    }
}

/// No item failed exactly when every item was encoded.
pub proof fn lemma_no_failure_all_encoded(items: Seq<Encoding>)
    ensures
        first_failure(items) is None <==> all_encoded(items),
    decreases items.len(),
{
    if items.len() > 0 {
        let rest = items.drop_last();
        lemma_no_failure_all_encoded(rest);
        if all_encoded(items) {
            assert forall|j: int| 0 <= j < rest.len() implies (#[trigger] rest[j]) is Ok by {
                assert(rest[j] == items[j]);
            }
        }
        if first_failure(items) is None {
            assert forall|j: int| 0 <= j < items.len() implies (#[trigger] items[j]) is Ok by {
                if j < rest.len() {
                    assert(rest[j] == items[j]);
                }
            }
        }
    }
}

/// Finds the cause of the first item that could not be encoded.
fn find_failure(items: &Vec<Encoding>) -> (r: Option<String>)
    ensures
        match r {
            Some(cause) => first_failure(items@) == Some(cause@),
            None => first_failure(items@) is None,
        },
{
    let mut i: usize = 0;
    while i < items.len()
        invariant
            i <= items.len(),
            first_failure(items@.subrange(0, i as int)) is None,
        decreases items.len() - i,
    {
        let ghost prefix = items@.subrange(0, i + 1);
        assert(prefix.drop_last() =~= items@.subrange(0, i as int));
        match &items[i] {
            Ok(_) => {},
            Err(cause) => {
                proof {
                    lemma_failure_extends(items@, i as int + 1);
                }
                return Some(cause.clone());
            },
        }
        i = i + 1;
    }
    assert(items@.subrange(0, items.len() as int) =~= items@);
    None
}

/// Once a prefix has failed, every longer prefix fails with the same cause.
proof fn lemma_failure_extends(items: Seq<Encoding>, n: int)
    requires
        0 < n <= items.len(),
        first_failure(items.subrange(0, n)) is Some,
    ensures
        first_failure(items) == first_failure(items.subrange(0, n)),
    decreases items.len() - n,
{
    if n == items.len() {
        assert(items.subrange(0, n) =~= items);
    } else {
        let longer = items.subrange(0, n + 1);
        assert(longer.drop_last() =~= items.subrange(0, n));
        lemma_failure_extends(items, n + 1);
    }
}

/// Writes the items' texts as a JSON array at the end of `out`.
fn push_array(out: &mut String, items: &Vec<Encoding>)
    requires
        all_encoded(items@),
    ensures
        final(out)@ == old(out)@ + json_array(texts(items@)),
{
    let ghost start = out@;
    let ghost all = texts(items@);
    out.append("[");
    let mut i: usize = 0;
    while i < items.len()
        invariant
            i <= items.len(),
            all == texts(items@),
            all_encoded(items@),
            out@ == start + "["@ + join(all.subrange(0, i as int)),
        decreases items.len() - i,
    {
        let ghost before = out@;
        assert(all.subrange(0, i + 1).drop_last() =~= all.subrange(0, i as int));
        match &items[i] {
            Ok(text) => {
                if i > 0 {
                    out.append(",");
                }
                out.append(text.as_str());
                proof {
                    if i == 0 {
                        assert(join(all.subrange(0, 0)) =~= Seq::<char>::empty());
                        assert(out@ =~= start + "["@ + join(all.subrange(0, 1)));
                    } else {
                        assert(out@ =~= start + "["@ + join(all.subrange(0, i + 1)));
                    }
                }
            },
            Err(_) => {
                assert(false);
            },
        }
        i = i + 1;
    }
    assert(all.subrange(0, items.len() as int) =~= all);
    out.append("]");
    assert(out@ =~= start + json_array(all));
}

/// Builds the reply to `GET /servers` from the encoded targets and snapshots:
/// the whole document with status 200 when every item was encoded, else status
/// 500 naming the first failure; never a part of the document.
pub fn servers_json(servers: &Vec<Encoding>, infos: &Vec<Encoding>) -> (r: Reply)
    ensures
        r@ == listing_view(servers@, infos@),
{
    match find_failure(servers) {
        Some(cause) => failure_reply(&cause),
        None => match find_failure(infos) {
            Some(cause) => failure_reply(&cause),
            None => {
                proof {
                    lemma_no_failure_all_encoded(servers@);
                    lemma_no_failure_all_encoded(infos@);
                }
                let mut body = String::new();
                body.append("{\"servers\":");
                push_array(&mut body, servers);
                body.append(",\"infos\":");
                push_array(&mut body, infos);
                body.append("}");
                assert(body@ =~= listing_document(texts(servers@), texts(infos@)));
                Reply { status: STATUS_OK, content: ContentKind::Json, body }
            },
        },
    }
}

/// The reply for a listing that failed to encode with `cause`.
fn failure_reply(cause: &String) -> (r: Reply)
    ensures
        r@ == failure_view(cause@),
{
    let mut body = String::new();
    body.append("internal error: ");
    body.append(cause.as_str());
    assert(body@ =~= "internal error: "@ + cause@);
    Reply { status: STATUS_INTERNAL_ERROR, content: ContentKind::Text, body }
}

/// When every one of N targets and every one of their N snapshots was encoded,
/// the reply succeeds, and its `servers` and `infos` arrays are made of exactly
/// N texts each, the one at position k coming from target k and snapshot k.
pub proof fn lemma_listing_counts(servers: Seq<Encoding>, infos: Seq<Encoding>)
    requires
        servers.len() == infos.len(),
        all_encoded(servers),
        all_encoded(infos),
    ensures
        listing_view(servers, infos).status == 200,
        listing_view(servers, infos).body == listing_document(texts(servers), texts(infos)),
        texts(servers).len() == servers.len(),
        texts(infos).len() == servers.len(),
        forall|k: int|
            0 <= k < servers.len() ==> (#[trigger] texts(servers)[k]) == servers[k]->Ok_0@
                && texts(infos)[k] == infos[k]->Ok_0@,
{
    lemma_no_failure_all_encoded(servers);
    lemma_no_failure_all_encoded(infos);
}

/// The listing reply is either status 200 with a JSON body, or status 500 with
/// a plain text body that starts with `internal error: `.
pub proof fn lemma_listing_status(servers: Seq<Encoding>, infos: Seq<Encoding>)
    ensures
        ({
            let v = listing_view(servers, infos);
            (v.status == 200 && v.content == ContentKind::Json) || (v.status == 500
                && v.content == ContentKind::Text && v.body.len() >= 16
                && v.body.subrange(0, 16) == "internal error: "@)
        }),
{
    reveal_strlit("internal error: ");
    match first_failure(servers) {
        Some(cause) => {
            assert(("internal error: "@ + cause).subrange(0, 16) =~= "internal error: "@);
        },
        None => match first_failure(infos) {
            Some(cause) => {
                assert(("internal error: "@ + cause).subrange(0, 16) =~= "internal error: "@);
            },
            None => {},
        },
    }
}

/// Two listings of the same encoded targets, whose snapshots were all encoded
/// and are as many, give documents of the same shape: the same text up to the
/// snapshots, then arrays of equally many snapshots, then the closing brace;
/// with equal snapshots the two documents are equal.
pub proof fn lemma_listing_repeatable(servers: Seq<Encoding>, infos1: Seq<Encoding>, infos2: Seq<Encoding>)
    requires
        all_encoded(servers),
        all_encoded(infos1),
        all_encoded(infos2),
        infos1.len() == infos2.len(),
    ensures
        ({
            let v1 = listing_view(servers, infos1);
            let v2 = listing_view(servers, infos2);
            let head = listing_head(texts(servers));
            &&& v1.status == 200 && v2.status == 200
            &&& v1.content == ContentKind::Json && v2.content == ContentKind::Json
            &&& v1.body == head + json_array(texts(infos1)) + "}"@
            &&& v2.body == head + json_array(texts(infos2)) + "}"@
            &&& texts(infos1).len() == texts(infos2).len()
            &&& texts(infos1) == texts(infos2) ==> v1 == v2
        }),
{
    lemma_no_failure_all_encoded(servers);
    lemma_no_failure_all_encoded(infos1);
    lemma_no_failure_all_encoded(infos2);
}

} // verus!
