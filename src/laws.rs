//! Properties that relate the library's functions to one another.
use vstd::prelude::*;

use crate::client::{
    endpoint_url, entry_pair, filter_entries, offers_query, set_pairs, ClientView, OffersParams,
};
use crate::error::Error;
use crate::response::{
    error_message, is_auth_status, is_malformed_error, is_status_error, is_success,
    SNIPPET_CHARS,
};
use crate::text::{int_text, strip_slashes};

verus! {

/// Where a member of the pairs of `s` came from.
proof fn lemma_set_pairs_members(s: Seq<(Seq<char>, Option<Seq<char>>)>)
    ensures
        forall|i: int|
            0 <= i < set_pairs(s).len() ==> exists|j: int|
                0 <= j < s.len() && s[j] == (#[trigger] set_pairs(s)[i].0, Some(
                    set_pairs(s)[i].1,
                )),
    decreases s.len(),
{
    if s.len() > 0 {
        let t = s.drop_last();
        lemma_set_pairs_members(t);
        assert forall|i: int| 0 <= i < set_pairs(s).len() implies exists|j: int|
            0 <= j < s.len() && s[j] == (#[trigger] set_pairs(s)[i].0, Some(
                set_pairs(s)[i].1,
            )) by {
            if i < set_pairs(t).len() {
                let j = choose|j: int|
                    0 <= j < t.len() && t[j] == (set_pairs(t)[i].0, Some(set_pairs(t)[i].1));
                assert(s[j] == t[j]);
            } else {
                assert(s[s.len() - 1] == (set_pairs(s)[i].0, Some(set_pairs(s)[i].1)));
            }
        }
    }
}

/// Every entry of `s` that is set has its pair among the pairs of `s`.
proof fn lemma_set_pairs_complete(s: Seq<(Seq<char>, Option<Seq<char>>)>)
    ensures
        forall|j: int|
            0 <= j < s.len() && (#[trigger] s[j]).1 is Some ==> exists|i: int|
                0 <= i < set_pairs(s).len() && set_pairs(s)[i] == (s[j].0, s[j].1->0),
    decreases s.len(),
{
    if s.len() > 0 {
        let t = s.drop_last();
        lemma_set_pairs_complete(t);
        assert forall|j: int| 0 <= j < s.len() && (#[trigger] s[j]).1 is Some implies exists|
            i: int,
        | 0 <= i < set_pairs(s).len() && set_pairs(s)[i] == (s[j].0, s[j].1->0) by {
            if j < t.len() {
                assert(t[j] == s[j]);
                let i = choose|i: int|
                    0 <= i < set_pairs(t).len() && set_pairs(t)[i] == (t[j].0, t[j].1->0);
                assert(set_pairs(s)[i] == set_pairs(t)[i]);
            } else {
                let i = set_pairs(t).len() as int;
                assert(set_pairs(s)[i] == (s[j].0, s[j].1->0));
            }
        }
    }
}

/// Where the keys of `s` differ, so do the keys of its pairs.
proof fn lemma_set_pairs_distinct(s: Seq<(Seq<char>, Option<Seq<char>>)>)
    requires
        forall|a: int, b: int| 0 <= a < b < s.len() ==> s[a].0 != s[b].0,
    ensures
        forall|a: int, b: int|
            0 <= a < b < set_pairs(s).len() ==> set_pairs(s)[a].0 != set_pairs(s)[b].0,
    decreases s.len(),
{
    if s.len() > 0 {
        let t = s.drop_last();
        lemma_set_pairs_distinct(t);
        lemma_set_pairs_members(t);
        let n = set_pairs(t).len() as int;
        assert forall|a: int, b: int| 0 <= a < b < set_pairs(s).len() implies set_pairs(s)[a].0
            != set_pairs(s)[b].0 by {
            if b >= n {
                let j = choose|j: int|
                    0 <= j < t.len() && t[j] == (set_pairs(t)[a].0, Some(set_pairs(t)[a].1));
                assert(s[j] == t[j]);
                assert(set_pairs(s)[b].0 == s[s.len() - 1].0);
            } else {
                assert(set_pairs(s)[a] == set_pairs(t)[a]);
                assert(set_pairs(s)[b] == set_pairs(t)[b]);
            }
        }
    }
}

/// Tells the query keys apart by their length and a character or two.
spec fn key_rank(k: Seq<char>) -> int {
    if k.len() < 3 {
        -1
    } else if k.len() == 5 && k[0] == 'b' {
        0
    } else if k.len() == 5 && k[0] == 'm' {
        1
    } else if k.len() == 13 && k[2] == 'n' {
        2
    } else if k.len() == 13 && k[2] == 'm' {
        3
    } else if k.len() == 12 && k[0] == 't' {
        4
    } else if k.len() == 5 && k[0] == 'c' {
        5
    } else if k.len() == 9 && k[0] == 'b' {
        6
    } else if k.len() == 11 {
        7
    } else if k.len() == 9 && k[0] == 'y' {
        8
    } else if k.len() == 7 && k[0] == 'y' {
        9
    } else if k.len() == 12 && k[0] == 'm' {
        10
    } else if k.len() == 10 && k[0] == 'm' {
        11
    } else if k.len() == 10 && k[0] == 'p' {
        12
    } else if k.len() == 8 {
        13
    } else if k.len() == 4 {
        14
    } else if k.len() == 7 && k[0] == 'a' {
        15
    } else {
        -1
    }
}

proof fn lemma_query_keys_differ(p: OffersParams)
    ensures
        forall|i: int| 0 <= i < 14 ==> key_rank(#[trigger] filter_entries(p)[i].0) == i,
        key_rank("page"@) == 14,
        key_rank("api_key"@) == 15,
        filter_entries(p).len() == 14,
{
    reveal_strlit("brand");
    reveal_strlit("model");
    reveal_strlit("configuration");
    reveal_strlit("complectation");
    reveal_strlit("transmission");
    reveal_strlit("color");
    reveal_strlit("body_type");
    reveal_strlit("engine_type");
    reveal_strlit("year_from");
    reveal_strlit("year_to");
    reveal_strlit("mileage_from");
    reveal_strlit("mileage_to");
    reveal_strlit("price_from");
    reveal_strlit("price_to");
    reveal_strlit("page");
    reveal_strlit("api_key");
    let es = filter_entries(p);
    assert(key_rank(es[0].0) == 0);
    assert(key_rank(es[1].0) == 1);
    assert(es[2].0[2] == 'n');
    assert(key_rank(es[2].0) == 2);
    assert(es[3].0[2] == 'm');
    assert(key_rank(es[3].0) == 3);
    assert(key_rank(es[4].0) == 4);
    assert(key_rank(es[5].0) == 5);
    assert(key_rank(es[6].0) == 6);
    assert(key_rank(es[7].0) == 7);
    assert(key_rank(es[8].0) == 8);
    assert(key_rank(es[9].0) == 9);
    assert(key_rank(es[10].0) == 10);
    assert(key_rank(es[11].0) == 11);
    assert(key_rank(es[12].0) == 12);
    assert(key_rank(es[13].0) == 13);
    assert(key_rank("page"@) == 14);
    assert(key_rank("api_key"@) == 15);
}

/// The query of an offers search, with the credential after it as sent: it
/// starts with `page` and ends with `api_key`; each pair in between is a
/// filter that is set, with its value; each filter that is set is there; and
/// no key appears twice.
pub proof fn lemma_offers_query_keys(p: OffersParams, api_key: Seq<char>)
    ensures
        ({
            let q = offers_query(p).push(("api_key"@, api_key));
            &&& q[0] == ("page"@, int_text(p.page as int))
            &&& q.last() == ("api_key"@, api_key)
            &&& forall|a: int, b: int| 0 <= a < b < q.len() ==> q[a].0 != q[b].0
            &&& forall|i: int|
                0 < i < q.len() - 1 ==> exists|j: int|
                    0 <= j < filter_entries(p).len() && filter_entries(p)[j] == (
                        #[trigger] q[i].0,
                        Some(q[i].1),
                    )
            &&& forall|j: int|
                0 <= j < filter_entries(p).len() && (#[trigger] filter_entries(p)[j]).1 is Some
                    ==> exists|i: int|
                    0 < i < q.len() - 1 && q[i] == (
                        filter_entries(p)[j].0,
                        filter_entries(p)[j].1->0,
                    )
        }),
{
    let es = filter_entries(p);
    let sp = set_pairs(es);
    let page = ("page"@, int_text(p.page as int));
    let q = offers_query(p).push(("api_key"@, api_key));
    lemma_query_keys_differ(p);
    lemma_set_pairs_members(es);
    lemma_set_pairs_complete(es);
    assert forall|a: int, b: int| 0 <= a < b < es.len() implies es[a].0 != es[b].0 by {
        assert(key_rank(es[a].0) == a);
        assert(key_rank(es[b].0) == b);
    }
    lemma_set_pairs_distinct(es);
    assert(q =~= seq![page] + sp + seq![("api_key"@, api_key)]);
    assert forall|i: int| 0 < i < q.len() - 1 implies q[i] == sp[i - 1] by {}
    assert forall|i: int| 0 <= i < sp.len() implies key_rank(#[trigger] sp[i].0) < 14 by {
        let j = choose|j: int| 0 <= j < es.len() && es[j] == (sp[i].0, Some(sp[i].1));
        assert(key_rank(es[j].0) == j);
    }
    assert forall|a: int, b: int| 0 <= a < b < q.len() implies q[a].0 != q[b].0 by {
        if a == 0 && b < q.len() - 1 {
            assert(q[b] == sp[b - 1]);
        } else if a > 0 && b < q.len() - 1 {
            assert(q[a] == sp[a - 1]);
            assert(q[b] == sp[b - 1]);
        } else if a > 0 {
            assert(q[a] == sp[a - 1]);
        }
    }
    assert forall|j: int|
        0 <= j < es.len() && (#[trigger] es[j]).1 is Some implies exists|i: int|
        0 < i < q.len() - 1 && q[i] == (es[j].0, es[j].1->0) by {
        let i = choose|i: int| 0 <= i < sp.len() && sp[i] == (es[j].0, es[j].1->0);
        assert(q[i + 1] == sp[i]);
    }
    assert forall|i: int| 0 < i < q.len() - 1 implies exists|j: int|
        0 <= j < es.len() && es[j] == (#[trigger] q[i].0, Some(q[i].1)) by {
        assert(q[i] == sp[i - 1]);
    }
}

/// A base URL with a `/` at its end configures a client exactly as the same
/// URL without it does, so every request that the client describes is the same.
pub proof fn lemma_trailing_slash_ignored(c: ClientView, url: Seq<char>, source: Seq<char>, endpoint: Seq<char>)
    ensures
        strip_slashes(url.push('/')) == strip_slashes(url),
        (ClientView { base_url: strip_slashes(url.push('/')), ..c }) == (ClientView {
            base_url: strip_slashes(url),
            ..c
        }),
        endpoint_url(ClientView { base_url: strip_slashes(url.push('/')), ..c }, source, endpoint)
            == endpoint_url(ClientView { base_url: strip_slashes(url), ..c }, source, endpoint),
{
    assert(url.push('/').drop_last() =~= url);
}

/// A success status with a body of the wrong shape gives an `Api` error with
/// that status, whose message is `Invalid JSON response: ` and then at most
/// the first 200 characters of the body, and which keeps the whole body.
pub proof fn lemma_malformed_message(e: Error, status: u16, body: Seq<char>)
    requires
        is_malformed_error(e, status, body),
    ensures
        e matches Error::Api { status_code, message, body: b } && {
            let head = "Invalid JSON response: "@;
            &&& status_code == status
            &&& b@ == body
            &&& message@.len() <= head.len() + SNIPPET_CHARS
            &&& message@.take(head.len() as int) == head
            &&& body.take(message@.len() - head.len()) == message@.skip(head.len() as int)
        },
{
    let head = "Invalid JSON response: "@;
    if let Error::Api { message, .. } = e {
        assert(message@.take(head.len() as int) =~= head);
        assert(body.take(message@.len() - head.len()) =~= message@.skip(head.len() as int));
    }
}

/// Status 401 or 403 gives an `Auth` error, whatever the body holds.
pub proof fn lemma_auth_statuses(e: Error, status: u16, body: Seq<char>)
    requires
        is_auth_status(status),
        is_status_error(e, status, body),
    ensures
        e matches Error::Auth { status_code, message } && status_code == status && message@
            == error_message(status, body),
{
}

/// Any other status outside [200, 300) gives an `Api` error with that status,
/// the body's `message` or else `API error: {status}`, and the whole body.
pub proof fn lemma_api_statuses(e: Error, status: u16, body: Seq<char>)
    requires
        !is_success(status),
        !is_auth_status(status),
        is_status_error(e, status, body),
    ensures
        e matches Error::Api { status_code, message, body: b } && status_code == status && message@
            == error_message(status, body) && b@ == body,
{
}

} // verus!
