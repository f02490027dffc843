//! How the runs of an operation are spoken of: what has come in so far, and what the
//! operation does next.
use crate::error::ErrorView;
use crate::exchange::{Kind, Method, PayloadView, Reply, RequestView, Stop, Tape};
use crate::json::{
    extended, extended_is_found, last_value_at, lookup, texts_model, JsonView, Object, ObjectView,
};
use crate::jsonmap::{link, link_names, member_names};
use crate::text::after_last;
use crate::text_laws::{after_last_is_the_last_part, free_of};
use vstd::prelude::*;
use vstd::string::*;

verus! {

/// What an operation sees that has been sent `replies` and has used none of them.
pub open spec fn after(replies: Seq<Reply>) -> Tape {
    Tape { replies, pos: 0 }
}

/// Whether an operation asks for `request`, to be answered by a document of the kind
/// `kind`.
pub open spec fn asks<T>(r: Result<T, Stop>, request: RequestView, kind: Kind) -> bool {
    r matches Err(Stop::Wait(q, k)) && q@ == request && k == kind
}

/// Whether an operation has failed with `e`.
pub open spec fn fails<T>(r: Result<T, Stop>, e: ErrorView) -> bool {
    r matches Err(Stop::Fail(f)) && f@ == e
}

/// A request that reads the document at `url`.
pub open spec fn reading(url: Seq<char>) -> RequestView {
    RequestView {
        method: Method::Get,
        url,
        payload: PayloadView::Empty,
        headers: Seq::empty(),
        timeout: None,
    }
}

/// A request that changes the document at `url`.
pub open spec fn changing(url: Seq<char>, body: ObjectView) -> RequestView {
    RequestView {
        method: Method::Patch,
        url,
        payload: PayloadView::Json(JsonView::Object(body)),
        headers: Seq::empty(),
        timeout: None,
    }
}

/// A request that posts an object to `url`.
pub open spec fn posting(url: Seq<char>, body: ObjectView) -> RequestView {
    RequestView {
        method: Method::Post,
        url,
        payload: PayloadView::Json(JsonView::Object(body)),
        headers: Seq::empty(),
        timeout: None,
    }
}

/// A request that posts nothing to `url`.
pub open spec fn calling(url: Seq<char>) -> RequestView {
    RequestView {
        method: Method::Post,
        url,
        payload: PayloadView::Empty,
        headers: Seq::empty(),
        timeout: None,
    }
}

/// A request that removes the document at `url`.
pub open spec fn removing(url: Seq<char>) -> RequestView {
    RequestView {
        method: Method::Delete,
        url,
        payload: PayloadView::Empty,
        headers: Seq::empty(),
        timeout: None,
    }
}

/// The object that a request sends.
pub open spec fn body_of(q: RequestView) -> ObjectView {
    match q.payload {
        PayloadView::Json(JsonView::Object(o)) => o,
        _ => Seq::empty(),
    }
}

/// A string as a value.
pub open spec fn word(s: Seq<char>) -> JsonView {
    JsonView::Text(s)
}

/// An array of strings as a value.
pub open spec fn words(list: Seq<Seq<char>>) -> JsonView {
    JsonView::Array(Seq::new(list.len(), |i: int| JsonView::Text(list[i])))
}

/// Whether a collection lists documents with the names `ids`: each is the last part of the
/// link in its place.
pub open spec fn lists(document: Object, ids: Seq<Seq<char>>) -> bool {
    lookup(document@, "Members"@) matches Some(JsonView::Array(members)) && members.len()
        == ids.len() && forall|i: int|
        0 <= i < ids.len() ==> free_of(ids[i], '/') && (#[trigger] members[i] matches JsonView::Object(
            entry,
        ) && (lookup(entry, "@odata.id"@) matches Some(JsonView::Text(place)) && leads_to(
            place,
            ids[i],
        )))
}

/// Whether `place` is a link to a document with the name `id`.
pub open spec fn leads_to(place: Seq<char>, id: Seq<char>) -> bool {
    exists|head: Seq<char>| #![trigger head + seq!['/'] + id] place == head + seq!['/'] + id
}

/// The names that a collection is read as are those that it lists.
pub proof fn names_are_listed(document: Object, ids: Seq<Seq<char>>, url: Seq<char>)
    requires
        lists(document, ids),
    ensures
        member_names(document@, url) == Ok::<_, ErrorView>(ids),
{
    let a = lookup(document@, "Members"@)->0->Array_0;
    assert forall|i: int| 0 <= i < a.len() implies link(#[trigger] a[i]) is Some && after_last(
        link(a[i])->0,
        '/',
    ) == ids[i] by {
        let place = link(a[i])->0;
        let head = choose|head: Seq<char>|
            #![trigger head + seq!['/'] + ids[i]]
            place == head + seq!['/'] + ids[i];
        after_last_is_the_last_part(head, '/', ids[i]);
    }
    assert(link_names(Some(JsonView::Array(a)))->0 =~= ids);
}

/// What was written under a key is found under it, whatever else the document holds.
pub proof fn written_is_found(document: ObjectView, key: Seq<char>, value: JsonView)
    ensures
        lookup(extended(document, seq![(key, value)]), key) == Some(value),
{
    extended_is_found(document, seq![(key, value)], key);
    last_value_at(seq![(key, value)], 0);
}

/// Texts are written as an array of strings.
pub proof fn words_are_texts(list: Seq<Seq<char>>)
    ensures
        texts_model(list) == words(list),
{
    assert(texts_model(list)->Array_0 =~= words(list)->Array_0);
}

} // verus!
