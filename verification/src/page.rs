//! One page of a paginated listing, from the raw response to what the fetcher
//! makes of it.
//!
//! A page is judged on plain values: for every raw element its `id` and the
//! outcome of decoding it. `read_page` produces those values from a raw
//! response; `Page::verdict` says what a page means for the stream.

use crate::error::{ErrorView, TransportFailure};
use crate::json::{array_items, member, member_of, string_text};
use serde_json::Value;
use vstd::prelude::*;

verus! {

/// A record type that raw JSON elements decode into.
pub trait Decode: Sized {
    /// Whether decoding `raw` may end with `outcome`: with a record, or with
    /// `None` for a failure. A type that says nothing allows every outcome; a
    /// type whose decoding is fixed by the raw value allows exactly one.
    open spec fn decodes(raw: Value, outcome: Option<Self>) -> bool {
        true
    }

    /// Decodes one raw element. A failure carries a message for the caller.
    fn decode(raw: &Value) -> (r: Result<Self, String>)
        ensures
            Self::decodes(*raw, outcome(r)),
    ;
}

/// What is left of the result of a decoding when the message is set aside.
pub open spec fn outcome<T>(result: Result<T, String>) -> Option<T> {
    match result {
        Ok(record) => Some(record),
        Err(_) => None,
    }
}

/// What the fetcher reads off one raw element of a page.
#[derive(Debug, PartialEq)]
pub struct Element<T> {
    /// The element as the server sent it.
    pub raw: Value,
    /// The text of the element's `id` member, or that member itself where it
    /// is no string (JSON `null` where it is missing).
    pub id: Result<String, Value>,
    /// The decoded record, or the decoder's message.
    pub item: Result<T, String>,
}

/// One answer of the transport to a page request.
#[derive(Debug, PartialEq)]
pub enum Page<T> {
    /// The request failed, or the server refused it.
    Failure(TransportFailure),
    /// The body was JSON but no array.
    NotArray(Value),
    /// The elements of the array in the order the server sent them.
    Elements(Vec<Element<T>>),
}

/// What a page means for the stream that asked for it.
pub ghost enum Verdict<T> {
    /// A page that decoded as a whole: its records in server order and the
    /// cursor for the page after it.
    More(Seq<T>, Seq<char>),
    /// The empty page: the listing is exhausted.
    Exhausted,
    /// A page the stream cannot go on from.
    Broken(ErrorView),
}

/// The text of the schema error for a response that is no array.
pub open spec fn not_an_array() -> Seq<char> {
    "Streaming response returned not an array?"@
}

/// The text of the schema error for a last element without a string `id`.
pub open spec fn not_a_string_id() -> Seq<char> {
    "Not a string id?"@
}

/// Whether every element decoded.
pub open spec fn all_decoded<T>(elements: Seq<Element<T>>) -> bool {
    forall|i: int| 0 <= i < elements.len() ==> (#[trigger] elements[i]).item is Ok
}

/// Whether `at` is the first element that failed to decode.
pub open spec fn first_failure_at<T>(elements: Seq<Element<T>>, at: int) -> bool {
    &&& 0 <= at < elements.len()
    &&& elements[at].item is Err
    &&& forall|i: int| 0 <= i < at ==> (#[trigger] elements[i]).item is Ok
}

/// The decoded records of the elements, in order. Meaningful where every
/// element decoded.
pub open spec fn records<T>(elements: Seq<Element<T>>) -> Seq<T> {
    Seq::new(elements.len(), |i: int| elements[i].item->Ok_0)
}

/// The error a page is broken by, if `at` is its first element that failed to
/// decode.
pub open spec fn decode_error<T>(elements: Seq<Element<T>>, at: int) -> ErrorView {
    ErrorView::ParseError(elements[at].item->Err_0@, elements[at].raw)
}

impl<T> Page<T> {
    /// The meaning of a page.
    ///
    /// The cursor is taken from the last raw element, whatever the elements
    /// decode into, and it is looked for before anything is decoded: a page
    /// without it is broken by the missing `id`, not by a decode failure. One
    /// element that fails to decode breaks the whole page.
    pub open spec fn verdict(self) -> Verdict<T> {
        match self {
            Page::Failure(failure) => Verdict::Broken(ErrorView::HttpError(failure@)),
            Page::NotArray(raw) => Verdict::Broken(
                ErrorView::SchemaError(not_an_array(), Some(raw)),
            ),
            Page::Elements(elements) => {
                if elements@.len() == 0 {
                    Verdict::Exhausted
                } else {
                    match elements@.last().id {
                        Err(found) => Verdict::Broken(
                            ErrorView::SchemaError(not_a_string_id(), Some(found)),
                        ),
                        Ok(id) => {
                            if all_decoded(elements@) {
                                Verdict::More(records(elements@), id@)
                            } else {
                                Verdict::Broken(
                                    decode_error(
                                        elements@,
                                        choose|at: int| first_failure_at(elements@, at),
                                    ),
                                )
                            }
                        },
                    }
                }
            },
        }
    }
}

/// Among elements that did not all decode there is exactly one first failure.
pub proof fn lemma_first_failure<T>(elements: Seq<Element<T>>)
    requires
        !all_decoded(elements),
    ensures
        first_failure_at(elements, choose|at: int| first_failure_at(elements, at)),
        forall|at: int|
            first_failure_at(elements, at) ==> at == choose|at: int|
                first_failure_at(elements, at),
{
    let bad = choose|i: int| 0 <= i < elements.len() && !((#[trigger] elements[i]).item is Ok);
    lemma_failure_before(elements, bad);
    let first = choose|at: int| first_failure_at(elements, at);
    assert forall|at: int| first_failure_at(elements, at) implies at == first by {
        if at < first {
            assert(elements[at].item is Ok);
        } else if first < at {
            assert(elements[first].item is Ok);
        }
    }
}

/// An element that failed to decode has a first failure at or before it.
proof fn lemma_failure_before<T>(elements: Seq<Element<T>>, bad: int)
    requires
        0 <= bad < elements.len(),
        elements[bad].item is Err,
    ensures
        exists|at: int| first_failure_at(elements, at) && at <= bad,
    decreases bad,
{
    if forall|i: int| 0 <= i < bad ==> (#[trigger] elements[i]).item is Ok {
        assert(first_failure_at(elements, bad));
    } else {
        let earlier = choose|i: int| 0 <= i < bad && !((#[trigger] elements[i]).item is Ok);
        lemma_failure_before(elements, earlier);
    }
}

/// Whether `element` is a faithful reading of the raw element `raw` for
/// records of type `T`.
pub open spec fn element_reads<T: Decode>(raw: Value, element: Element<T>) -> bool {
    &&& element.raw == raw
    &&& match element.id {
        Ok(id) => string_text(member(raw, "id"@)) == Some(id@),
        Err(found) => string_text(member(raw, "id"@)) is None && found == member(raw, "id"@),
    }
    &&& T::decodes(raw, outcome(element.item))
}

/// Whether `page` is a faithful reading of `response` for records of type
/// `T`.
pub open spec fn page_reads<T: Decode>(
    response: Result<Value, TransportFailure>,
    page: Page<T>,
) -> bool {
    match response {
        Err(failure) => page == Page::<T>::Failure(failure),
        Ok(raw) => match array_items(raw) {
            None => page == Page::<T>::NotArray(raw),
            Some(items) => {
                &&& page matches Page::Elements(elements)
                &&& elements@.len() == items.len()
                &&& forall|i: int|
                    0 <= i < items.len() ==> element_reads(items[i], #[trigger] elements@[i])
            },
        },
    }
}

/// Reads one raw element: its `id` and what it decodes into.
pub fn read_element<T: Decode>(raw: &Value) -> (r: Element<T>)
    ensures
        element_reads(*raw, r),
{
    let id_member = member_of(raw, "id");
    let id = match id_member.as_str() {
        Some(text) => Ok(text.to_owned()),
        None => Err(id_member.clone()),
    };
    Element { raw: raw.clone(), id, item: T::decode(raw) }
}

/// Turns the transport's answer into a page: a failure stays a failure, a
/// JSON value that is no array is set apart, and every element of an array is
/// read in order.
pub fn read_page<T: Decode>(response: Result<Value, TransportFailure>) -> (r: Page<T>)
    ensures
        page_reads(response, r),
{
    match response {
        Err(failure) => Page::Failure(failure),
        Ok(raw) => {
            let mut elements: Vec<Element<T>> = Vec::new();
            match raw.as_array() {
                None => {},
                Some(items) => {
                    let mut i: usize = 0;
                    while i < items.len()
                        invariant
                            i <= items.len(),
                            elements@.len() == i,
                            forall|j: int|
                                0 <= j < i ==> element_reads(items@[j], #[trigger] elements@[j]),
                        decreases items.len() - i,
                    {
                        elements.push(read_element(&items[i]));
                        i += 1;
                    }
                    return Page::Elements(elements);
                },
            }
            Page::NotArray(raw)
        },
    }
}

/// What a page read from a raw response means, said of the raw response.
///
/// A body that is no array breaks the stream, and so does a last element
/// without a string `id`, whatever the elements decode into. Otherwise the
/// cursor is the `id` of the last raw element, and either every element
/// decoded, in which case the records stand in the order of the raw elements,
/// or the page is broken by the first raw element that did not decode.
pub proof fn theorem_raw_page<T: Decode>(raw: Value, page: Page<T>)
    requires
        page_reads(Ok(raw), page),
    ensures
        match array_items(raw) {
            None => page.verdict() == Verdict::<T>::Broken(
                ErrorView::SchemaError(not_an_array(), Some(raw)),
            ),
            Some(items) => {
                if items.len() == 0 {
                    page.verdict() is Exhausted
                } else {
                    match string_text(member(items.last(), "id"@)) {
                        None => page.verdict() == Verdict::<T>::Broken(
                            ErrorView::SchemaError(
                                not_a_string_id(),
                                Some(member(items.last(), "id"@)),
                            ),
                        ),
                        Some(id) => match page.verdict() {
                            Verdict::More(records, cursor) => {
                                &&& cursor == id
                                &&& records.len() == items.len()
                                &&& forall|i: int|
                                    0 <= i < items.len() ==> T::decodes(
                                        items[i],
                                        Some(#[trigger] records[i]),
                                    )
                            },
                            Verdict::Broken(error) => {
                                &&& error matches ErrorView::ParseError(_, offending)
                                &&& exists|at: int|
                                    {
                                        &&& 0 <= at < items.len()
                                        &&& offending == #[trigger] items[at]
                                        &&& T::decodes(items[at], None)
                                        &&& first_failure_at(page->Elements_0@, at)
                                    }
                            },
                            Verdict::Exhausted => false,
                        },
                    }
                }
            },
        },
{
    match array_items(raw) {
        None => {},
        Some(items) => {
            let elements = page->Elements_0@;
            if items.len() > 0 {
                assert(element_reads(items.last(), elements.last()));
                match elements.last().id {
                    Err(_) => {},
                    Ok(_) => {
                        if all_decoded(elements) {
                            assert forall|i: int| 0 <= i < items.len() implies T::decodes(
                                items[i],
                                Some(#[trigger] records(elements)[i]),
                            ) by {
                                assert(element_reads(items[i], elements[i]));
                            }
                        } else {
                            lemma_first_failure(elements);
                            let at = choose|at: int| first_failure_at(elements, at);
                            assert(element_reads(items[at], elements[at]));
                        }
                    },
                }
            }
        },
    }
}

} // verus!
