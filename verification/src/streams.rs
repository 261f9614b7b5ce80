//! The paginated fetcher as an explicit state machine.
//!
//! A `PaginatedStream` never talks to the network. Whoever drives it calls
//! `poll` for the next thing to do: hand an item or an error to the consumer,
//! stop, or fetch a page with the parameters given. The answer to a fetch goes
//! back in through `receive`. A page is asked for only when every item of the
//! page before it has been handed out, and never after the stream has ended.

use crate::error::{ErrorView, ManifoldError};
use crate::page::{
    all_decoded, first_failure_at, lemma_first_failure, records, Element, Page, Verdict,
};
use crate::text::same_text;
use std::collections::VecDeque;
use vstd::prelude::*;

verus! {

/// Query parameters as the contracts see them: name and value of each, in
/// order.
pub type ParamsView = Seq<(Seq<char>, Seq<char>)>;

/// The name of the query parameter that carries the cursor.
pub open spec fn cursor_param() -> Seq<char> {
    "before"@
}

/// Whether no parameter of `params` has the name that is reserved for the
/// cursor.
pub open spec fn cursor_free(params: ParamsView) -> bool {
    forall|i: int| 0 <= i < params.len() ==> (#[trigger] params[i]).0 != cursor_param()
}

/// The parameters in `params`, as the contracts see them.
pub open spec fn pairs(params: Seq<(String, String)>) -> ParamsView {
    Seq::new(params.len(), |i: int| (params[i].0@, params[i].1@))
}

/// Where a stream stands in its listing.
#[derive(Debug, PartialEq)]
pub enum StreamState {
    /// No page has been received yet.
    Start,
    /// The last page ended with the element of this `id`; more may follow.
    HasCursor(String),
    /// The listing is exhausted or broke off. No request follows.
    Done,
}

/// `StreamState` with the cursor as a sequence of characters.
pub ghost enum StateView {
    Start,
    HasCursor(Seq<char>),
    Done,
}

impl View for StreamState {
    type V = StateView;

    open spec fn view(&self) -> StateView {
        match *self {
            StreamState::Start => StateView::Start,
            StreamState::HasCursor(cursor) => StateView::HasCursor(cursor@),
            StreamState::Done => StateView::Done,
        }
    }
}

/// What the driver of a stream has to do next.
#[derive(Debug, PartialEq)]
pub enum Step<T> {
    /// Hand this record to the consumer.
    Item(T),
    /// Hand this error to the consumer. Nothing follows it.
    Fail(ManifoldError),
    /// Request a page with these query parameters and pass the answer to
    /// `receive`.
    Fetch(Vec<(String, String)>),
    /// The stream is over.
    End,
}

/// `Step` with its texts as sequences of characters.
pub ghost enum StepView<T> {
    Item(T),
    Fail(ErrorView),
    Fetch(ParamsView),
    End,
}

impl<T> View for Step<T> {
    type V = StepView<T>;

    open spec fn view(&self) -> StepView<T> {
        match *self {
            Step::Item(record) => StepView::Item(record),
            Step::Fail(error) => StepView::Fail(error@),
            Step::Fetch(params) => StepView::Fetch(pairs(params@)),
            Step::End => StepView::End,
        }
    }
}

/// The mathematical content of a `PaginatedStream`.
pub ghost struct StreamView<T> {
    /// The resource path every request goes to.
    pub path: Seq<char>,
    /// The parameters the stream was made with. The cursor is never among
    /// them.
    pub base: ParamsView,
    pub state: StateView,
    /// The records of the current page that the consumer has not seen yet.
    pub pending: Seq<T>,
    /// The error that the consumer has not seen yet.
    pub failure: Option<ErrorView>,
}

impl<T> StreamView<T> {
    /// A stream that has not asked for anything yet.
    pub open spec fn fresh(path: Seq<char>, base: ParamsView) -> StreamView<T> {
        StreamView { path, base, state: StateView::Start, pending: Seq::empty(), failure: None }
    }

    /// Whether the stream has nothing left to hand out and has not ended: its
    /// next step is a fetch.
    pub open spec fn awaiting(self) -> bool {
        self.pending.len() == 0 && self.failure is None && !(self.state is Done)
    }

    /// The parameters of the next page request: the base parameters, followed
    /// by the cursor once there is one.
    pub open spec fn request(self) -> ParamsView {
        match self.state {
            StateView::HasCursor(cursor) => self.base.push((cursor_param(), cursor)),
            _ => self.base,
        }
    }

    /// What `poll` returns.
    pub open spec fn next_step(self) -> StepView<T> {
        if self.pending.len() > 0 {
            StepView::Item(self.pending[0])
        } else if self.failure is Some {
            StepView::Fail(self.failure->Some_0)
        } else if self.state is Done {
            StepView::End
        } else {
            StepView::Fetch(self.request())
        }
    }

    /// The stream after `poll`.
    pub open spec fn after_step(self) -> StreamView<T> {
        if self.pending.len() > 0 {
            StreamView { pending: self.pending.drop_first(), ..self }
        } else if self.failure is Some {
            StreamView { failure: None, ..self }
        } else {
            self
        }
    }

    /// The stream after `receive(page)`. A page that the stream did not ask
    /// for changes nothing.
    pub open spec fn after_page(self, page: Page<T>) -> StreamView<T> {
        if !self.awaiting() {
            self
        } else {
            match page.verdict() {
                Verdict::More(items, cursor) => StreamView {
                    state: StateView::HasCursor(cursor),
                    pending: items,
                    ..self
                },
                Verdict::Exhausted => StreamView { state: StateView::Done, ..self },
                Verdict::Broken(error) => StreamView {
                    state: StateView::Done,
                    failure: Some(error),
                    ..self
                },
            }
        }
    }
}

/// A lazy, forward-only walk through a cursor-paginated listing.
#[derive(Debug)]
pub struct PaginatedStream<T> {
    path: String,
    params: Vec<(String, String)>,
    state: StreamState,
    pending: VecDeque<T>,
    failure: Option<ManifoldError>,
}

impl<T> View for PaginatedStream<T> {
    type V = StreamView<T>;

    closed spec fn view(&self) -> StreamView<T> {
        StreamView {
            path: self.path@,
            base: pairs(self.params@),
            state: self.state@,
            pending: self.pending@,
            failure: match self.failure {
                Some(error) => Some(error@),
                None => None,
            },
        }
    }
}

/// Whether `params` leaves the name of the cursor parameter alone, as the
/// parameters of a stream must.
pub fn is_cursor_free(params: &Vec<(String, String)>) -> (r: bool)
    ensures
        r == cursor_free(pairs(params@)),
{
    let mut i: usize = 0;
    while i < params.len()
        invariant
            i <= params.len(),
            forall|j: int| 0 <= j < i ==> (#[trigger] pairs(params@)[j]).0 != cursor_param(),
        decreases params.len() - i,
    {
        if same_text(params[i].0.as_str(), "before") {
            assert(pairs(params@)[i as int].0 == cursor_param());
            return false;
        }
        i += 1;
    }
    true
}

/// Copies a parameter list.
pub fn copy_params(params: &Vec<(String, String)>) -> (r: Vec<(String, String)>)
    ensures
        pairs(r@) == pairs(params@),
{
    let mut copy: Vec<(String, String)> = Vec::new();
    let mut i: usize = 0;
    while i < params.len()
        invariant
            i <= params.len(),
            copy@.len() == i,
            forall|j: int|
                0 <= j < i ==> (#[trigger] copy@[j]).0@ == params@[j].0@ && copy@[j].1@
                    == params@[j].1@,
        decreases params.len() - i,
    {
        copy.push((params[i].0.clone(), params[i].1.clone()));
        i += 1;
    }
    assert(pairs(copy@) =~= pairs(params@));
    copy
}

/// The parameters of one page request: a copy of `base`, followed by the
/// cursor parameter where a cursor is held. `base` itself is left alone.
pub fn page_params(base: &Vec<(String, String)>, cursor: Option<&String>) -> (r: Vec<
    (String, String),
>)
    ensures
        pairs(r@) == match cursor {
            Some(cursor) => pairs(base@).push((cursor_param(), cursor@)),
            None => pairs(base@),
        },
{
    let mut params = copy_params(base);
    match cursor {
        Some(cursor) => {
            params.push(("before".to_owned(), cursor.clone()));
            assert(pairs(params@) =~= pairs(base@).push((cursor_param(), cursor@)));
        },
        None => {},
    }
    params
}

impl<T> PaginatedStream<T> {
    /// A stream over the listing at `path`, filtered by `params`. The
    /// parameters must leave the name `before` to the stream.
    pub fn new(path: String, params: Vec<(String, String)>) -> (r: PaginatedStream<T>)
        requires
            cursor_free(pairs(params@)),
        ensures
            r@ == StreamView::<T>::fresh(path@, pairs(params@)),
    {
        PaginatedStream {
            path,
            params,
            state: StreamState::Start,
            pending: VecDeque::new(),
            failure: None,
        }
    }

    /// The resource path every request of this stream goes to.
    pub fn path(&self) -> (r: &String)
        ensures
            r@ == self@.path,
    {
        &self.path
    }

    /// The parameters the stream was made with.
    pub fn params(&self) -> (r: &Vec<(String, String)>)
        ensures
            pairs(r@) == self@.base,
    {
        &self.params
    }

    /// Whether the stream has ended: nothing is left to hand out and no
    /// request will follow.
    pub fn is_done(&self) -> (r: bool)
        ensures
            r == (self@.next_step() is End),
    {
        self.pending.len() == 0 && self.failure.is_none() && matches!(self.state, StreamState::Done)
    }

    /// The next thing to do. Items of the current page come first, in order;
    /// then the error, if the page broke the stream; then either the end or
    /// the request for the next page. Asking again before the page is in
    /// repeats the request.
    pub fn poll(&mut self) -> (r: Step<T>)
        ensures
            r@ == old(self)@.next_step(),
            final(self)@ == old(self)@.after_step(),
    {
        match self.pending.pop_front() {
            Some(record) => {
                assert(self.pending@ =~= old(self).pending@.drop_first());
                return Step::Item(record);
            },
            None => {},
        }
        match self.failure.take() {
            Some(error) => {
                return Step::Fail(error);
            },
            None => {},
        }
        match &self.state {
            StreamState::Done => Step::End,
            StreamState::Start => Step::Fetch(page_params(&self.params, None)),
            StreamState::HasCursor(cursor) => Step::Fetch(page_params(&self.params, Some(cursor))),
        }
    }

    /// Takes in the answer to the page request that `poll` asked for.
    ///
    /// A page that decodes as a whole becomes the pending items, and its last
    /// raw element's `id` becomes the cursor. The empty page ends the stream.
    /// Anything else ends the stream with the error that `poll` hands out
    /// next: a transport failure, a body that is no array, a last element
    /// without a string `id`, or the first element that failed to decode, in
    /// which case no item of the page is handed out. A page that was not
    /// asked for is dropped.
    pub fn receive(&mut self, page: Page<T>)
        ensures
            final(self)@ == old(self)@.after_page(page),
    {
        if self.pending.len() != 0 || self.failure.is_some() || matches!(
            self.state,
            StreamState::Done
        ) {
            return;
        }
        let mut elements = match page {
            Page::Failure(failure) => {
                self.break_off(ManifoldError::HttpError(failure));
                return;
            },
            Page::NotArray(raw) => {
                self.break_off(
                    ManifoldError::SchemaError(
                        "Streaming response returned not an array?".to_owned(),
                        Some(raw),
                    ),
                );
                return;
            },
            Page::Elements(elements) => elements,
        };
        let count = elements.len();
        if count == 0 {
            self.state = StreamState::Done;
            return;
        }
        let cursor = match &elements[count - 1].id {
            Ok(id) => id.clone(),
            Err(found) => {
                self.break_off(
                    ManifoldError::SchemaError("Not a string id?".to_owned(), Some(found.clone())),
                );
                return;
            },
        };
        let mut at: usize = 0;
        while at < count
            invariant
                at <= count == elements@.len(),
                forall|i: int| 0 <= i < at ==> (#[trigger] elements@[i]).item is Ok,
                elements@[count - 1].id is Ok,
                *self == *old(self),
                old(self)@.awaiting(),
                page == Page::Elements(elements),
            decreases count - at,
        {
            match &elements[at].item {
                Ok(_) => {},
                Err(message) => {
                    proof {
                        assert(first_failure_at(elements@, at as int));
                        assert(!all_decoded(elements@));
                        lemma_first_failure(elements@);
                    }
                    self.break_off(
                        ManifoldError::ParseError(message.clone(), elements[at].raw.clone()),
                    );
                    return;
                },
            }
            at += 1;
        }
        assert(all_decoded(elements@));
        let ghost whole = elements@;
        while elements.len() > 0
            invariant
                elements@.len() <= whole.len(),
                elements@ == whole.take(elements@.len() as int),
                self.pending@ == records(whole).skip(elements@.len() as int),
                all_decoded(whole),
                self.path == old(self).path,
                self.params == old(self).params,
                self.state == old(self).state,
                self.failure == old(self).failure,
            decreases elements.len(),
        {
            let element = elements.pop();
            match element {
                Some(Element { item: Ok(record), .. }) => {
                    self.pending.push_front(record);
                },
                _ => {
                    assert(false);
                },
            }
            assert(elements@ =~= whole.take(elements@.len() as int));
            assert(self.pending@ =~= records(whole).skip(elements@.len() as int));
        }
        assert(self.pending@ =~= records(whole));
        self.state = StreamState::HasCursor(cursor);
    }

    /// Ends the stream with `error` as the last thing to hand out.
    fn break_off(&mut self, error: ManifoldError)
        ensures
            final(self)@ == (StreamView {
                state: StateView::Done,
                failure: Some(error@),
                ..old(self)@
            }),
    {
        self.state = StreamState::Done;
        self.failure = Some(error);
    }
}

} // verus!
