//! What a consumer sees when a stream is driven to its end, and what holds of
//! it whatever the transport answers.
//!
//! `run` plays a stream against a script of pages: every `Fetch` is answered
//! with the next page of the script, every other step is handed to the
//! consumer. The theorems below are stated over `run` and over the single-step
//! functions of `StreamView`, which are what `PaginatedStream::poll` and
//! `PaginatedStream::receive` are proved to compute.

use crate::error::{ErrorKind, ErrorView};
use crate::page::{
    all_decoded, decode_error, first_failure_at, lemma_first_failure, not_a_string_id,
    not_an_array, Page, Verdict,
};
use crate::streams::{cursor_free, cursor_param, ParamsView, StepView, StreamView};
use vstd::prelude::*;

verus! {

/// What came of running a stream.
pub ghost struct Transcript<T> {
    /// The parameters of every page request, in the order the requests were
    /// made.
    pub requests: Seq<ParamsView>,
    /// The records handed to the consumer, in order.
    pub items: Seq<T>,
    /// The error handed to the consumer, if there was one.
    pub failure: Option<ErrorView>,
    /// Whether the stream reached its end. It did not if the script ran out
    /// while the stream was waiting for a page.
    pub ended: bool,
}

/// Runs the stream `s` against the pages of `script`.
pub open spec fn run<T>(s: StreamView<T>, script: Seq<Page<T>>) -> Transcript<T>
    decreases script.len(), s.pending.len() + (if s.failure is Some { 1nat } else { 0nat }),
{
    match s.next_step() {
        StepView::Item(record) => {
            let rest = run(s.after_step(), script);
            Transcript { items: seq![record] + rest.items, ..rest }
        },
        StepView::Fail(error) => {
            let rest = run(s.after_step(), script);
            Transcript { failure: Some(error), ..rest }
        },
        StepView::End => Transcript {
            requests: Seq::empty(),
            items: Seq::empty(),
            failure: None,
            ended: true,
        },
        StepView::Fetch(params) => {
            if script.len() == 0 {
                Transcript {
                    requests: seq![params],
                    items: Seq::empty(),
                    failure: None,
                    ended: false,
                }
            } else {
                let rest = run(s.after_page(script[0]), script.drop_first());
                Transcript { requests: seq![params] + rest.requests, ..rest }
            }
        },
    }
}

/// The number of pages at the head of `script` that decode as a whole.
pub open spec fn accepted<T>(script: Seq<Page<T>>) -> nat
    decreases script.len(),
{
    if script.len() == 0 || !(script[0].verdict() is More) {
        0
    } else {
        1 + accepted(script.drop_first())
    }
}

/// The records of the pages at the head of `script` that decode as a whole,
/// page after page.
pub open spec fn accepted_items<T>(script: Seq<Page<T>>) -> Seq<T>
    decreases script.len(),
{
    if script.len() == 0 {
        Seq::empty()
    } else {
        match script[0].verdict() {
            Verdict::More(items, _) => items + accepted_items(script.drop_first()),
            _ => Seq::empty(),
        }
    }
}

/// The number of raw elements in the first `count` pages of `script`.
pub open spec fn element_count<T>(script: Seq<Page<T>>, count: nat) -> nat
    decreases count,
{
    if count == 0 || script.len() == 0 {
        0
    } else {
        (match script[0] {
            Page::Elements(elements) => elements@.len(),
            _ => 0,
        }) + element_count(script.drop_first(), (count - 1) as nat)
    }
}

/// The request that follows a page that decoded as a whole: the base
/// parameters and the `id` of the page's last raw element as the cursor.
pub open spec fn request_after<T>(base: ParamsView, page: Page<T>) -> ParamsView {
    base.push((cursor_param(), page->Elements_0@.last().id->Ok_0@))
}

/// Whether the parts of a stream fit together: an error waits only in a
/// stream that is done, and items wait only in a stream that holds a cursor.
/// Every stream made by `PaginatedStream::new` is coherent and stays so.
pub open spec fn coherent<T>(s: StreamView<T>) -> bool {
    &&& s.failure is Some ==> s.state is Done && s.pending.len() == 0
    &&& s.pending.len() > 0 ==> s.state is HasCursor
}

/// Handing out the pending items first changes nothing but the items.
proof fn lemma_drain<T>(s: StreamView<T>, script: Seq<Page<T>>)
    requires
        s.failure is None,
    ensures
        run(s, script) == (Transcript {
            items: s.pending + run(StreamView { pending: Seq::empty(), ..s }, script).items,
            ..run(StreamView { pending: Seq::empty(), ..s }, script)
        }),
    decreases s.pending.len(),
{
    let drained = StreamView { pending: Seq::empty(), ..s };
    if s.pending.len() == 0 {
        assert(s.pending =~= Seq::<T>::empty());
        assert(s == drained);
        assert(s.pending + run(drained, script).items =~= run(drained, script).items);
    } else {
        let next = s.after_step();
        lemma_drain(next, script);
        assert((StreamView { pending: Seq::<T>::empty(), ..next }) == drained);
        assert(seq![s.pending[0]] + (next.pending + run(drained, script).items) =~= s.pending
            + run(drained, script).items);
    }
}

/// A stream that is done and has nothing left to hand out stays that way.
pub proof fn theorem_done_is_final<T>(s: StreamView<T>, page: Page<T>, script: Seq<Page<T>>)
    requires
        s.state is Done,
        s.pending.len() == 0,
        s.failure is None,
    ensures
        s.next_step() is End,
        s.after_step() == s,
        s.after_page(page) == s,
        run(s, script).requests.len() == 0,
        run(s, script).items.len() == 0,
        run(s, script).failure is None,
        run(s, script).ended,
{
}

/// Coherence holds of a fresh stream and is kept by every step and every
/// page.
pub proof fn theorem_coherent<T>(s: StreamView<T>, page: Page<T>)
    ensures
        coherent(StreamView::<T>::fresh(s.path, s.base)),
        coherent(s) ==> coherent(s.after_step()),
        coherent(s) ==> coherent(s.after_page(page)),
{
    if coherent(s) && s.awaiting() {
        match page.verdict() {
            Verdict::More(items, cursor) => {},
            Verdict::Exhausted => {},
            Verdict::Broken(error) => {},
        }
    }
}

/// An error is the last thing a stream hands out: it comes only when no item
/// is pending, the stream is over right after it, and no request follows.
pub proof fn theorem_error_is_terminal<T>(s: StreamView<T>, script: Seq<Page<T>>)
    requires
        coherent(s),
        s.next_step() is Fail,
    ensures
        s.pending.len() == 0,
        s.after_step().next_step() is End,
        run(s, script) == (Transcript::<T> {
            requests: Seq::empty(),
            items: Seq::empty(),
            failure: s.failure,
            ended: true,
        }),
{
    theorem_done_is_final(s.after_step(), arbitrary(), script);
}

/// The whole run of a stream that is about to fetch, for any script.
///
/// The stream asks once for every page at the head of the script that decodes
/// as a whole, and once more. It hands out the records of exactly those
/// pages, in server order, page after page. Its first request carries the
/// stream's own parameters; every later one carries the base parameters and
/// the `id` of the last raw element of the page before. The page after the
/// accepted ones, if the script has one, ends the stream: cleanly if it is
/// empty, else with its error as the only error.
pub proof fn theorem_run<T>(s: StreamView<T>, script: Seq<Page<T>>)
    requires
        s.awaiting(),
    ensures
        run(s, script).items == accepted_items(script),
        run(s, script).requests.len() == accepted(script) + 1,
        run(s, script).requests[0] == s.request(),
        forall|i: int|
            1 <= i <= accepted(script) ==> #[trigger] run(s, script).requests[i] == request_after(
                s.base,
                script[i - 1],
            ),
        accepted(script) <= script.len(),
        forall|i: int| 0 <= i < accepted(script) ==> (#[trigger] script[i]).verdict() is More,
        accepted(script) < script.len() ==> !(script[accepted(script) as int].verdict() is More),
        run(s, script).ended == (accepted(script) < script.len()),
        run(s, script).failure == if accepted(script) < script.len() {
            match script[accepted(script) as int].verdict() {
                Verdict::Broken(error) => Some(error),
                _ => None,
            }
        } else {
            None
        },
    decreases script.len(),
{
    if script.len() == 0 {
    } else {
        let page = script[0];
        let rest = script.drop_first();
        let next = s.after_page(page);
        match page.verdict() {
            Verdict::More(items, cursor) => {
                let drained = StreamView { pending: Seq::empty(), ..next };
                lemma_drain(next, rest);
                theorem_run(drained, rest);
                let inner = run(drained, rest);
                let outer = run(s, script);
                assert(outer.requests == seq![s.request()] + inner.requests);
                assert(drained.request() == request_after(s.base, page));
                assert forall|i: int| 1 <= i <= accepted(script) implies #[trigger] outer.requests[i]
                    == request_after(s.base, script[i - 1]) by {
                    if i == 1 {
                        assert(outer.requests[1] == inner.requests[0]);
                    } else {
                        assert(outer.requests[i] == inner.requests[i - 1]);
                        assert(rest[i - 2] == script[i - 1]);
                    }
                }
                assert forall|i: int| 0 <= i < accepted(script) implies (#[trigger] script[i]).verdict() is More by {
                    if i > 0 {
                        assert(rest[i - 1] == script[i]);
                    }
                }
                if accepted(script) < script.len() {
                    assert(rest[accepted(rest) as int] == script[accepted(script) as int]);
                }
            },
            Verdict::Exhausted => {
                theorem_done_is_final(next, page, rest);
            },
            Verdict::Broken(error) => {
                theorem_coherent(s, page);
                theorem_error_is_terminal(next, rest);
            },
        }
    }
}

/// The pages at the head of a script that decode as a whole are counted by
/// `accepted`, and their records are as many as their raw elements.
proof fn lemma_accepted<T>(script: Seq<Page<T>>, count: nat)
    requires
        count <= script.len(),
        forall|i: int| 0 <= i < count ==> (#[trigger] script[i]).verdict() is More,
        count < script.len() ==> !(script[count as int].verdict() is More),
    ensures
        accepted(script) == count,
        accepted_items(script).len() == element_count(script, count),
    decreases count,
{
    if count == 0 {
    } else {
        let rest = script.drop_first();
        assert(script[0].verdict() is More);
        assert forall|i: int| 0 <= i < count - 1 implies (#[trigger] rest[i]).verdict() is More by {
            assert(rest[i] == script[i + 1]);
        }
        if count < script.len() {
            assert(rest[count - 1] == script[count as int]);
        }
        lemma_accepted(rest, (count - 1) as nat);
    }
}

/// Termination. Against a transport that answers with `count` pages that
/// decode as a whole and then with an empty page, the stream hands out one
/// record for every raw element of those pages, in order, and ends without an
/// error after `count + 1` requests.
pub proof fn theorem_termination<T>(s: StreamView<T>, script: Seq<Page<T>>, count: nat)
    requires
        s.awaiting(),
        script.len() == count + 1,
        forall|i: int| 0 <= i < count ==> (#[trigger] script[i]).verdict() is More,
        script[count as int].verdict() is Exhausted,
    ensures
        run(s, script).items == accepted_items(script),
        run(s, script).items.len() == element_count(script, count),
        run(s, script).failure is None,
        run(s, script).ended,
        run(s, script).requests.len() == count + 1,
{
    lemma_accepted(script, count);
    theorem_run(s, script);
}

/// Cursor propagation. The first request of a fresh stream carries the base
/// parameters alone. Every later request was preceded by a page with a last
/// raw element whose `id` is a string, and carries the base parameters
/// followed by that `id`, verbatim, under the name `before`.
pub proof fn theorem_cursor_propagation<T>(
    path: Seq<char>,
    base: ParamsView,
    script: Seq<Page<T>>,
    i: int,
)
    requires
        0 <= i < run(StreamView::<T>::fresh(path, base), script).requests.len(),
    ensures
        i == 0 ==> run(StreamView::<T>::fresh(path, base), script).requests[i] == base,
        i > 0 ==> {
            &&& i - 1 < script.len()
            &&& script[i - 1] matches Page::Elements(elements)
            &&& elements@.len() > 0
            &&& elements@.last().id matches Ok(id)
            &&& run(StreamView::<T>::fresh(path, base), script).requests[i] == base.push(
                (cursor_param(), id@),
            )
        },
{
    theorem_run(StreamView::<T>::fresh(path, base), script);
    if i > 0 {
        assert(script[i - 1].verdict() is More);
    }
}

/// Ordering. Whatever the transport answers, the records handed out are the
/// records of the pages that decoded as a whole, each page in the order of its
/// raw elements, the pages in the order they were received.
pub proof fn theorem_ordering<T>(s: StreamView<T>, script: Seq<Page<T>>)
    requires
        s.awaiting(),
    ensures
        run(s, script).items == accepted_items(script),
        forall|i: int|
            0 <= i < script.len() && (#[trigger] script[i]).verdict() is More ==> {
                &&& script[i] matches Page::Elements(elements)
                &&& script[i].verdict()->More_0.len() == elements@.len()
                &&& forall|j: int|
                    0 <= j < elements@.len() ==> script[i].verdict()->More_0[j] == (
                    #[trigger] elements@[j]).item->Ok_0
            },
{
    theorem_run(s, script);
}

/// An empty first page. A stream whose first page is empty hands out nothing,
/// reports no error and ends after its one request.
pub proof fn theorem_empty_first_page<T>(s: StreamView<T>, script: Seq<Page<T>>)
    requires
        s.awaiting(),
        script.len() > 0,
        script[0] matches Page::Elements(elements) && elements@.len() == 0,
    ensures
        run(s, script).items.len() == 0,
        run(s, script).failure is None,
        run(s, script).ended,
        run(s, script).requests.len() == 1,
{
    theorem_run(s, script);
}

/// A decode failure breaks the whole page. Where the last raw element of a
/// page has its `id` and some element fails to decode, the stream hands out
/// no record of that page, not even those before the failure. It hands out
/// one decode error, which carries the first offending raw value, and makes no
/// further request.
pub proof fn theorem_decode_failure<T>(s: StreamView<T>, script: Seq<Page<T>>, at: int)
    requires
        s.awaiting(),
        script.len() > 0,
        script[0] matches Page::Elements(elements) && elements@.last().id is Ok
            && first_failure_at(elements@, at),
    ensures
        s.after_page(script[0]).pending.len() == 0,
        run(s, script).items.len() == 0,
        run(s, script).failure == Some(decode_error(script[0]->Elements_0@, at)),
        run(s, script).failure->Some_0.kind() == ErrorKind::Decode,
        run(s, script).ended,
        run(s, script).requests.len() == 1,
{
    let elements = script[0]->Elements_0@;
    assert(!all_decoded(elements));
    lemma_first_failure(elements);
    theorem_run(s, script);
}

/// A missing `id`. A non-empty page whose last raw element has no string `id`
/// makes the stream hand out exactly one schema error and no record, and no
/// further request is made, whatever the elements decode into.
pub proof fn theorem_missing_id<T>(s: StreamView<T>, script: Seq<Page<T>>)
    requires
        s.awaiting(),
        script.len() > 0,
        script[0] matches Page::Elements(elements) && elements@.len() > 0
            && elements@.last().id is Err,
    ensures
        run(s, script).items.len() == 0,
        run(s, script).failure == Some(
            ErrorView::SchemaError(
                not_a_string_id(),
                Some(script[0]->Elements_0@.last().id->Err_0),
            ),
        ),
        run(s, script).failure->Some_0.kind() == ErrorKind::SchemaViolation,
        run(s, script).ended,
        run(s, script).requests.len() == 1,
{
    theorem_run(s, script);
}

/// A response that is no array. It makes the stream hand out exactly one
/// schema error before any record, and no further request is made.
pub proof fn theorem_not_an_array<T>(s: StreamView<T>, script: Seq<Page<T>>)
    requires
        s.awaiting(),
        script.len() > 0,
        script[0] is NotArray,
    ensures
        run(s, script).items.len() == 0,
        run(s, script).failure == Some(
            ErrorView::SchemaError(not_an_array(), Some(script[0]->NotArray_0)),
        ),
        run(s, script).failure->Some_0.kind() == ErrorKind::SchemaViolation,
        run(s, script).ended,
        run(s, script).requests.len() == 1,
{
    theorem_run(s, script);
}

/// A transport failure. It is handed out as the one error of the stream, and
/// the stream does not ask again.
pub proof fn theorem_transport_failure<T>(s: StreamView<T>, script: Seq<Page<T>>)
    requires
        s.awaiting(),
        script.len() > 0,
        script[0] is Failure,
    ensures
        run(s, script).items.len() == 0,
        run(s, script).failure == Some(ErrorView::HttpError(script[0]->Failure_0@)),
        run(s, script).failure->Some_0.kind() == ErrorKind::Transport,
        run(s, script).ended,
        run(s, script).requests.len() == 1,
{
    theorem_run(s, script);
}

/// The base parameters are never touched. No step and no page changes them,
/// so every request of a stream is made of the parameters the stream was
/// given, followed by at most one more, the cursor, which comes from the
/// stream's own last page. Two streams made from the same parameters
/// therefore never see each other's cursor, however their steps interleave.
pub proof fn theorem_base_is_kept<T>(s: StreamView<T>, page: Page<T>, script: Seq<Page<T>>, i: int)
    requires
        s.awaiting(),
        0 <= i < run(s, script).requests.len(),
    ensures
        s.after_step().base == s.base,
        s.after_page(page).base == s.base,
        s.request().take(s.base.len() as int) == s.base,
        run(s, script).requests[i].take(s.base.len() as int) == s.base,
        run(s, script).requests[i].len() <= s.base.len() + 1,
        run(s, script).requests[i].len() == s.base.len() + 1 ==> run(s, script).requests[i].last().0
            == cursor_param(),
{
    theorem_run(s, script);
    assert(s.request().take(s.base.len() as int) =~= s.base);
    if i > 0 {
        assert(run(s, script).requests[i] == request_after(s.base, script[i - 1]));
        assert(run(s, script).requests[i].take(s.base.len() as int) =~= s.base);
    }
}

/// One cursor at most. Where the base parameters leave the name `before`
/// alone, the first request of a fresh stream has no parameter of that name,
/// and every later request has exactly one, its last.
pub proof fn theorem_one_cursor<T>(path: Seq<char>, base: ParamsView, script: Seq<Page<T>>, i: int)
    requires
        cursor_free(base),
        0 <= i < run(StreamView::<T>::fresh(path, base), script).requests.len(),
    ensures
        i == 0 ==> cursor_free(run(StreamView::<T>::fresh(path, base), script).requests[i]),
        i > 0 ==> {
            &&& run(StreamView::<T>::fresh(path, base), script).requests[i].len() == base.len() + 1
            &&& run(StreamView::<T>::fresh(path, base), script).requests[i].last().0
                == cursor_param()
            &&& cursor_free(run(StreamView::<T>::fresh(path, base), script).requests[i].drop_last())
        },
{
    let request = run(StreamView::<T>::fresh(path, base), script).requests[i];
    theorem_run(StreamView::<T>::fresh(path, base), script);
    if i > 0 {
        assert(request == request_after(base, script[i - 1]));
        assert(request.drop_last() =~= base);
    }
}

} // verus!
