use crate::http_request::HttpRequest;
use crate::report::{error_message, outcome_report, shown_body, status_report};
use crate::dispatch::DispatchError;
use vstd::prelude::*;

verus! {

/// The state of the request tool between redraws: the request being edited,
/// whether a call is outstanding, the last response text, and the snapshot
/// waiting to be dispatched.
#[derive(Debug)]
pub struct HostMan {
    pub request: HttpRequest,
    pub is_loading: bool,
    pub response: String,
    pub pending_request: Option<HttpRequest>,
}

/// The effect of pressing Send: when idle, start loading, stage a snapshot
/// of the request and clear the shown response, which belonged to the last
/// request; while loading, nothing.
pub open spec fn sent(before: HostMan, after: HostMan) -> bool {
    if before.is_loading {
        after == before
    } else {
        &&& after.is_loading
        &&& after.pending_request matches Some(p) && p.same_content(&before.request)
        &&& after.request == before.request
        &&& after.response@ == Seq::<char>::empty()
    }
}

/// The effect of looking at the response slot on a redraw: the slot's text
/// becomes the shown response, and loading ends once that text is non-empty.
pub open spec fn polled(before: HostMan, after: HostMan, slot: Seq<char>) -> bool {
    &&& after.response@ == slot
    &&& after.is_loading == (before.is_loading && slot.len() == 0)
    &&& after.request == before.request
    &&& after.pending_request == before.pending_request
}

impl HostMan {
    /// A fresh session: the initial request, idle, empty response, nothing staged.
    pub fn new() -> (r: HostMan)
        ensures
            r.request.is_initial(),
            !r.is_loading,
            r.response@ == Seq::<char>::empty(),
            r.pending_request.is_none(),
    {
        HostMan {
            request: HttpRequest::default(),
            is_loading: false,
            response: String::new(),
            pending_request: None,
        }
    }

    /// Presses Send. Returns whether a snapshot was staged; when it was, the
    /// response slot that the new dispatch will write must be emptied before
    /// the next poll, so that the last request's text does not end loading.
    pub fn send_request(&mut self) -> (staged: bool)
        ensures
            sent(*old(self), *final(self)),
            staged == !old(self).is_loading,
    {
        if !self.is_loading {
            self.is_loading = true;
            self.pending_request = Some(self.request.snapshot());
            self.response = String::new();
            true
        } else {
            false
        }
    }

    /// Hands over the staged snapshot, if any, to be dispatched; nothing stays staged.
    pub fn check_pending_request(&mut self) -> (r: Option<HttpRequest>)
        ensures
            r == old(self).pending_request,
            final(self).pending_request.is_none(),
            final(self).request == old(self).request,
            final(self).is_loading == old(self).is_loading,
            final(self).response == old(self).response,
    {
        self.pending_request.take()
    }

    /// Looks at the shared response slot on a redraw.
    pub fn poll_response(&mut self, slot: &str)
        ensures
            polled(*old(self), *final(self), slot@),
    {
        self.response = slot.to_owned();
        if self.is_loading && !slot.is_empty() {
            self.is_loading = false;
        }
    }
}

/// Send while idle starts loading and stages one snapshot of the request;
/// a second Send while loading changes nothing, so one request stays staged.
pub proof fn lemma_send_is_guarded(first: HostMan, second: HostMan, third: HostMan)
    requires
        !first.is_loading,
        sent(first, second),
        sent(second, third),
    ensures
        second.is_loading,
        second.pending_request matches Some(p) && p.same_content(&first.request),
        third == second,
{
}

/// While the slot that a dispatch writes is still empty, loading stays on
/// after a redraw, and a further Send is ignored: at most one request is
/// staged or in flight.
pub proof fn lemma_one_request_at_a_time(
    first: HostMan,
    second: HostMan,
    third: HostMan,
    fourth: HostMan,
    slot: Seq<char>,
)
    requires
        !first.is_loading,
        sent(first, second),
        polled(second, third, slot),
        slot.len() == 0,
        sent(third, fourth),
    ensures
        third.is_loading,
        third.response@.len() == 0,
        fourth == third,
{
}

/// Whatever later edits make of the request, the staged snapshot keeps the
/// content the request had when Send was pressed.
pub proof fn lemma_snapshot_survives_edits(before: HostMan, after: HostMan, edited: HttpRequest)
    requires
        !before.is_loading,
        sent(before, after),
    ensures
        (HostMan { request: edited, ..after }).pending_request matches Some(p) && p.same_content(
            &before.request,
        ),
{
}

/// Once a dispatch has resolved, with a response or with an error, its text
/// is non-empty, so the next redraw that sees it ends loading and shows it;
/// a completed call, whatever its status, is shown as such and not as an error.
pub proof fn lemma_resolved_dispatch_ends_loading(
    before: HostMan,
    after: HostMan,
    outcome: Result<(u16, String), DispatchError>,
)
    requires
        polled(before, after, outcome_report(outcome)),
    ensures
        !after.is_loading,
        after.response@.len() > 0,
        outcome matches Ok((status, body)) ==> after.response@ == status_report(
            status,
            shown_body(body@),
        ) && after.response@[0] == 'S',
        outcome matches Err(e) ==> after.response@ == "Error: "@ + error_message(e),
{
    reveal_strlit("Status ");
    reveal_strlit("Error: ");
    match outcome {
        Ok((status, body)) => {
            assert(status_report(status, shown_body(body@))[0] == 'S');
        },
        Err(e) => {
            assert(outcome_report(outcome)[0] == 'E');
        },
    }
}

} // verus!
