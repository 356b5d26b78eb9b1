use vstd::prelude::*;
use vstd::string::*;

use crate::clients::{ProxmoxRequest, ProxmoxRequestView};
use crate::response::{error_body, error_response, HttpResponse, HttpResponseView};
use crate::text::concat3;

verus! {

/// What a failed call means for the rest of its plan.
pub enum OnFailure {
    /// The failure is left aside.
    Ignore,
    /// The failure is reported under this context, and the plan goes on.
    Report(String),
    /// The plan stops, and the answer is an error under this context.
    Abort(String),
}

/// The value of an [`OnFailure`].
pub enum OnFailureView {
    Ignore,
    Report(Seq<char>),
    Abort(Seq<char>),
}

impl View for OnFailure {
    type V = OnFailureView;

    open spec fn view(&self) -> OnFailureView {
        match self {
            OnFailure::Ignore => OnFailureView::Ignore,
            OnFailure::Report(c) => OnFailureView::Report(c@),
            OnFailure::Abort(c) => OnFailureView::Abort(c@),
        }
    }
}

/// A Proxmox call of a plan, and what its failure means.
pub struct PlannedCall {
    pub request: ProxmoxRequest,
    pub on_failure: OnFailure,
}

/// The value of a [`PlannedCall`].
pub struct PlannedCallView {
    pub request: ProxmoxRequestView,
    pub on_failure: OnFailureView,
}

impl View for PlannedCall {
    type V = PlannedCallView;

    open spec fn view(&self) -> PlannedCallView {
        PlannedCallView { request: self.request@, on_failure: self.on_failure@ }
    }
}

/// The values of the calls of a plan.
pub open spec fn calls_view(v: Seq<PlannedCall>) -> Seq<PlannedCallView> {
    v.map_values(|c: PlannedCall| c@)
}

/// The outcomes of calls: nothing for success, the error's text for a failure.
pub open spec fn failures_view(v: Seq<Option<String>>) -> Seq<Option<Seq<char>>> {
    v.map_values(|o: Option<String>|
        match o {
            Some(e) => Some(e@),
            None => None,
        })
}

/// The call `k` failed and stops its plan.
pub open spec fn aborts_at(calls: Seq<PlannedCallView>, outcomes: Seq<Option<Seq<char>>>, k: int) -> bool {
    0 <= k < outcomes.len() && k < calls.len() && outcomes[k] is Some && calls[k].on_failure is Abort
}

/// The run of a plan: its calls are made in order, each outcome is recorded, and the run stops
/// after the last call or after a failed call that aborts.
pub struct PlanRun {
    calls: Vec<PlannedCall>,
    outcomes: Vec<Option<String>>,
}

/// The message of a failure under a context: `<context>: <error>`.
pub open spec fn failure_message(context: Seq<char>, error: Seq<char>) -> Seq<char> {
    context + ": "@ + error
}

impl PlanRun {
    /// The calls of the plan.
    pub closed spec fn planned(&self) -> Seq<PlannedCallView> {
        calls_view(self.calls@)
    }

    /// The outcomes of the calls made so far, in order.
    pub closed spec fn failures(&self) -> Seq<Option<Seq<char>>> {
        failures_view(self.outcomes@)
    }

    /// The run made the first calls in order, and none of them but the last aborted it.
    pub open spec fn wf(&self) -> bool {
        &&& self.failures().len() <= self.planned().len()
        &&& forall|k: int| 0 <= k < self.failures().len() - 1 ==> !aborts_at(self.planned(), self.failures(), k)
    }

    /// The last call made aborted the run.
    pub open spec fn aborted(&self) -> bool {
        self.failures().len() > 0 && aborts_at(self.planned(), self.failures(), self.failures().len() - 1)
    }

    /// No call is left to make.
    pub open spec fn done(&self) -> bool {
        self.failures().len() == self.planned().len() || self.aborted()
    }

    /// A run of `calls` that has made none yet.
    pub fn new(calls: Vec<PlannedCall>) -> (r: PlanRun)
        ensures
            r.wf(),
            r.planned() == calls_view(calls@),
            r.failures().len() == 0,
    {
        PlanRun { calls, outcomes: Vec::new() }
    }

    /// How many calls were made.
    pub fn calls_made(&self) -> (r: usize)
        ensures
            r == self.failures().len(),
    {
        self.outcomes.len()
    }

    /// How many calls the plan has.
    pub fn call_count(&self) -> (r: usize)
        ensures
            r == self.planned().len(),
    {
        self.calls.len()
    }

    /// The next call to make, while the run goes on.
    pub fn next_call(&self) -> (r: Option<&ProxmoxRequest>)
        requires
            self.wf(),
        ensures
            self.done() ==> r is None,
            !self.done() ==> (r matches Some(q) && q@ == self.planned()[self.failures().len() as int].request),
    {
        if self.outcomes.len() < self.calls.len() {
            if self.outcomes.len() > 0 {
                let k = self.outcomes.len() - 1;
                let failed = self.outcomes[k].is_some();
                let aborts = match &self.calls[k].on_failure {
                    OnFailure::Abort(_) => true,
                    _ => false,
                };
                if failed && aborts {
                    return None;
                }
            }
            Some(&self.calls[self.outcomes.len()].request)
        } else {
            None
        }
    }

    /// Records the outcome of the call made.
    pub fn record(&mut self, outcome: Option<String>)
        requires
            old(self).wf(),
            !old(self).done(),
        ensures
            final(self).wf(),
            final(self).planned() == old(self).planned(),
            final(self).failures() == old(self).failures().push(
                match outcome {
                    Some(e) => Some(e@),
                    None => None,
                },
            ),
    {
        let ghost before = failures_view(self.outcomes@);
        let ghost cv = calls_view(self.calls@);
        assert(forall|k: int| 0 <= k < before.len() ==> !aborts_at(cv, before, k));
        self.outcomes.push(outcome);
        assert(failures_view(self.outcomes@).take(before.len() as int) =~= before);
        assert forall|k: int| 0 <= k < self.outcomes.len() - 1 implies !aborts_at(
            calls_view(self.calls@),
            failures_view(self.outcomes@),
            k,
        ) by {
            assert(failures_view(self.outcomes@)[k] == before[k]);
            assert(!aborts_at(cv, before, k));
        }
    }

    /// The error answer of a run that a failed call aborted: status 500 and the message
    /// `<context>: <error>`.
    pub fn abort_response(&self) -> (r: Option<HttpResponse>)
        requires
            self.wf(),
        ensures
            !self.aborted() ==> r is None,
            self.aborted() ==> (r matches Some(resp) && ({
                let k = self.failures().len() - 1;
                resp@ == (HttpResponseView {
                    status: 500,
                    body: Some(error_body(failure_message(
                        self.planned()[k].on_failure->Abort_0,
                        self.failures()[k]->Some_0,
                    ))),
                })
            })),
    {
        if self.outcomes.len() == 0 || self.outcomes.len() > self.calls.len() {
            return None;
        }
        let k = self.outcomes.len() - 1;
        match &self.outcomes[k] {
            Some(e) => match &self.calls[k].on_failure {
                OnFailure::Abort(context) => {
                    let message = concat3(context.as_str(), ": ", e.as_str());
                    proof {
                        reveal_strlit("");
                    }
                    let r = error_response(500, message.as_str(), "");
                    assert(message@ + ""@ =~= message@);
                    Some(r)
                },
                _ => None,
            },
            None => None,
        }
    }
}

/// The messages of the failed calls that report, in the order of the calls.
pub open spec fn reported_failures(calls: Seq<PlannedCallView>, outcomes: Seq<Option<Seq<char>>>) -> Seq<Seq<char>>
    decreases outcomes.len(),
{
    if outcomes.len() == 0 {
        Seq::empty()
    } else {
        let k = outcomes.len() - 1;
        let rest = reported_failures(calls, outcomes.drop_last());
        if k < calls.len() && outcomes[k] is Some && calls[k].on_failure is Report {
            rest.push(failure_message(calls[k].on_failure->Report_0, outcomes[k]->Some_0))
        } else {
            rest
        }
    }
}

/// A failed call whose failure is reported shows up among the reported failures, under its
/// context and with its error.
pub proof fn lemma_failed_reporting_call_is_reported(calls: Seq<PlannedCallView>, outcomes: Seq<Option<Seq<char>>>, k: int)
    requires
        0 <= k < outcomes.len(),
        k < calls.len(),
        outcomes[k] is Some,
        calls[k].on_failure is Report,
    ensures
        reported_failures(calls, outcomes).contains(failure_message(calls[k].on_failure->Report_0, outcomes[k]->Some_0)),
    decreases outcomes.len(),
{
    let m = failure_message(calls[k].on_failure->Report_0, outcomes[k]->Some_0);
    let rest = reported_failures(calls, outcomes.drop_last());
    let all = reported_failures(calls, outcomes);
    if k == outcomes.len() - 1 {
        assert(all == rest.push(m));
        assert(all[rest.len() as int] == m);
    } else {
        assert(outcomes.drop_last()[k] == outcomes[k]);
        lemma_failed_reporting_call_is_reported(calls, outcomes.drop_last(), k);
        let i = choose|i: int| 0 <= i < rest.len() && rest[i] == m;
        assert(all.len() >= rest.len());
        assert(all[i] == rest[i]);
    }
}

impl PlanRun {
    /// The messages of the failed calls that report, in the order of the calls.
    pub fn reports(&self) -> (r: Vec<String>)
        requires
            self.wf(),
        ensures
            crate::text::views(r@) == reported_failures(self.planned(), self.failures()),
    {
        let ghost cv = calls_view(self.calls@);
        let ghost ov = failures_view(self.outcomes@);
        let mut r: Vec<String> = Vec::new();
        let mut i: usize = 0;
        while i < self.outcomes.len()
            invariant
                i <= self.outcomes.len() <= self.calls.len(),
                cv == calls_view(self.calls@),
                ov == failures_view(self.outcomes@),
                crate::text::views(r@) == reported_failures(cv, ov.take(i as int)),
            decreases self.outcomes.len() - i,
        {
            assert(ov.take(i + 1).drop_last() =~= ov.take(i as int));
            assert(ov.take(i + 1)[i as int] == ov[i as int]);
            match &self.outcomes[i] {
                Some(e) => match &self.calls[i].on_failure {
                    OnFailure::Report(context) => {
                        let message = concat3(context.as_str(), ": ", e.as_str());
                        r.push(message);
                        assert(crate::text::views(r@) =~= reported_failures(cv, ov.take(i as int)).push(
                            failure_message(cv[i as int].on_failure->Report_0, ov[i as int]->Some_0),
                        ));
                    },
                    _ => {},
                },
                None => {},
            }
            i = i + 1;
        }
        assert(ov.take(self.outcomes.len() as int) =~= ov);
        r
    }
}

} // verus!
