//! Counting of reconciliation runs and failures, each under a label set
//! naming the resource kind and instance.
//!
//! What is decided here is which label set each observation is recorded
//! under and how its counter grows; the duration histogram, with its
//! exemplars and buckets, lives with the external metrics collaborator.
use vstd::prelude::*;
use crate::Error;

verus! {

/// Label set of the run counter and the duration histogram.
#[derive(Clone, Debug)]
pub struct ReconcileLabels {
    pub api_version: String,
    pub api_kind: String,
    pub trace_id: String,
}

/// Label set of the failure counter.
#[derive(Clone, Debug)]
pub struct ErrorLabels {
    pub api_version: String,
    pub api_kind: String,
    pub instance: String,
    pub error: String,
}

/// The key under which one run label set is counted.
pub open spec fn spec_run_key(l: &ReconcileLabels) -> (Seq<char>, Seq<char>, Seq<char>) {
    (l.api_version@, l.api_kind@, l.trace_id@)
}

/// The key under which one failure label set is counted.
pub open spec fn spec_error_key(l: &ErrorLabels) -> (Seq<char>, Seq<char>, Seq<char>, Seq<char>) {
    (l.api_version@, l.api_kind@, l.instance@, l.error@)
}

/// A count one step higher, stopping at the counter's ceiling.
pub open spec fn spec_saturating_inc(c: u64) -> u64 {
    if c == u64::MAX {
        c
    } else {
        (c + 1) as u64
    }
}

/// The reconciliation counters: runs and failures, each a family of
/// monotone counters keyed by a label set. The duration histogram lives
/// with the external metrics collaborator; only the counting is decided
/// here.
pub struct ReconcileMetrics {
    run_labels: Vec<ReconcileLabels>,
    run_counts: Vec<u64>,
    failure_labels: Vec<ErrorLabels>,
    failure_counts: Vec<u64>,
}

impl ReconcileMetrics {
    /// The label sets under which runs were counted, first use first.
    pub closed spec fn runs_view(&self) -> Seq<ReconcileLabels> {
        self.run_labels@
    }

    /// The run counts, positionally matching `runs_view`.
    pub closed spec fn run_counts_view(&self) -> Seq<u64> {
        self.run_counts@
    }

    /// The label sets under which failures were counted, first use first.
    pub closed spec fn failures_view(&self) -> Seq<ErrorLabels> {
        self.failure_labels@
    }

    /// The failure counts, positionally matching `failures_view`.
    pub closed spec fn failure_counts_view(&self) -> Seq<u64> {
        self.failure_counts@
    }

    /// Counts and labels line up, and every label set has one counter.
    pub open spec fn well_formed(&self) -> bool {
        &&& self.runs_view().len() == self.run_counts_view().len()
        &&& self.failures_view().len() == self.failure_counts_view().len()
        &&& forall|i: int, j: int|
            0 <= i < j < self.runs_view().len() ==> spec_run_key(&self.runs_view()[i])
                != spec_run_key(&self.runs_view()[j])
        &&& forall|i: int, j: int|
            0 <= i < j < self.failures_view().len() ==> spec_error_key(&self.failures_view()[i])
                != spec_error_key(&self.failures_view()[j])
    }

    /// Whether some run was already counted under this key.
    pub open spec fn spec_contains_run(&self, key: (Seq<char>, Seq<char>, Seq<char>)) -> bool {
        exists|i: int| 0 <= i < self.runs_view().len() && spec_run_key(&self.runs_view()[i]) == key
    }

    /// Whether some failure was already counted under this key.
    pub open spec fn spec_contains_failure(
        &self,
        key: (Seq<char>, Seq<char>, Seq<char>, Seq<char>),
    ) -> bool {
        exists|i: int|
            0 <= i < self.failures_view().len() && spec_error_key(&self.failures_view()[i]) == key
    }

    pub fn new() -> (r: ReconcileMetrics)
        ensures
            r.runs_view() == Seq::<ReconcileLabels>::empty(),
            r.failures_view() == Seq::<ErrorLabels>::empty(),
            r.well_formed(),
    {
        ReconcileMetrics {
            run_labels: Vec::new(),
            run_counts: Vec::new(),
            failure_labels: Vec::new(),
            failure_counts: Vec::new(),
        }
    }

    fn find_run(&self, labels: &ReconcileLabels) -> (r: Option<usize>)
        ensures
            r is Some <==> self.spec_contains_run(spec_run_key(labels)),
            r matches Some(i) ==> 0 <= i < self.runs_view().len() && spec_run_key(
                &self.runs_view()[i as int],
            ) == spec_run_key(labels),
    {
        let mut i: usize = 0;
        while i < self.run_labels.len()
            invariant
                0 <= i <= self.run_labels.len(),
                forall|j: int|
                    0 <= j < i ==> spec_run_key(&self.runs_view()[j]) != spec_run_key(labels),
            decreases self.run_labels.len() - i,
        {
            let l = &self.run_labels[i];
            if l.api_version.eq(&labels.api_version) && l.api_kind.eq(&labels.api_kind)
                && l.trace_id.eq(&labels.trace_id) {
                assert(spec_run_key(&self.runs_view()[i as int]) == spec_run_key(labels));
                return Some(i);
            }
            i += 1;
        }
        None
    }

    fn find_failure(&self, labels: &ErrorLabels) -> (r: Option<usize>)
        ensures
            r is Some <==> self.spec_contains_failure(spec_error_key(labels)),
            r matches Some(i) ==> 0 <= i < self.failures_view().len() && spec_error_key(
                &self.failures_view()[i as int],
            ) == spec_error_key(labels),
    {
        let mut i: usize = 0;
        while i < self.failure_labels.len()
            invariant
                0 <= i <= self.failure_labels.len(),
                forall|j: int|
                    0 <= j < i ==> spec_error_key(&self.failures_view()[j]) != spec_error_key(
                        labels,
                    ),
            decreases self.failure_labels.len() - i,
        {
            let l = &self.failure_labels[i];
            if l.api_version.eq(&labels.api_version) && l.api_kind.eq(&labels.api_kind)
                && l.instance.eq(&labels.instance) && l.error.eq(&labels.error) {
                assert(spec_error_key(&self.failures_view()[i as int]) == spec_error_key(labels));
                return Some(i);
            }
            i += 1;
        }
        None
    }

    /// Counts one reconciliation run under its label set: the counter under
    /// an already seen key grows by one (stopping at its ceiling), a fresh
    /// key starts at one.
    pub fn count_run(&mut self, labels: ReconcileLabels)
        requires
            old(self).well_formed(),
        ensures
            final(self).well_formed(),
            !old(self).spec_contains_run(spec_run_key(&labels)) ==> final(self).runs_view() == old(self).runs_view().push(labels) && final(self).run_counts_view() == old(self).run_counts_view().push(1u64),
            old(self).spec_contains_run(spec_run_key(&labels)) ==> final(self).runs_view() == old(self).runs_view() && exists|i: int|
                0 <= i < old(self).runs_view().len() && spec_run_key(
                    &old(self).runs_view()[i],
                ) == spec_run_key(&labels) && final(self).run_counts_view() == old(self).run_counts_view().update(i, spec_saturating_inc(old(self).run_counts_view()[i])),
    {
        match self.find_run(&labels) {
            Some(i) => {
                let c = self.run_counts[i];
                let next = if c == u64::MAX {
                    c
                } else {
                    c + 1
                };
                self.run_counts.set(i, next);
                assert(self.run_counts@ =~= old(self).run_counts_view().update(
                    i as int,
                    spec_saturating_inc(old(self).run_counts_view()[i as int]),
                ));
            },
            None => {
                self.run_labels.push(labels);
                self.run_counts.push(1);
            },
        }
    }

    /// Counts one failure under its label set, as `count_run` does for
    /// runs.
    pub fn set_failure(&mut self, labels: ErrorLabels)
        requires
            old(self).well_formed(),
        ensures
            final(self).well_formed(),
            !old(self).spec_contains_failure(spec_error_key(&labels)) ==> final(self).failures_view() == old(self).failures_view().push(labels) && final(self).failure_counts_view() == old(self).failure_counts_view().push(1u64),
            old(self).spec_contains_failure(spec_error_key(&labels)) ==> final(self).failures_view() == old(self).failures_view() && exists|i: int|
                0 <= i < old(self).failures_view().len() && spec_error_key(
                    &old(self).failures_view()[i],
                ) == spec_error_key(&labels) && final(self).failure_counts_view() == old(self).failure_counts_view().update(
                    i,
                    spec_saturating_inc(old(self).failure_counts_view()[i]),
                ),
    {
        match self.find_failure(&labels) {
            Some(i) => {
                let c = self.failure_counts[i];
                let next = if c == u64::MAX {
                    c
                } else {
                    c + 1
                };
                self.failure_counts.set(i, next);
                assert(self.failure_counts@ =~= old(self).failure_counts_view().update(
                    i as int,
                    spec_saturating_inc(old(self).failure_counts_view()[i as int]),
                ));
            },
            None => {
                self.failure_labels.push(labels);
                self.failure_counts.push(1);
            },
        }
    }

    /// The failure count under this label set; zero when the key was never
    /// counted.
    pub fn failure_count(&self, labels: &ErrorLabels) -> (r: u64)
        requires
            self.well_formed(),
        ensures
            self.spec_contains_failure(spec_error_key(labels)) ==> exists|i: int|
                0 <= i < self.failures_view().len() && spec_error_key(
                    &self.failures_view()[i],
                ) == spec_error_key(labels) && r == self.failure_counts_view()[i],
            !self.spec_contains_failure(spec_error_key(labels)) ==> r == 0,
    {
        match self.find_failure(labels) {
            Some(i) => self.failure_counts[i],
            None => 0,
        }
    }

    /// The run count under this label set; zero when the key was never
    /// counted.
    pub fn run_count(&self, labels: &ReconcileLabels) -> (r: u64)
        requires
            self.well_formed(),
        ensures
            self.spec_contains_run(spec_run_key(labels)) ==> exists|i: int|
                0 <= i < self.runs_view().len() && spec_run_key(&self.runs_view()[i])
                    == spec_run_key(labels) && r == self.run_counts_view()[i],
            !self.spec_contains_run(spec_run_key(labels)) ==> r == 0,
    {
        match self.find_run(labels) {
            Some(i) => self.run_counts[i],
            None => 0,
        }
    }
}

/// Builds the label set one reconciliation run is counted under.
pub fn reconcile_labels(api_version: String, api_kind: String, trace_id: String) -> (r:
    ReconcileLabels)
    ensures
        r.api_version@ == api_version@,
        r.api_kind@ == api_kind@,
        r.trace_id@ == trace_id@,
{
    ReconcileLabels { api_version, api_kind, trace_id }
}

/// Builds the label set one failure is counted under: the resource kind and
/// instance, and the failed attempt's error label.
pub fn error_labels(api_version: String, api_kind: String, instance: String, e: &Error) -> (r:
    ErrorLabels)
    ensures
        r.api_version@ == api_version@,
        r.api_kind@ == api_kind@,
        r.instance@ == instance@,
        r.error@ == e.spec_metric_label(),
{
    ErrorLabels { api_version, api_kind, instance, error: e.metric_label() }
}

} // verus!
