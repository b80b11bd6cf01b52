//! Browsing history gathered from the local stores of several browsers and
//! brought into one record shape.
//!
//! Each browser has a module under [`browser`] that finds its stores, names
//! the snapshot that a store is copied to before it is read, and decodes the
//! rows of its one query. This module folds what the stores gave into one
//! sequence, in the order of the sources, and keeps apart what failed.

use vstd::prelude::*;
use vstd::string::*;

pub mod browser;
pub mod calendar;
pub mod path;
pub mod registry;
pub mod snapshot;
pub mod store;
pub mod text;

use crate::browser::{firefox, qutebrowser};
use crate::registry::RegistryError;
use crate::snapshot::{SnapshotError, Source};
use crate::store::ReadError;

verus! {

/// The unified, source-agnostic history record.
#[derive(Debug, Clone)]
pub struct History {
    pub url: String,
    pub title: Option<String>,
}

/// A `History` with its strings as sequences of characters.
pub ghost struct HistoryView {
    pub url: Seq<char>,
    pub title: Option<Seq<char>>,
}

impl View for History {
    type V = HistoryView;

    open spec fn view(&self) -> HistoryView {
        HistoryView { url: self.url@, title: crate::text::text_of(self.title) }
    }
}

/// The views of the records of a vector.
pub open spec fn history_views(entries: Seq<History>) -> Seq<HistoryView> {
    entries.map_values(|h: History| h@)
}

/// What went wrong with a store or with the locating of a source. A source
/// that is simply not there is no failure: it has nothing to report.
#[derive(Debug, Clone, Copy, PartialEq, Eq, Structural)]
pub enum FailureKind {
    /// The profile registry is there, but lacks an expected key.
    MalformedRegistry,
    /// The live file could not be copied to its snapshot.
    SnapshotFailure,
    /// A row could not be decoded into the source's entry.
    SchemaViolation,
    /// The snapshot could not be opened as a relational store.
    StoreUnreadable,
}

/// What a registry error means for its source: a registry that lacks a key
/// is a failure, one that cannot be read at all only leaves the source out.
pub open spec fn registry_failure_of(error: RegistryError) -> Option<FailureKind> {
    match error {
        RegistryError::MissingDefault { .. } => Some(FailureKind::MalformedRegistry),
        RegistryError::Unparsable => None,
    }
}

/// What a read error means for its store: a row off the schema is a schema
/// violation, and a store that was never copied has failed at its snapshot.
pub open spec fn read_failure_of(error: ReadError) -> FailureKind {
    match error {
        ReadError::Schema(_) => FailureKind::SchemaViolation,
        ReadError::NotSnapshotted => FailureKind::SnapshotFailure,
    }
}

impl FailureKind {
    /// The failure that a registry error stands for, if it is one.
    pub fn of_registry(error: RegistryError) -> (kind: Option<FailureKind>)
        ensures
            kind == registry_failure_of(error),
    {
        match error {
            RegistryError::MissingDefault { .. } => Some(FailureKind::MalformedRegistry),
            RegistryError::Unparsable => None,
        }
    }

    /// The failure that a snapshot error stands for.
    pub fn of_snapshot(error: SnapshotError) -> (kind: FailureKind)
        ensures
            kind == FailureKind::SnapshotFailure,
    {
        FailureKind::SnapshotFailure
    }

    /// The failure that a read error stands for.
    pub fn of_read(error: ReadError) -> (kind: FailureKind)
        ensures
            kind == read_failure_of(error),
    {
        match error {
            ReadError::Schema(_) => FailureKind::SchemaViolation,
            ReadError::NotSnapshotted => FailureKind::SnapshotFailure,
        }
    }
}

/// A failure and the source it belongs to.
#[derive(Debug, Clone, Copy, PartialEq, Eq, Structural)]
pub struct SourceFailure {
    pub source: Source,
    pub kind: FailureKind,
}

/// What one source gave: for each store that was located, in the order in
/// which the locator returned them, its history or why there is none. A
/// failure of the locating itself is reported as an outcome of its own.
#[derive(Debug)]
pub enum SourceReport {
    Qutebrowser(Vec<Result<qutebrowser::History, FailureKind>>),
    Firefox(Vec<Result<firefox::History, FailureKind>>),
}

/// What one store gave, with its entries in the unified shape.
pub ghost enum OutcomeView {
    Read(Seq<HistoryView>),
    Failed(FailureKind),
}

/// A `SourceReport` as its source and the outcomes of its stores.
pub ghost struct ReportView {
    pub source: Source,
    pub outcomes: Seq<OutcomeView>,
}

/// The unified records of a sequence of Firefox entries.
pub open spec fn firefox_unified(entries: Seq<firefox::HistoryEntry>) -> Seq<HistoryView> {
    entries.map_values(|e: firefox::HistoryEntry| firefox::unified_of(e@))
}

/// The unified records of a sequence of qutebrowser entries.
pub open spec fn qutebrowser_unified(entries: Seq<qutebrowser::HistoryEntry>) -> Seq<HistoryView> {
    entries.map_values(|e: qutebrowser::HistoryEntry| qutebrowser::unified_of(e@))
}

/// The outcome of a Firefox store.
pub open spec fn firefox_outcome(outcome: Result<firefox::History, FailureKind>) -> OutcomeView {
    match outcome {
        Ok(history) => OutcomeView::Read(firefox_unified(history.entries@)),
        Err(kind) => OutcomeView::Failed(kind),
    }
}

/// The outcome of a qutebrowser store.
pub open spec fn qutebrowser_outcome(
    outcome: Result<qutebrowser::History, FailureKind>,
) -> OutcomeView {
    match outcome {
        Ok(history) => OutcomeView::Read(qutebrowser_unified(history.entries@)),
        Err(kind) => OutcomeView::Failed(kind),
    }
}

impl View for SourceReport {
    type V = ReportView;

    open spec fn view(&self) -> ReportView {
        match *self {
            SourceReport::Qutebrowser(outcomes) => ReportView {
                source: Source::Qutebrowser,
                outcomes: outcomes@.map_values(
                    |o: Result<qutebrowser::History, FailureKind>| qutebrowser_outcome(o),
                ),
            },
            SourceReport::Firefox(outcomes) => ReportView {
                source: Source::Firefox,
                outcomes: outcomes@.map_values(
                    |o: Result<firefox::History, FailureKind>| firefox_outcome(o),
                ),
            },
        }
    }
}

/// The views of the reports of a vector.
pub open spec fn report_views(reports: Seq<SourceReport>) -> Seq<ReportView> {
    reports.map_values(|r: SourceReport| r@)
}

/// The entries that one store adds: all that it gave, or none where it
/// failed.
pub open spec fn outcome_entries(outcome: OutcomeView) -> Seq<HistoryView> {
    match outcome {
        OutcomeView::Read(entries) => entries,
        OutcomeView::Failed(_) => Seq::empty(),
    }
}

/// The failures that one store of `source` adds: its own where it failed.
pub open spec fn outcome_failures(source: Source, outcome: OutcomeView) -> Seq<SourceFailure> {
    match outcome {
        OutcomeView::Read(_) => Seq::empty(),
        OutcomeView::Failed(kind) => seq![SourceFailure { source, kind }],
    }
}

/// The entries of one source: those of its stores, store after store.
pub open spec fn report_entries(report: ReportView) -> Seq<HistoryView> {
    report.outcomes.map_values(|o: OutcomeView| outcome_entries(o)).flatten()
}

/// The failures of one source, store after store.
pub open spec fn report_failures(report: ReportView) -> Seq<SourceFailure> {
    report.outcomes.map_values(|o: OutcomeView| outcome_failures(report.source, o)).flatten()
}

/// The entries of all sources: source after source, within a source store
/// after store, within a store row after row. Nothing is sorted and nothing
/// is dropped as a duplicate.
pub open spec fn unified_entries(reports: Seq<ReportView>) -> Seq<HistoryView> {
    reports.map_values(|r: ReportView| report_entries(r)).flatten()
}

/// The failures of all sources, in the same order.
pub open spec fn failures_of(reports: Seq<ReportView>) -> Seq<SourceFailure> {
    reports.map_values(|r: ReportView| report_failures(r)).flatten()
}

/// The result of gathering: every entry of every store that could be read,
/// and every failure beside them.
#[derive(Debug)]
pub struct Aggregation {
    pub entries: Vec<History>,
    pub failures: Vec<SourceFailure>,
}

impl Aggregation {
    /// All or nothing: the entries where nothing failed, and else the first
    /// failure alone.
    pub fn into_result(self) -> (r: Result<Vec<History>, SourceFailure>)
        ensures
            match r {
                Ok(entries) => self.failures@.len() == 0 && entries == self.entries,
                Err(failure) => self.failures@.len() > 0 && failure == self.failures@[0],
            },
    {
        if self.failures.len() == 0 {
            Ok(self.entries)
        } else {
            Err(self.failures[0])
        }
    }
}

/// The sources in the order in which they are gathered.
pub fn configured_sources() -> (sources: Vec<Source>)
    ensures
        sources@ == seq![Source::Qutebrowser, Source::Firefox],
{
    let mut sources: Vec<Source> = Vec::new();
    sources.push(Source::Qutebrowser);
    sources.push(Source::Firefox);
    sources
}

/// Appends the unified records of a Firefox history.
fn append_firefox(history: &firefox::History, entries: &mut Vec<History>)
    ensures
        history_views(final(entries)@) == history_views(old(entries)@) + firefox_unified(
            history.entries@,
        ),
{
    let ghost before = history_views(entries@);
    let ghost added = firefox_unified(history.entries@);
    let mut i: usize = 0;
    while i < history.entries.len()
        invariant
            i <= history.entries.len(),
            added == firefox_unified(history.entries@),
            history_views(entries@) == before + added.take(i as int),
        decreases history.entries.len() - i,
    {
        let ghost so_far = entries@;
        let unified = history.entries[i].to_unified();
        entries.push(unified);
        assert(history_views(entries@) =~= history_views(so_far).push(unified@));
        i = i + 1;
    }
}

/// Appends the unified records of a qutebrowser history.
fn append_qutebrowser(history: &qutebrowser::History, entries: &mut Vec<History>)
    ensures
        history_views(final(entries)@) == history_views(old(entries)@) + qutebrowser_unified(
            history.entries@,
        ),
{
    let ghost before = history_views(entries@);
    let ghost added = qutebrowser_unified(history.entries@);
    let mut i: usize = 0;
    while i < history.entries.len()
        invariant
            i <= history.entries.len(),
            added == qutebrowser_unified(history.entries@),
            history_views(entries@) == before + added.take(i as int),
        decreases history.entries.len() - i,
    {
        let ghost so_far = entries@;
        let unified = history.entries[i].to_unified();
        entries.push(unified);
        assert(history_views(entries@) =~= history_views(so_far).push(unified@));
        i = i + 1;
    }
}

/// Appends what one source gave: the entries of each store that was read,
/// and the failure of each that was not.
fn absorb(report: &SourceReport, entries: &mut Vec<History>, failures: &mut Vec<SourceFailure>)
    ensures
        history_views(final(entries)@) == history_views(old(entries)@) + report_entries(report@),
        final(failures)@ == old(failures)@ + report_failures(report@),
{
    let ghost entries_before = history_views(entries@);
    let ghost failures_before = failures@;
    let ghost outcomes = report@.outcomes;
    let ghost source = report@.source;
    let ghost per_entries = |o: OutcomeView| outcome_entries(o);
    let ghost per_failures = |o: OutcomeView| outcome_failures(source, o);
    match report {
        SourceReport::Qutebrowser(stores) => {
            let mut i: usize = 0;
            while i < stores.len()
                invariant
                    i <= stores.len(),
                    outcomes == stores@.map_values(
                        |o: Result<qutebrowser::History, FailureKind>| qutebrowser_outcome(o),
                    ),
                    source == Source::Qutebrowser,
                    per_entries == |o: OutcomeView| outcome_entries(o),
                    per_failures == |o: OutcomeView| outcome_failures(source, o),
                    history_views(entries@) == entries_before + outcomes.take(i as int).map_values(
                        per_entries,
                    ).flatten(),
                    failures@ == failures_before + outcomes.take(i as int).map_values(
                        per_failures,
                    ).flatten(),
                decreases stores.len() - i,
            {
                proof {
                    assert(outcomes.take(i + 1).map_values(per_entries) =~= outcomes.take(
                        i as int,
                    ).map_values(per_entries).push(outcome_entries(outcomes[i as int])));
                    assert(outcomes.take(i + 1).map_values(per_failures) =~= outcomes.take(
                        i as int,
                    ).map_values(per_failures).push(outcome_failures(source, outcomes[i as int])));
                    outcomes.take(i as int).map_values(per_entries).lemma_flatten_push(
                        outcome_entries(outcomes[i as int]),
                    );
                    outcomes.take(i as int).map_values(per_failures).lemma_flatten_push(
                        outcome_failures(source, outcomes[i as int]),
                    );
                }
                match &stores[i] {
                    Ok(history) => {
                        append_qutebrowser(history, entries);
                    },
                    Err(kind) => {
                        failures.push(SourceFailure { source: Source::Qutebrowser, kind: *kind });
                    },
                }
                i = i + 1;
            }
            assert(outcomes.take(i as int) =~= outcomes);
        },
        SourceReport::Firefox(stores) => {
            let mut i: usize = 0;
            while i < stores.len()
                invariant
                    i <= stores.len(),
                    outcomes == stores@.map_values(
                        |o: Result<firefox::History, FailureKind>| firefox_outcome(o),
                    ),
                    source == Source::Firefox,
                    per_entries == |o: OutcomeView| outcome_entries(o),
                    per_failures == |o: OutcomeView| outcome_failures(source, o),
                    history_views(entries@) == entries_before + outcomes.take(i as int).map_values(
                        per_entries,
                    ).flatten(),
                    failures@ == failures_before + outcomes.take(i as int).map_values(
                        per_failures,
                    ).flatten(),
                decreases stores.len() - i,
            {
                proof {
                    assert(outcomes.take(i + 1).map_values(per_entries) =~= outcomes.take(
                        i as int,
                    ).map_values(per_entries).push(outcome_entries(outcomes[i as int])));
                    assert(outcomes.take(i + 1).map_values(per_failures) =~= outcomes.take(
                        i as int,
                    ).map_values(per_failures).push(outcome_failures(source, outcomes[i as int])));
                    outcomes.take(i as int).map_values(per_entries).lemma_flatten_push(
                        outcome_entries(outcomes[i as int]),
                    );
                    outcomes.take(i as int).map_values(per_failures).lemma_flatten_push(
                        outcome_failures(source, outcomes[i as int]),
                    );
                }
                match &stores[i] {
                    Ok(history) => {
                        append_firefox(history, entries);
                    },
                    Err(kind) => {
                        failures.push(SourceFailure { source: Source::Firefox, kind: *kind });
                    },
                }
                i = i + 1;
            }
            assert(outcomes.take(i as int) =~= outcomes);
        },
    }
}

/// Folds what the sources gave into one sequence: the entries of every
/// store that was read, in the order of the reports and within each in the
/// order of its stores and their rows. A store that failed adds its failure
/// and takes nothing away; a source without stores adds nothing.
pub fn get_history(reports: &Vec<SourceReport>) -> (gathered: Aggregation)
    ensures
        history_views(gathered.entries@) == unified_entries(report_views(reports@)),
        gathered.failures@ == failures_of(report_views(reports@)),
{
    let ghost views = report_views(reports@);
    let ghost per_entries = |r: ReportView| report_entries(r);
    let ghost per_failures = |r: ReportView| report_failures(r);
    let mut entries: Vec<History> = Vec::new();
    let mut failures: Vec<SourceFailure> = Vec::new();
    let mut i: usize = 0;
    while i < reports.len()
        invariant
            i <= reports.len(),
            views == report_views(reports@),
            per_entries == |r: ReportView| report_entries(r),
            per_failures == |r: ReportView| report_failures(r),
            history_views(entries@) == views.take(i as int).map_values(per_entries).flatten(),
            failures@ == views.take(i as int).map_values(per_failures).flatten(),
        decreases reports.len() - i,
    {
        proof {
            assert(views.take(i + 1).map_values(per_entries) =~= views.take(i as int).map_values(
                per_entries,
            ).push(report_entries(views[i as int])));
            assert(views.take(i + 1).map_values(per_failures) =~= views.take(i as int).map_values(
                per_failures,
            ).push(report_failures(views[i as int])));
            views.take(i as int).map_values(per_entries).lemma_flatten_push(
                report_entries(views[i as int]),
            );
            views.take(i as int).map_values(per_failures).lemma_flatten_push(
                report_failures(views[i as int]),
            );
        }
        absorb(&reports[i], &mut entries, &mut failures);
        i = i + 1;
    }
    assert(views.take(i as int) =~= views);
    Aggregation { entries, failures }
}

/// The order of the sources is the order of the result: what a run of
/// reports gives is what its front part gives, followed by what its back
/// part gives. So too for the failures.
pub proof fn lemma_sources_in_order(front: Seq<ReportView>, back: Seq<ReportView>)
    ensures
        unified_entries(front + back) == unified_entries(front) + unified_entries(back),
        failures_of(front + back) == failures_of(front) + failures_of(back),
{
    let per_entries = |r: ReportView| report_entries(r);
    let per_failures = |r: ReportView| report_failures(r);
    assert((front + back).map_values(per_entries) =~= front.map_values(per_entries)
        + back.map_values(per_entries));
    assert((front + back).map_values(per_failures) =~= front.map_values(per_failures)
        + back.map_values(per_failures));
    vstd::seq_lib::lemma_flatten_concat(
        front.map_values(per_entries),
        back.map_values(per_entries),
    );
    vstd::seq_lib::lemma_flatten_concat(
        front.map_values(per_failures),
        back.map_values(per_failures),
    );
}

/// Within a source the order of its stores is the order of the result.
pub proof fn lemma_stores_in_order(source: Source, front: Seq<OutcomeView>, back: Seq<OutcomeView>)
    ensures
        report_entries(ReportView { source, outcomes: front + back }) == report_entries(
            ReportView { source, outcomes: front },
        ) + report_entries(ReportView { source, outcomes: back }),
        report_failures(ReportView { source, outcomes: front + back }) == report_failures(
            ReportView { source, outcomes: front },
        ) + report_failures(ReportView { source, outcomes: back }),
{
    let per_entries = |o: OutcomeView| outcome_entries(o);
    let per_failures = |o: OutcomeView| outcome_failures(source, o);
    assert((front + back).map_values(per_entries) =~= front.map_values(per_entries)
        + back.map_values(per_entries));
    assert((front + back).map_values(per_failures) =~= front.map_values(per_failures)
        + back.map_values(per_failures));
    vstd::seq_lib::lemma_flatten_concat(
        front.map_values(per_entries),
        back.map_values(per_entries),
    );
    vstd::seq_lib::lemma_flatten_concat(
        front.map_values(per_failures),
        back.map_values(per_failures),
    );
}

/// The result holds one entry for each row that was read, no more and no
/// fewer: its length is the sum over the reports.
pub proof fn lemma_entries_counted(front: Seq<ReportView>, report: ReportView)
    ensures
        unified_entries(front.push(report)).len() == unified_entries(front).len() + report_entries(
            report,
        ).len(),
{
    assert(front.push(report) =~= front + seq![report]);
    lemma_sources_in_order(front, seq![report]);
    let per_entries = |r: ReportView| report_entries(r);
    assert(seq![report].map_values(per_entries) =~= seq![report_entries(report)]);
    seq![report_entries(report)].lemma_flatten_singleton();
}

/// A source for which no store was located adds no entry and no failure:
/// the result is what it would be without that source.
pub proof fn lemma_source_without_stores(reports: Seq<ReportView>, i: int)
    requires
        0 <= i < reports.len(),
        reports[i].outcomes.len() == 0,
    ensures
        report_entries(reports[i]) == Seq::<HistoryView>::empty(),
        report_failures(reports[i]) == Seq::<SourceFailure>::empty(),
        unified_entries(reports) == unified_entries(reports.remove(i)),
        failures_of(reports) == failures_of(reports.remove(i)),
{
    let report = reports[i];
    let front = reports.take(i);
    let back = reports.skip(i + 1);
    assert(reports =~= front + (seq![report] + back));
    lemma_sources_in_order(front, seq![report] + back);
    lemma_sources_in_order(seq![report], back);
    lemma_sources_in_order(front, back);
    assert(seq![report].map_values(|r: ReportView| report_entries(r)) =~= seq![
        report_entries(report),
    ]);
    assert(seq![report].map_values(|r: ReportView| report_failures(r)) =~= seq![
        report_failures(report),
    ]);
    seq![report_entries(report)].lemma_flatten_singleton();
    seq![report_failures(report)].lemma_flatten_singleton();
}

/// A store that failed adds no entry and takes none away: the entries of
/// its source are those of the stores before it and after it.
pub proof fn lemma_failed_store_adds_no_entries(
    source: Source,
    before: Seq<OutcomeView>,
    kind: FailureKind,
    after: Seq<OutcomeView>,
)
    ensures
        report_entries(
            ReportView { source, outcomes: before + seq![OutcomeView::Failed(kind)] + after },
        ) == report_entries(ReportView { source, outcomes: before + after }),
{
    let failed = seq![OutcomeView::Failed(kind)];
    lemma_stores_in_order(source, before + failed, after);
    lemma_stores_in_order(source, before, failed);
    lemma_stores_in_order(source, before, after);
    assert(failed.map_values(|o: OutcomeView| outcome_entries(o)) =~= seq![
        Seq::<HistoryView>::empty(),
    ]);
    seq![Seq::<HistoryView>::empty()].lemma_flatten_singleton();
}

/// What was gathered from earlier sources stays in the result whatever
/// comes of the later ones, failures included: it is the front of the
/// result.
pub proof fn lemma_earlier_entries_stay(earlier: Seq<ReportView>, later: Seq<ReportView>)
    ensures
        unified_entries(earlier).is_prefix_of(unified_entries(earlier + later)),
{
    lemma_sources_in_order(earlier, later);
    let all = unified_entries(earlier + later);
}

} // verus!
