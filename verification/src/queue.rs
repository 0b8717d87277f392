//! The conflict resolution queue: orchestrates the pending descriptors,
//! feeding each to the materializer, re-enqueuing on a user-approved
//! overwrite and dropping on refusal or terminal failure.
//!
//! Each queue entry carries, besides its descriptor, the flag that records
//! whether the user has already approved overwriting its conflicting path:
//! an approved re-attempt runs forced, so the same ambiguity cannot prompt
//! twice and the queue always drains.

use vstd::prelude::*;
use crate::answer::Answer;
use crate::descriptor::{DescriptorView, LinkDescriptor};
use crate::fs_model::{ModelFs, ModelFsView, NodeView};
use crate::materializer::{materialize_on_model, model_after, model_outcome};
use crate::outcome::{MaterializationOutcome, OutcomeView};

verus! {

/// One pending attempt: a descriptor, and whether the user has already
/// approved a forced overwrite for it.
pub struct QueueEntry {
    pub link: LinkDescriptor,
    pub forced: bool,
}

/// Mathematical image of a [`QueueEntry`].
pub struct EntryView {
    pub link: DescriptorView,
    pub forced: bool,
}

impl View for QueueEntry {
    type V = EntryView;

    open spec fn view(&self) -> EntryView {
        EntryView { link: self.link@, forced: self.forced }
    }
}

/// How the queue reacts to the outcome of one attempt.
#[derive(Clone, Copy, Debug, PartialEq, Eq, Structural)]
pub enum Disposition {
    /// Success: report it and move on.
    Created,
    /// The one recoverable conflict: ask the user before anything else.
    AskOverwrite,
    /// A terminal failure: report it and move on; the descriptor is dropped.
    ReportError,
}

/// The queue's reaction to each outcome.  `SymlinkIsAmbiguous` is the single
/// recoverable class; every other failure is terminal and local.
pub open spec fn spec_disposition(o: OutcomeView) -> Disposition {
    match o {
        OutcomeView::Success => Disposition::Created,
        OutcomeView::SymlinkIsAmbiguous => Disposition::AskOverwrite,
        _ => Disposition::ReportError,
    }
}

/// Classifies one outcome for the queue.
pub fn disposition(o: &MaterializationOutcome) -> (d: Disposition)
    ensures
        d == spec_disposition(o@),
{
    match o {
        MaterializationOutcome::Success => Disposition::Created,
        MaterializationOutcome::SymlinkIsAmbiguous => Disposition::AskOverwrite,
        _ => Disposition::ReportError,
    }
}

/// The FIFO queue of pending attempts, seeded in recipe order.
pub struct ConflictQueue {
    entries: Vec<QueueEntry>,
}

impl View for ConflictQueue {
    type V = Seq<EntryView>;

    closed spec fn view(&self) -> Seq<EntryView> {
        self.entries@.map_values(|e: QueueEntry| e@)
    }
}

impl ConflictQueue {
    /// Seeds the queue with every descriptor, in order, none yet approved
    /// for forced overwrite.
    #[verifier::loop_isolation(false)]
    pub fn new(links: &Vec<LinkDescriptor>) -> (q: ConflictQueue)
        ensures
            q@.len() == links@.len(),
            forall|i: int|
                0 <= i < links@.len() ==> (q@[i].link == links@[i]@ && q@[i].forced == false),
    {
        let mut entries: Vec<QueueEntry> = Vec::new();
        let n = links.len();
        let mut i: usize = 0;
        while i < n
            invariant
                i <= n,
                entries@.len() == i,
                forall|j: int|
                    0 <= j < i ==> (entries@[j]@.link == links@[j]@ && entries@[j]@.forced
                        == false),
            decreases n - i,
        {
            entries.push(QueueEntry { link: links[i].clone(), forced: false });
            i = i + 1;
        }
        ConflictQueue { entries }
    }

    /// How many attempts are pending.
    pub fn len(&self) -> (n: usize)
        ensures
            n == self@.len(),
    {
        self.entries.len()
    }

    /// Takes the front entry; `None` when the queue has drained.
    pub fn pop(&mut self) -> (r: Option<QueueEntry>)
        ensures
            match r {
                Option::None => old(self)@.len() == 0 && final(self)@ == old(self)@,
                Option::Some(e) => old(self)@.len() > 0 && e@ == old(self)@[0] && final(self)@
                    == old(self)@.drop_first(),
            },
    {
        if self.entries.len() == 0 {
            Option::None
        } else {
            let e = self.entries.remove(0);
            proof {
                assert(final(self)@ =~= old(self)@.drop_first());
            }
            Option::Some(e)
        }
    }

    /// Applies the user's answer to an ambiguous conflict: approval
    /// re-enqueues the descriptor at the back, marked for forced overwrite;
    /// refusal drops it silently.
    pub fn on_answer(&mut self, link: LinkDescriptor, answer: Answer)
        ensures
            answer is Yes ==> final(self)@ == old(self)@.push(
                EntryView { link: link@, forced: true },
            ),
            answer is No ==> final(self)@ == old(self)@,
    {
        match answer {
            Answer::Yes => {
                self.entries.push(QueueEntry { link, forced: true });
                proof {
                    assert(final(self)@ =~= old(self)@.push(
                        EntryView { link: link@, forced: true },
                    ));
                }
            },
            Answer::No => {},
        }
    }
}

/// The record the queue leaves of one attempt: which descriptor ran, whether
/// it ran forced, what it produced, and — for the one recoverable conflict —
/// what the user answered.
pub struct AttemptRecord {
    pub link: LinkDescriptor,
    pub forced: bool,
    pub outcome: MaterializationOutcome,
    pub answer: Option<Answer>,
}

/// Mathematical image of an [`AttemptRecord`].
pub struct RecordView {
    pub link: DescriptorView,
    pub forced: bool,
    pub outcome: OutcomeView,
    pub answer: Option<Answer>,
}

impl View for AttemptRecord {
    type V = RecordView;

    open spec fn view(&self) -> RecordView {
        RecordView {
            link: self.link@,
            forced: self.forced,
            outcome: self.outcome@,
            answer: self.answer,
        }
    }
}

/// What a whole queue run leaves behind: the final filesystem and the
/// records of every attempt, in the order they ran.
#[verifier::ext_equal]
pub struct RunResult {
    pub fs: ModelFsView,
    pub records: Seq<RecordView>,
}

/// The termination measure of a queue run: an unforced entry can come back
/// once (forced), a forced entry cannot.
pub open spec fn entry_weight(e: EntryView) -> nat {
    if e.forced {
        1nat
    } else {
        2nat
    }
}

/// Sum of the weights of all pending entries.
pub open spec fn queue_measure(s: Seq<EntryView>) -> nat
    decreases s.len(),
{
    if s.len() == 0 {
        0nat
    } else {
        entry_weight(s[0]) + queue_measure(s.drop_first())
    }
}

proof fn lemma_queue_measure_push(s: Seq<EntryView>, e: EntryView)
    ensures
        queue_measure(s.push(e)) == queue_measure(s) + entry_weight(e),
    decreases s.len(),
{
    if s.len() == 0 {
        assert(s.push(e)[0] == e);
        assert(s.push(e).drop_first() =~= s);
    } else {
        assert(s.push(e)[0] == s[0]);
        assert(s.push(e).drop_first() =~= s.drop_first().push(e));
        lemma_queue_measure_push(s.drop_first(), e);
    }
}

/// The queue's whole behaviour, as a function of the starting filesystem,
/// the pending entries, and the answers the confirmation gate will give, in
/// order.  When the answers run out, further prompts are refused: an absent
/// answer is a `No`.
///
/// Per dequeued entry: a success mutates the filesystem and is recorded; the
/// one ambiguous conflict consumes an answer — `Yes` re-enqueues the
/// descriptor at the back, forced, `No` drops it — and any other failure
/// drops the entry with the filesystem untouched.  Failure of one link never
/// stops the rest.
pub open spec fn spec_run(v: ModelFsView, entries: Seq<EntryView>, answers: Seq<Answer>) -> RunResult
    decreases queue_measure(entries),
    via spec_run_decreases
{
    if entries.len() == 0 {
        RunResult { fs: v, records: Seq::empty() }
    } else {
        let e = entries[0];
        let o = model_outcome(v, e.link, e.forced);
        if o is SymlinkIsAmbiguous {
            let ans = if answers.len() > 0 {
                answers[0]
            } else {
                Answer::No
            };
            let rest_answers = if answers.len() > 0 {
                answers.drop_first()
            } else {
                answers
            };
            let rec = RecordView {
                link: e.link,
                forced: e.forced,
                outcome: o,
                answer: Option::Some(ans),
            };
            let tail = if ans is Yes {
                spec_run(
                    v,
                    entries.drop_first().push(EntryView { link: e.link, forced: true }),
                    rest_answers,
                )
            } else {
                spec_run(v, entries.drop_first(), rest_answers)
            };
            RunResult { fs: tail.fs, records: seq![rec] + tail.records }
        } else {
            let rec = RecordView { link: e.link, forced: e.forced, outcome: o, answer: Option::None };
            let tail = spec_run(model_after(v, e.link, e.forced), entries.drop_first(), answers);
            RunResult { fs: tail.fs, records: seq![rec] + tail.records }
        }
    }
}

#[via_fn]
proof fn spec_run_decreases(v: ModelFsView, entries: Seq<EntryView>, answers: Seq<Answer>) {
    if entries.len() > 0 {
        let e = entries[0];
        assert(queue_measure(entries) == entry_weight(e) + queue_measure(entries.drop_first()));
        if model_outcome(v, e.link, e.forced) is SymlinkIsAmbiguous {
            assert(!e.forced);
            lemma_queue_measure_push(entries.drop_first(), EntryView { link: e.link, forced: true });
        }
    }
}

/// The view of the queue a sequence of descriptors seeds: each in order,
/// none forced.
pub open spec fn initial_entries(links: Seq<LinkDescriptor>) -> Seq<EntryView> {
    links.map_values(|l: LinkDescriptor| EntryView { link: l@, forced: false })
}

/// The views of the records a run produced.
pub open spec fn records_view(s: Seq<AttemptRecord>) -> Seq<RecordView> {
    s.map_values(|r: AttemptRecord| r@)
}

/// Runs the whole queue against the model filesystem: exactly the control
/// flow the surrounding program runs against the real one, with the
/// confirmation gate played by a fixed list of answers.
#[verifier::loop_isolation(false)]
pub fn run_queue_on_model(fs: &mut ModelFs, links: &Vec<LinkDescriptor>, answers: &Vec<Answer>) -> (records: Vec<
    AttemptRecord,
>)
    requires
        old(fs).wf(),
    ensures
        final(fs).wf(),
        final(fs)@ == spec_run(old(fs)@, initial_entries(links@), answers@).fs,
        records_view(records@) == spec_run(old(fs)@, initial_entries(links@), answers@).records,
{
    let mut q = ConflictQueue::new(links);
    proof {
        assert(q@ =~= initial_entries(links@));
    }
    let mut records: Vec<AttemptRecord> = Vec::new();
    let mut ai: usize = 0;
    let ghost total = spec_run(old(fs)@, initial_entries(links@), answers@);
    proof {
        assert(answers@.subrange(0, answers@.len() as int) =~= answers@);
        assert(records_view(records@) =~= Seq::<RecordView>::empty());
        assert(Seq::<RecordView>::empty() + total.records =~= total.records);
    }
    while q.len() > 0
        invariant
            fs.wf(),
            ai <= answers@.len(),
            total.fs == spec_run(
                fs@,
                q@,
                answers@.subrange(ai as int, answers@.len() as int),
            ).fs,
            total.records == records_view(records@) + spec_run(
                fs@,
                q@,
                answers@.subrange(ai as int, answers@.len() as int),
            ).records,
        decreases queue_measure(q@),
    {
        let ghost fs0 = fs@;
        let ghost q0 = q@;
        let ghost rem0 = answers@.subrange(ai as int, answers@.len() as int);
        let ghost recs0 = records@;
        let entry = match q.pop() {
            Option::Some(e) => e,
            Option::None => {
                proof {
                    assert(false);
                }
                QueueEntry { link: LinkDescriptor::new(String::new(), String::new()), forced: false }
            },
        };
        let forced = entry.forced;
        let o = materialize_on_model(fs, &entry.link, forced);
        proof {
            assert(queue_measure(q0) == entry_weight(q0[0]) + queue_measure(q0.drop_first()));
        }
        match disposition(&o) {
            Disposition::AskOverwrite => {
                let ans: Answer = if ai < answers.len() {
                    let a = answers[ai];
                    ai = ai + 1;
                    a
                } else {
                    Answer::No
                };
                proof {
                    assert(o@ is SymlinkIsAmbiguous);
                    assert(!forced);
                    assert(fs@ == fs0);
                    if rem0.len() > 0 {
                        assert(ans == rem0[0]);
                        assert(answers@.subrange(ai as int, answers@.len() as int)
                            =~= rem0.drop_first());
                    } else {
                        assert(ans is No);
                        assert(answers@.subrange(ai as int, answers@.len() as int) =~= rem0);
                    }
                    if ans is Yes {
                        lemma_queue_measure_push(
                            q0.drop_first(),
                            EntryView { link: entry.link@, forced: true },
                        );
                    }
                }
                let link_copy = entry.link.clone();
                q.on_answer(link_copy, ans);
                records.push(
                    AttemptRecord {
                        link: entry.link,
                        forced,
                        outcome: o,
                        answer: Option::Some(ans),
                    },
                );
                proof {
                    let rem = answers@.subrange(ai as int, answers@.len() as int);
                    let rec = RecordView {
                        link: q0[0].link,
                        forced: q0[0].forced,
                        outcome: model_outcome(fs0, q0[0].link, q0[0].forced),
                        answer: Option::Some(ans),
                    };
                    assert(records@.drop_last() =~= recs0);
                    assert(records@.last()@ == rec);
                    assert(records_view(records@) =~= records_view(recs0).push(rec));
                    assert(spec_run(fs0, q0, rem0).fs == spec_run(fs@, q@, rem).fs);
                    assert(spec_run(fs0, q0, rem0).records == seq![rec] + spec_run(
                        fs@,
                        q@,
                        rem,
                    ).records);
                    assert(records_view(recs0) + (seq![rec] + spec_run(fs@, q@, rem).records)
                        =~= records_view(records@) + spec_run(fs@, q@, rem).records);
                }
            },
            _ => {
                records.push(
                    AttemptRecord { link: entry.link, forced, outcome: o, answer: Option::None },
                );
                proof {
                    let rem = answers@.subrange(ai as int, answers@.len() as int);
                    let rec = RecordView {
                        link: q0[0].link,
                        forced: q0[0].forced,
                        outcome: model_outcome(fs0, q0[0].link, q0[0].forced),
                        answer: Option::None,
                    };
                    assert(!(rec.outcome is SymlinkIsAmbiguous));
                    assert(fs@ == model_after(fs0, q0[0].link, q0[0].forced));
                    assert(q@ == q0.drop_first());
                    assert(rem =~= rem0);
                    assert(records@.drop_last() =~= recs0);
                    assert(records@.last()@ == rec);
                    assert(records_view(records@) =~= records_view(recs0).push(rec));
                    assert(spec_run(fs0, q0, rem0).fs == spec_run(fs@, q@, rem).fs);
                    assert(spec_run(fs0, q0, rem0).records == seq![rec] + spec_run(
                        fs@,
                        q@,
                        rem,
                    ).records);
                    assert(records_view(recs0) + (seq![rec] + spec_run(fs@, q@, rem).records)
                        =~= records_view(records@) + spec_run(fs@, q@, rem).records);
                }
            },
        }
    }
    proof {
        let rem = answers@.subrange(ai as int, answers@.len() as int);
        assert(spec_run(fs@, q@, rem).records =~= Seq::<RecordView>::empty());
        assert(records_view(records@) + Seq::<RecordView>::empty() =~= records_view(records@));
    }
    records
}

/// Law (failure isolation): when the front entry's attempt fails terminally
/// — `TargetMissing`, `SymlinkIsDirectory` or an `IOFailure` — only that
/// entry is dropped: the filesystem is unchanged, its failure is recorded,
/// and the rest of the run is exactly the run of the remaining entries, with
/// every answer still available to them.
pub proof fn lemma_failure_isolation(v: ModelFsView, entries: Seq<EntryView>, answers: Seq<Answer>)
    requires
        entries.len() > 0,
        spec_disposition(model_outcome(v, entries[0].link, entries[0].forced))
            is ReportError,
    ensures
        spec_run(v, entries, answers) == (RunResult {
            fs: spec_run(v, entries.drop_first(), answers).fs,
            records: seq![
                RecordView {
                    link: entries[0].link,
                    forced: entries[0].forced,
                    outcome: model_outcome(v, entries[0].link, entries[0].forced),
                    answer: Option::None,
                },
            ] + spec_run(v, entries.drop_first(), answers).records,
        }),
{
    let o = model_outcome(v, entries[0].link, entries[0].forced);
    assert(!(o is Success) && !(o is SymlinkIsAmbiguous));
    assert(model_after(v, entries[0].link, entries[0].forced) == v);
}

/// Law (end-to-end confirmation flow): take a queue of one descriptor whose
/// symlink path holds an ambiguous node — an existing entry that is neither
/// a directory nor a symbolic link, with readable metadata — and whose
/// target exists.  The attempt prompts.  When the user answers `Yes`, the
/// queue re-runs the descriptor forced, and after it drains the symlink
/// path names the target.  When the user answers `No`, the queue drains
/// with the filesystem exactly as it was: the original node is untouched
/// and no link was created.
pub proof fn lemma_confirmation_flow(v: ModelFsView, d: DescriptorView, answers: Seq<Answer>)
    requires
        v.nodes.contains_key(d.target_path),
        v.nodes.contains_key(d.symlink_path),
        v.nodes[d.symlink_path] is RegularFileOrOther,
        !v.broken.contains(d.symlink_path),
        answers.len() >= 1,
    ensures
        ({
            let r = spec_run(v, seq![EntryView { link: d, forced: false }], answers);
            &&& (answers[0] is Yes ==> r.fs.nodes == v.nodes.insert(
                d.symlink_path,
                NodeView::Symlink(d.target_path),
            ))
            &&& (answers[0] is No ==> r.fs == v)
        }),
{
    let entries = seq![EntryView { link: d, forced: false }];
    let o = model_outcome(v, d, false);
    assert(o is SymlinkIsAmbiguous);
    assert(entries[0] == EntryView { link: d, forced: false });
    let rest = answers.drop_first();
    if answers[0] is Yes {
        let forced_entries = entries.drop_first().push(EntryView { link: d, forced: true });
        assert(forced_entries =~= seq![EntryView { link: d, forced: true }]);
        assert(spec_run(v, entries, answers).fs == spec_run(v, forced_entries, rest).fs);
        let o2 = model_outcome(v, d, true);
        assert(o2 is Success);
        let after = model_after(v, d, true);
        assert(after.nodes == v.nodes.insert(d.symlink_path, NodeView::Symlink(d.target_path)));
        assert(forced_entries.drop_first() =~= Seq::<EntryView>::empty());
        assert(spec_run(v, forced_entries, rest).fs == spec_run(
            after,
            forced_entries.drop_first(),
            rest,
        ).fs);
        assert(spec_run(after, forced_entries.drop_first(), rest).fs == after);
    } else {
        assert(entries.drop_first() =~= Seq::<EntryView>::empty());
        assert(spec_run(v, entries, answers).fs == spec_run(v, entries.drop_first(), rest).fs);
        assert(spec_run(v, entries.drop_first(), rest).fs == v);
    }
}

/// Law (everything is attempted): a run leaves at least one record per
/// seeded entry; no failure or refusal earlier in the queue can keep a later
/// descriptor from its attempt.
pub proof fn lemma_all_entries_attempted(
    v: ModelFsView,
    entries: Seq<EntryView>,
    answers: Seq<Answer>,
)
    ensures
        spec_run(v, entries, answers).records.len() >= entries.len(),
    decreases queue_measure(entries),
{
    if entries.len() > 0 {
        let e = entries[0];
        let o = model_outcome(v, e.link, e.forced);
        assert(queue_measure(entries) == entry_weight(e) + queue_measure(entries.drop_first()));
        if o is SymlinkIsAmbiguous {
            let ans = if answers.len() > 0 {
                answers[0]
            } else {
                Answer::No
            };
            let rest_answers = if answers.len() > 0 {
                answers.drop_first()
            } else {
                answers
            };
            assert(!e.forced);
            if ans is Yes {
                lemma_queue_measure_push(
                    entries.drop_first(),
                    EntryView { link: e.link, forced: true },
                );
                lemma_all_entries_attempted(
                    v,
                    entries.drop_first().push(EntryView { link: e.link, forced: true }),
                    rest_answers,
                );
            } else {
                lemma_all_entries_attempted(v, entries.drop_first(), rest_answers);
            }
        } else {
            lemma_all_entries_attempted(
                model_after(v, e.link, e.forced),
                entries.drop_first(),
                answers,
            );
        }
    }
}

} // verus!
