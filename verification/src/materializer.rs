//! The link materializer: given a descriptor and the current filesystem
//! state, performs the minimal safe mutation (remove-then-create) or reports
//! why it cannot.
//!
//! The materializer is a state machine.  Each phase names the one probe or
//! mutation the surrounding program must perform next; the observed result
//! comes back as an event and [`Materializer::step`] decides the next phase.
//! [`materialize_on_model`] drives the same machine against the model
//! filesystem and is proved to realize [`model_outcome`] and
//! [`model_after`] exactly.

use vstd::prelude::*;
use vstd::string::*;
use crate::descriptor::{DescriptorView, LinkDescriptor};
use crate::fs_model::{FsKind, ModelFs, ModelFsView, ModelNode, NodeView};
use crate::outcome::{IoDetail, IoDetailView, MaterializationOutcome, OutcomeView};

verus! {

/// The one filesystem operation the machine wants performed next.
#[derive(Clone, Copy, Debug, PartialEq, Eq, Structural)]
pub enum MatAction {
    /// Does anything sit at the target path?
    ProbeTargetPresence,
    /// Does anything sit at the symlink path (not following links)?
    ProbeLinkPresence,
    /// Classify the node at the symlink path (not following links).
    ProbeLinkKind,
    /// Delete the node at the symlink path.
    RemoveLink,
    /// Create a symbolic link at the symlink path naming the target path.
    CreateLink,
}

/// What the performed operation observed or produced.
pub enum MatEvent {
    /// Reply to a presence probe.
    Presence(bool),
    /// Reply to a successful kind probe.
    Kind(FsKind),
    /// The kind probe itself failed with an I/O error.
    KindFailed(IoDetail),
    /// The removal or creation succeeded.
    OpDone,
    /// The removal or creation failed with an I/O error.
    OpFailed(IoDetail),
}

/// Mathematical image of a [`MatEvent`].
pub enum EventView {
    Presence(bool),
    Kind(FsKind),
    KindFailed(IoDetailView),
    OpDone,
    OpFailed(IoDetailView),
}

impl View for MatEvent {
    type V = EventView;

    open spec fn view(&self) -> EventView {
        match self {
            MatEvent::Presence(b) => EventView::Presence(*b),
            MatEvent::Kind(k) => EventView::Kind(*k),
            MatEvent::KindFailed(d) => EventView::KindFailed(d@),
            MatEvent::OpDone => EventView::OpDone,
            MatEvent::OpFailed(d) => EventView::OpFailed(d@),
        }
    }
}

/// Where the machine stands within one materialization attempt.
pub enum MatPhase {
    /// Step one, unconditional: is the target present?
    CheckTarget,
    /// The safety gate of an unforced attempt: is the symlink path present?
    CheckLinkPresence,
    /// The safety gate's classification of the present symlink path.
    CheckLinkKind,
    /// Fresh presence probe deciding whether removal is needed.
    CheckRemovalPresence,
    /// Removing the node at the symlink path.
    Removing,
    /// Creating the symbolic link.
    Creating,
    /// The attempt is over, with exactly this outcome.
    Finished(MaterializationOutcome),
}

/// Mathematical image of a [`MatPhase`].
pub enum PhaseView {
    CheckTarget,
    CheckLinkPresence,
    CheckLinkKind,
    CheckRemovalPresence,
    Removing,
    Creating,
    Finished(OutcomeView),
}

impl View for MatPhase {
    type V = PhaseView;

    open spec fn view(&self) -> PhaseView {
        match self {
            MatPhase::CheckTarget => PhaseView::CheckTarget,
            MatPhase::CheckLinkPresence => PhaseView::CheckLinkPresence,
            MatPhase::CheckLinkKind => PhaseView::CheckLinkKind,
            MatPhase::CheckRemovalPresence => PhaseView::CheckRemovalPresence,
            MatPhase::Removing => PhaseView::Removing,
            MatPhase::Creating => PhaseView::Creating,
            MatPhase::Finished(o) => PhaseView::Finished(o@),
        }
    }
}

/// The transition relation of the materializer.
///
/// A missing target ends the attempt before anything else is looked at.  The
/// safety gate runs only when the attempt is not forced: a directory and an
/// ambiguous node (neither directory nor symbolic link) end the attempt
/// there.  After those safety checks, a fresh presence probe decides whether
/// the old node is removed before the link is created.  An event a phase does not
/// expect leaves the machine where it stands.
pub open spec fn spec_step(phase: PhaseView, force: bool, e: EventView) -> PhaseView {
    match (phase, e) {
        (PhaseView::CheckTarget, EventView::Presence(b)) => if !b {
            PhaseView::Finished(OutcomeView::TargetMissing)
        } else if force {
            PhaseView::CheckRemovalPresence
        } else {
            PhaseView::CheckLinkPresence
        },
        (PhaseView::CheckLinkPresence, EventView::Presence(b)) => if b {
            PhaseView::CheckLinkKind
        } else {
            PhaseView::CheckRemovalPresence
        },
        (PhaseView::CheckLinkKind, EventView::Kind(k)) => match k {
            FsKind::Directory => PhaseView::Finished(OutcomeView::SymlinkIsDirectory),
            FsKind::RegularFileOrOther => PhaseView::Finished(OutcomeView::SymlinkIsAmbiguous),
            FsKind::Symlink => PhaseView::CheckRemovalPresence,
        },
        (PhaseView::CheckLinkKind, EventView::KindFailed(d)) => PhaseView::Finished(
            OutcomeView::IOFailure(d),
        ),
        (PhaseView::CheckRemovalPresence, EventView::Presence(b)) => if b {
            PhaseView::Removing
        } else {
            PhaseView::Creating
        },
        (PhaseView::Removing, EventView::OpDone) => PhaseView::Creating,
        (PhaseView::Removing, EventView::OpFailed(d)) => PhaseView::Finished(
            OutcomeView::IOFailure(d),
        ),
        (PhaseView::Creating, EventView::OpDone) => PhaseView::Finished(OutcomeView::Success),
        (PhaseView::Creating, EventView::OpFailed(d)) => PhaseView::Finished(
            OutcomeView::IOFailure(d),
        ),
        _ => phase,
    }
}

/// The operation each phase asks for; `None` once the attempt is over.
pub open spec fn spec_action(phase: PhaseView) -> Option<MatAction> {
    match phase {
        PhaseView::CheckTarget => Option::Some(MatAction::ProbeTargetPresence),
        PhaseView::CheckLinkPresence => Option::Some(MatAction::ProbeLinkPresence),
        PhaseView::CheckLinkKind => Option::Some(MatAction::ProbeLinkKind),
        PhaseView::CheckRemovalPresence => Option::Some(MatAction::ProbeLinkPresence),
        PhaseView::Removing => Option::Some(MatAction::RemoveLink),
        PhaseView::Creating => Option::Some(MatAction::CreateLink),
        PhaseView::Finished(_) => Option::None,
    }
}

/// Mathematical image of a [`Materializer`].
pub struct MaterializerView {
    pub force: bool,
    pub phase: PhaseView,
}

/// One materialization attempt in progress.
pub struct Materializer {
    force: bool,
    phase: MatPhase,
}

impl View for Materializer {
    type V = MaterializerView;

    closed spec fn view(&self) -> MaterializerView {
        MaterializerView { force: self.force, phase: self.phase@ }
    }
}

impl Materializer {
    /// Begins an attempt.  `force` skips the safety gate: approval of an
    /// earlier ambiguous conflict means "just overwrite".
    pub fn new(force: bool) -> (m: Materializer)
        ensures
            m@.force == force,
            m@.phase == PhaseView::CheckTarget,
    {
        Materializer { force, phase: MatPhase::CheckTarget }
    }

    /// The operation to perform next; `None` once the attempt is over.
    pub fn next_action(&self) -> (a: Option<MatAction>)
        ensures
            a == spec_action(self@.phase),
    {
        match &self.phase {
            MatPhase::CheckTarget => Option::Some(MatAction::ProbeTargetPresence),
            MatPhase::CheckLinkPresence => Option::Some(MatAction::ProbeLinkPresence),
            MatPhase::CheckLinkKind => Option::Some(MatAction::ProbeLinkKind),
            MatPhase::CheckRemovalPresence => Option::Some(MatAction::ProbeLinkPresence),
            MatPhase::Removing => Option::Some(MatAction::RemoveLink),
            MatPhase::Creating => Option::Some(MatAction::CreateLink),
            MatPhase::Finished(_) => Option::None,
        }
    }

    /// Feeds the observed result of the requested operation to the machine.
    pub fn step(&mut self, e: MatEvent)
        ensures
            final(self)@.force == old(self)@.force,
            final(self)@.phase == spec_step(old(self)@.phase, old(self)@.force, e@),
    {
        let force = self.force;
        let next: Option<MatPhase> = match (&self.phase, e) {
            (MatPhase::CheckTarget, MatEvent::Presence(b)) => Option::Some(
                if !b {
                    MatPhase::Finished(MaterializationOutcome::TargetMissing)
                } else if force {
                    MatPhase::CheckRemovalPresence
                } else {
                    MatPhase::CheckLinkPresence
                },
            ),
            (MatPhase::CheckLinkPresence, MatEvent::Presence(b)) => Option::Some(
                if b {
                    MatPhase::CheckLinkKind
                } else {
                    MatPhase::CheckRemovalPresence
                },
            ),
            (MatPhase::CheckLinkKind, MatEvent::Kind(k)) => Option::Some(
                match k {
                    FsKind::Directory => MatPhase::Finished(
                        MaterializationOutcome::SymlinkIsDirectory,
                    ),
                    FsKind::RegularFileOrOther => MatPhase::Finished(
                        MaterializationOutcome::SymlinkIsAmbiguous,
                    ),
                    FsKind::Symlink => MatPhase::CheckRemovalPresence,
                },
            ),
            (MatPhase::CheckLinkKind, MatEvent::KindFailed(d)) => Option::Some(
                MatPhase::Finished(MaterializationOutcome::IOFailure(d)),
            ),
            (MatPhase::CheckRemovalPresence, MatEvent::Presence(b)) => Option::Some(
                if b {
                    MatPhase::Removing
                } else {
                    MatPhase::Creating
                },
            ),
            (MatPhase::Removing, MatEvent::OpDone) => Option::Some(MatPhase::Creating),
            (MatPhase::Removing, MatEvent::OpFailed(d)) => Option::Some(
                MatPhase::Finished(MaterializationOutcome::IOFailure(d)),
            ),
            (MatPhase::Creating, MatEvent::OpDone) => Option::Some(
                MatPhase::Finished(MaterializationOutcome::Success),
            ),
            (MatPhase::Creating, MatEvent::OpFailed(d)) => Option::Some(
                MatPhase::Finished(MaterializationOutcome::IOFailure(d)),
            ),
            _ => Option::None,
        };
        match next {
            Option::Some(p) => {
                self.phase = p;
            },
            Option::None => {},
        }
    }

    /// Hands out the outcome of a finished attempt.
    pub fn into_outcome(self) -> (o: MaterializationOutcome)
        requires
            self@.phase is Finished,
        ensures
            self@.phase == PhaseView::Finished(o@),
    {
        match self.phase {
            MatPhase::Finished(o) => o,
            _ => {
                proof {
                    assert(false);
                }
                MaterializationOutcome::Success
            },
        }
    }
}

/// The diagnostic a failing metadata probe of the model carries.
pub open spec fn probe_failure_detail() -> IoDetailView {
    IoDetailView {
        operation: "Failed to retrieve metadata"@,
        kind_name: "PermissionDenied"@,
        os_code: Option::None,
    }
}

/// The diagnostic a failing removal carries: a directory cannot be unlinked.
pub open spec fn removal_failure_detail() -> IoDetailView {
    IoDetailView {
        operation: "Failed to remove symlink path"@,
        kind_name: "IsADirectory"@,
        os_code: Option::None,
    }
}

fn probe_failure_io() -> (d: IoDetail)
    ensures
        d@ == probe_failure_detail(),
{
    IoDetail {
        operation: String::from_str("Failed to retrieve metadata"),
        kind_name: String::from_str("PermissionDenied"),
        os_code: Option::None,
    }
}

fn removal_failure_io() -> (d: IoDetail)
    ensures
        d@ == removal_failure_detail(),
{
    IoDetail {
        operation: String::from_str("Failed to remove symlink path"),
        kind_name: String::from_str("IsADirectory"),
        os_code: Option::None,
    }
}

/// What one materialization attempt yields on a given model filesystem.
///
/// The target's existence is checked first and unconditionally.  An unforced
/// attempt then probes a present symlink path: a failing probe is an I/O
/// failure, a directory and an ambiguous node are refused.  After those
/// checks, whatever sits at the symlink path is removed — in the model only a
/// directory can make removal fail — and the link is created.
pub open spec fn model_outcome(v: ModelFsView, d: DescriptorView, force: bool) -> OutcomeView {
    if !v.nodes.contains_key(d.target_path) {
        OutcomeView::TargetMissing
    } else if !force && v.nodes.contains_key(d.symlink_path) {
        if v.broken.contains(d.symlink_path) {
            OutcomeView::IOFailure(probe_failure_detail())
        } else if v.nodes[d.symlink_path] is Directory {
            OutcomeView::SymlinkIsDirectory
        } else if !(v.nodes[d.symlink_path] is Symlink) {
            OutcomeView::SymlinkIsAmbiguous
        } else {
            OutcomeView::Success
        }
    } else if v.nodes.contains_key(d.symlink_path) && v.nodes[d.symlink_path] is Directory {
        OutcomeView::IOFailure(removal_failure_detail())
    } else {
        OutcomeView::Success
    }
}

/// The model filesystem after one attempt: on success the symlink path
/// names the target; on any failure nothing has changed.
pub open spec fn model_after(v: ModelFsView, d: DescriptorView, force: bool) -> ModelFsView {
    if model_outcome(v, d, force) is Success {
        ModelFsView {
            nodes: v.nodes.insert(d.symlink_path, NodeView::Symlink(d.target_path)),
            broken: v.broken,
        }
    } else {
        v
    }
}

/// One materialization attempt against the model filesystem, driving the
/// same machine the surrounding program drives against the real one.
pub fn materialize_on_model(fs: &mut ModelFs, d: &LinkDescriptor, force: bool) -> (o:
    MaterializationOutcome)
    requires
        old(fs).wf(),
    ensures
        final(fs).wf(),
        o@ == model_outcome(old(fs)@, d@, force),
        final(fs)@ == model_after(old(fs)@, d@, force),
{
    let mut m = Materializer::new(force);
    let target_present = fs.contains(&d.target_path);
    m.step(MatEvent::Presence(target_present));
    if !target_present {
        return m.into_outcome();
    }
    if !force {
        let link_present = fs.contains(&d.symlink_path);
        m.step(MatEvent::Presence(link_present));
        if link_present {
            if fs.is_broken(&d.symlink_path) {
                m.step(MatEvent::KindFailed(probe_failure_io()));
                return m.into_outcome();
            }
            let k = fs.kind_at(&d.symlink_path);
            m.step(MatEvent::Kind(k));
            match k {
                FsKind::Directory | FsKind::RegularFileOrOther => {
                    return m.into_outcome();
                },
                FsKind::Symlink => {},
            }
        }
    }
    let removal_needed = fs.contains(&d.symlink_path);
    m.step(MatEvent::Presence(removal_needed));
    if removal_needed {
        let k = fs.kind_at(&d.symlink_path);
        match k {
            FsKind::Directory => {
                m.step(MatEvent::OpFailed(removal_failure_io()));
                return m.into_outcome();
            },
            _ => {
                fs.remove_node(&d.symlink_path);
                m.step(MatEvent::OpDone);
            },
        }
    }
    fs.set_node(&d.symlink_path, ModelNode::Symlink(d.target_path.clone()));
    m.step(MatEvent::OpDone);
    proof {
        assert(fs@.nodes =~= old(fs)@.nodes.insert(
            d@.symlink_path,
            NodeView::Symlink(d@.target_path),
        ));
        assert(fs@ =~= model_after(old(fs)@, d@, force));
    }
    m.into_outcome()
}

/// Law: for any descriptor whose target path does not exist, materialization
/// always yields `TargetMissing` and performs no mutation at all: the
/// filesystem — the symlink path included — is exactly as it was.
pub proof fn lemma_missing_target_is_terminal(v: ModelFsView, d: DescriptorView, force: bool)
    requires
        !v.nodes.contains_key(d.target_path),
    ensures
        model_outcome(v, d, force) is TargetMissing,
        model_after(v, d, force) == v,
{
}

/// Law: for any descriptor whose symlink path does not yet exist and whose
/// target exists, materialization succeeds and the symlink path afterward
/// names the target; every other path is untouched.
pub proof fn lemma_fresh_link_succeeds(v: ModelFsView, d: DescriptorView, force: bool)
    requires
        v.nodes.contains_key(d.target_path),
        !v.nodes.contains_key(d.symlink_path),
    ensures
        model_outcome(v, d, force) is Success,
        model_after(v, d, force).nodes[d.symlink_path] == NodeView::Symlink(d.target_path),
        forall|p: Seq<char>|
            p != d.symlink_path ==> (model_after(v, d, force).nodes.contains_key(p)
                == v.nodes.contains_key(p) && (v.nodes.contains_key(p) ==> model_after(
                v,
                d,
                force,
            ).nodes[p] == v.nodes[p])),
{
}

/// Law: for any descriptor whose symlink path is an existing symbolic link —
/// pointing anywhere — whose metadata is readable, and whose target exists,
/// an unforced materialization succeeds, and the link afterward names the
/// new target.
pub proof fn lemma_existing_link_replaced(v: ModelFsView, d: DescriptorView)
    requires
        v.nodes.contains_key(d.target_path),
        v.nodes.contains_key(d.symlink_path),
        v.nodes[d.symlink_path] is Symlink,
        !v.broken.contains(d.symlink_path),
    ensures
        model_outcome(v, d, false) is Success,
        model_after(v, d, false).nodes[d.symlink_path] == NodeView::Symlink(d.target_path),
{
}

/// Law: for any descriptor whose symlink path is an existing directory with
/// readable metadata, an unforced materialization always yields
/// `SymlinkIsDirectory` and never deletes the directory: the filesystem is
/// unchanged and the directory still sits at the symlink path.
pub proof fn lemma_directory_never_deleted(v: ModelFsView, d: DescriptorView)
    requires
        v.nodes.contains_key(d.symlink_path),
        v.nodes[d.symlink_path] is Directory,
        !v.broken.contains(d.symlink_path),
    ensures
        model_outcome(v, d, false) is SymlinkIsDirectory || model_outcome(v, d, false)
            is TargetMissing,
        v.nodes.contains_key(d.target_path) ==> model_outcome(v, d, false) is SymlinkIsDirectory,
        model_after(v, d, false) == v,
        model_after(v, d, false).nodes[d.symlink_path] is Directory,
{
}

/// Law: for any descriptor whose symlink path is an existing regular file —
/// neither a symbolic link nor a directory — with readable metadata, and
/// whose target exists, an unforced materialization yields
/// `SymlinkIsAmbiguous` and leaves the file untouched.
pub proof fn lemma_regular_file_is_ambiguous(v: ModelFsView, d: DescriptorView)
    requires
        v.nodes.contains_key(d.target_path),
        v.nodes.contains_key(d.symlink_path),
        v.nodes[d.symlink_path] is RegularFileOrOther,
        !v.broken.contains(d.symlink_path),
    ensures
        model_outcome(v, d, false) is SymlinkIsAmbiguous,
        model_after(v, d, false) == v,
        model_after(v, d, false).nodes[d.symlink_path] is RegularFileOrOther,
{
}

} // verus!
