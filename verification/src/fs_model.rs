//! A model filesystem: the abstraction the reconciliation engine is verified
//! against, and an executable in-memory instance of it.
//!
//! A path's state is computed fresh on every probe and never follows
//! symbolic links: a path that is itself a symbolic link is classified as
//! one, wherever it points.  A path can additionally be marked as one whose
//! metadata cannot be read, which models a probe that fails with an I/O
//! error.

use vstd::prelude::*;

verus! {

/// Classification of what currently sits at a path, for a path that is
/// present.  An absent path is reported as such by the presence probe.
#[derive(Clone, Copy, Debug, PartialEq, Eq, Structural)]
pub enum FsKind {
    RegularFileOrOther,
    Directory,
    Symlink,
}

/// What currently sits at a path: the prober's full answer.  `Absent` is a
/// normal, non-error outcome, not a failure.
#[derive(Clone, Copy, Debug, PartialEq, Eq, Structural)]
pub enum FilesystemState {
    Absent,
    RegularFileOrOther,
    Directory,
    Symlink,
}

/// One node of the model filesystem.  A symbolic link records, by name, the
/// path it points at.
pub enum ModelNode {
    RegularFileOrOther,
    Directory,
    Symlink(String),
}

/// Mathematical image of a [`ModelNode`].
pub enum NodeView {
    RegularFileOrOther,
    Directory,
    Symlink(Seq<char>),
}

impl View for ModelNode {
    type V = NodeView;

    open spec fn view(&self) -> NodeView {
        match self {
            ModelNode::RegularFileOrOther => NodeView::RegularFileOrOther,
            ModelNode::Directory => NodeView::Directory,
            ModelNode::Symlink(t) => NodeView::Symlink(t@),
        }
    }
}

/// The kind a metadata probe reports for a node.
pub open spec fn kind_of(n: NodeView) -> FsKind {
    match n {
        NodeView::RegularFileOrOther => FsKind::RegularFileOrOther,
        NodeView::Directory => FsKind::Directory,
        NodeView::Symlink(_) => FsKind::Symlink,
    }
}

/// The state the prober reports for a path of the model filesystem.
pub open spec fn spec_probe(v: ModelFsView, p: Seq<char>) -> FilesystemState {
    if !v.nodes.contains_key(p) {
        FilesystemState::Absent
    } else {
        match v.nodes[p] {
            NodeView::RegularFileOrOther => FilesystemState::RegularFileOrOther,
            NodeView::Directory => FilesystemState::Directory,
            NodeView::Symlink(_) => FilesystemState::Symlink,
        }
    }
}

struct ModelEntry {
    path: String,
    node: ModelNode,
}

/// The executable model filesystem: a finite set of paths with a node at
/// each, plus the set of paths whose metadata cannot be read.
pub struct ModelFs {
    entries: Vec<ModelEntry>,
    broken: Vec<String>,
}

/// Mathematical image of a [`ModelFs`]: a finite map from path to node, and
/// the set of paths whose metadata probe fails.
#[verifier::ext_equal]
pub struct ModelFsView {
    pub nodes: Map<Seq<char>, NodeView>,
    pub broken: Set<Seq<char>>,
}

spec fn nodes_map(s: Seq<ModelEntry>) -> Map<Seq<char>, NodeView>
    decreases s.len(),
{
    if s.len() == 0 {
        Map::empty()
    } else {
        nodes_map(s.drop_last()).insert(s.last().path@, s.last().node@)
    }
}

spec fn broken_set(s: Seq<String>) -> Set<Seq<char>>
    decreases s.len(),
{
    if s.len() == 0 {
        Set::empty()
    } else {
        broken_set(s.drop_last()).insert(s.last()@)
    }
}

spec fn paths_unique(s: Seq<ModelEntry>) -> bool {
    forall|i: int, j: int| 0 <= i < j < s.len() ==> s[i].path@ != s[j].path@
}

impl View for ModelFs {
    type V = ModelFsView;

    closed spec fn view(&self) -> ModelFsView {
        ModelFsView { nodes: nodes_map(self.entries@), broken: broken_set(self.broken@) }
    }
}

proof fn lemma_nodes_map_contains(s: Seq<ModelEntry>, k: Seq<char>)
    ensures
        nodes_map(s).contains_key(k) <==> exists|i: int| 0 <= i < s.len() && s[i].path@ == k,
    decreases s.len(),
{
    if s.len() > 0 {
        lemma_nodes_map_contains(s.drop_last(), k);
        if nodes_map(s).contains_key(k) {
            if k == s.last().path@ {
                assert(s[s.len() - 1].path@ == k);
            } else {
                let i = choose|i: int|
                    0 <= i < s.drop_last().len() && s.drop_last()[i].path@ == k;
                assert(s[i].path@ == k);
            }
        }
        if exists|i: int| 0 <= i < s.len() && s[i].path@ == k {
            let i = choose|i: int| 0 <= i < s.len() && s[i].path@ == k;
            if i < s.len() - 1 {
                assert(s.drop_last()[i].path@ == k);
            }
        }
    }
}

proof fn lemma_nodes_map_index(s: Seq<ModelEntry>, i: int)
    requires
        paths_unique(s),
        0 <= i < s.len(),
    ensures
        nodes_map(s).contains_key(s[i].path@),
        nodes_map(s)[s[i].path@] == s[i].node@,
    decreases s.len(),
{
    if i == s.len() - 1 {
    } else {
        assert(paths_unique(s.drop_last()));
        assert(s.drop_last()[i] == s[i]);
        lemma_nodes_map_index(s.drop_last(), i);
        assert(s[i].path@ != s.last().path@);
    }
}

proof fn lemma_nodes_map_remove(s: Seq<ModelEntry>, i: int)
    requires
        paths_unique(s),
        0 <= i < s.len(),
    ensures
        nodes_map(s.remove(i)) == nodes_map(s).remove(s[i].path@),
    decreases s.len(),
{
    if i == s.len() - 1 {
        assert(s.remove(i) =~= s.drop_last());
        lemma_nodes_map_contains(s.drop_last(), s[i].path@);
        assert(forall|j: int|
            0 <= j < s.drop_last().len() ==> s.drop_last()[j].path@ != s[i].path@);
        assert(!nodes_map(s.drop_last()).contains_key(s[i].path@));
        assert(nodes_map(s.drop_last()).insert(s.last().path@, s.last().node@).remove(
            s[i].path@,
        ) =~= nodes_map(s.drop_last()));
    } else {
        assert(paths_unique(s.drop_last()));
        assert(s.drop_last()[i] == s[i]);
        lemma_nodes_map_remove(s.drop_last(), i);
        assert(s.remove(i).drop_last() =~= s.drop_last().remove(i));
        assert(s.remove(i).last() == s.last());
        assert(s[i].path@ != s.last().path@);
        assert(nodes_map(s.remove(i)) == nodes_map(s.drop_last().remove(i)).insert(
            s.last().path@,
            s.last().node@,
        ));
        assert(nodes_map(s.drop_last()).remove(s[i].path@).insert(s.last().path@, s.last().node@)
            =~= nodes_map(s.drop_last()).insert(s.last().path@, s.last().node@).remove(
            s[i].path@,
        ));
    }
}

proof fn lemma_broken_set_contains(s: Seq<String>, k: Seq<char>)
    ensures
        broken_set(s).contains(k) <==> exists|i: int| 0 <= i < s.len() && s[i]@ == k,
    decreases s.len(),
{
    if s.len() > 0 {
        lemma_broken_set_contains(s.drop_last(), k);
        if broken_set(s).contains(k) {
            if k == s.last()@ {
                assert(s[s.len() - 1]@ == k);
            } else {
                let i = choose|i: int| 0 <= i < s.drop_last().len() && s.drop_last()[i]@ == k;
                assert(s[i]@ == k);
            }
        }
        if exists|i: int| 0 <= i < s.len() && s[i]@ == k {
            let i = choose|i: int| 0 <= i < s.len() && s[i]@ == k;
            if i < s.len() - 1 {
                assert(s.drop_last()[i]@ == k);
            }
        }
    }
}

impl ModelFs {
    /// Internal well-formedness: no path occurs twice.
    pub closed spec fn wf(&self) -> bool {
        paths_unique(self.entries@)
    }

    #[verifier::loop_isolation(false)]
    fn find_index(&self, p: &String) -> (r: Option<usize>)
        ensures
            match r {
                Option::None => forall|j: int|
                    0 <= j < self.entries@.len() ==> self.entries@[j].path@ != p@,
                Option::Some(i) => i < self.entries@.len() && self.entries@[i as int].path@
                    == p@,
            },
    {
        let n = self.entries.len();
        let mut i: usize = 0;
        while i < n
            invariant
                i <= n,
                forall|j: int| 0 <= j < i ==> self.entries@[j].path@ != p@,
            decreases n - i,
        {
            if p.eq(&self.entries[i].path) {
                return Option::Some(i);
            }
            i = i + 1;
        }
        Option::None
    }

    /// An empty filesystem.
    pub fn new() -> (fs: ModelFs)
        ensures
            fs.wf(),
            fs@.nodes == Map::<Seq<char>, NodeView>::empty(),
            fs@.broken == Set::<Seq<char>>::empty(),
    {
        ModelFs { entries: Vec::new(), broken: Vec::new() }
    }

    /// Presence probe: whether anything at all sits at the path.
    pub fn contains(&self, p: &String) -> (b: bool)
        ensures
            b == self@.nodes.contains_key(p@),
    {
        proof {
            lemma_nodes_map_contains(self.entries@, p@);
        }
        match self.find_index(p) {
            Option::Some(i) => {
                proof {
                    assert(self.entries@[i as int].path@ == p@);
                }
                true
            },
            Option::None => false,
        }
    }

    /// Metadata probe of a present path: the kind of the node there.
    pub fn kind_at(&self, p: &String) -> (k: FsKind)
        requires
            self.wf(),
            self@.nodes.contains_key(p@),
        ensures
            k == kind_of(self@.nodes[p@]),
    {
        proof {
            lemma_nodes_map_contains(self.entries@, p@);
        }
        match self.find_index(p) {
            Option::Some(i) => {
                proof {
                    lemma_nodes_map_index(self.entries@, i as int);
                }
                match &self.entries[i].node {
                    ModelNode::RegularFileOrOther => FsKind::RegularFileOrOther,
                    ModelNode::Directory => FsKind::Directory,
                    ModelNode::Symlink(_) => FsKind::Symlink,
                }
            },
            Option::None => {
                proof {
                    assert(false);
                }
                FsKind::RegularFileOrOther
            },
        }
    }

    /// The path a symbolic link at `p` points at, by name; `None` when the
    /// path is absent or not a symbolic link.
    pub fn link_target(&self, p: &String) -> (t: Option<String>)
        requires
            self.wf(),
        ensures
            match t {
                Option::None => !(self@.nodes.contains_key(p@) && self@.nodes[p@] is Symlink),
                Option::Some(s) => self@.nodes.contains_key(p@) && self@.nodes[p@]
                    == NodeView::Symlink(s@),
            },
    {
        proof {
            lemma_nodes_map_contains(self.entries@, p@);
        }
        match self.find_index(p) {
            Option::Some(i) => {
                proof {
                    lemma_nodes_map_index(self.entries@, i as int);
                }
                match &self.entries[i].node {
                    ModelNode::Symlink(t) => Option::Some(t.clone()),
                    _ => Option::None,
                }
            },
            Option::None => Option::None,
        }
    }

    /// Whether the metadata probe of this path fails.
    #[verifier::loop_isolation(false)]
    pub fn is_broken(&self, p: &String) -> (b: bool)
        ensures
            b == self@.broken.contains(p@),
    {
        proof {
            lemma_broken_set_contains(self.broken@, p@);
        }
        let n = self.broken.len();
        let mut i: usize = 0;
        while i < n
            invariant
                i <= n,
                n == self.broken@.len(),
                forall|j: int| 0 <= j < i ==> self.broken@[j]@ != p@,
            decreases n - i,
        {
            if p.eq(&self.broken[i]) {
                return true;
            }
            i = i + 1;
        }
        false
    }

    /// Removes whatever sits at the path; no effect when the path is absent.
    pub fn remove_node(&mut self, p: &String)
        requires
            old(self).wf(),
        ensures
            final(self).wf(),
            final(self)@.nodes == old(self)@.nodes.remove(p@),
            final(self)@.broken == old(self)@.broken,
    {
        proof {
            lemma_nodes_map_contains(self.entries@, p@);
        }
        match self.find_index(p) {
            Option::Some(i) => {
                proof {
                    let s0 = self.entries@;
                    let ii = i as int;
                    lemma_nodes_map_remove(s0, ii);
                    assert forall|a: int, b: int|
                        0 <= a < b < s0.remove(ii).len() implies s0.remove(ii)[a].path@ != s0.remove(
                        ii,
                    )[b].path@ by {
                        if a < ii {
                            assert(s0.remove(ii)[a] == s0[a]);
                        } else {
                            assert(s0.remove(ii)[a] == s0[a + 1]);
                        }
                        if b < ii {
                            assert(s0.remove(ii)[b] == s0[b]);
                        } else {
                            assert(s0.remove(ii)[b] == s0[b + 1]);
                        }
                    }
                }
                self.entries.remove(i);
            },
            Option::None => {
                proof {
                    assert(!old(self)@.nodes.contains_key(p@));
                    assert(old(self)@.nodes.remove(p@) =~= old(self)@.nodes);
                }
            },
        }
    }

    /// Puts a node at the path, replacing whatever sat there.
    pub fn set_node(&mut self, p: &String, node: ModelNode)
        requires
            old(self).wf(),
        ensures
            final(self).wf(),
            final(self)@.nodes == old(self)@.nodes.insert(p@, node@),
            final(self)@.broken == old(self)@.broken,
    {
        self.remove_node(p);
        let ghost pre = self.entries@;
        proof {
            lemma_nodes_map_contains(pre, p@);
        }
        self.entries.push(ModelEntry { path: p.clone(), node });
        proof {
            assert(self.entries@.drop_last() =~= pre);
            assert(self.entries@.last().path@ == p@);
            assert(nodes_map(self.entries@) == nodes_map(pre).insert(
                p@,
                self.entries@.last().node@,
            ));
            assert(old(self)@.nodes.remove(p@).insert(p@, node@) =~= old(self)@.nodes.insert(
                p@,
                node@,
            ));
        }
    }

    /// The filesystem prober: a pure read of the path's current state,
    /// computed fresh on every call and never following symbolic links for
    /// classification.
    pub fn probe(&self, p: &String) -> (st: FilesystemState)
        requires
            self.wf(),
        ensures
            st == spec_probe(self@, p@),
    {
        if self.contains(p) {
            match self.kind_at(p) {
                FsKind::RegularFileOrOther => FilesystemState::RegularFileOrOther,
                FsKind::Directory => FilesystemState::Directory,
                FsKind::Symlink => FilesystemState::Symlink,
            }
        } else {
            FilesystemState::Absent
        }
    }

    /// Marks the path as one whose metadata probe fails with an I/O error.
    pub fn mark_broken(&mut self, p: &String)
        requires
            old(self).wf(),
        ensures
            final(self).wf(),
            final(self)@.nodes == old(self)@.nodes,
            final(self)@.broken == old(self)@.broken.insert(p@),
    {
        let ghost pre = self.broken@;
        self.broken.push(p.clone());
        proof {
            assert(self.broken@.drop_last() =~= pre);
            assert(broken_set(self.broken@) == broken_set(pre).insert(p@));
        }
    }
}

} // verus!
