use vstd::prelude::*;
use crate::layer::EntryView;

verus! {

/// What a path of the root filesystem holds.
pub enum FsNode {
    Dir,
    File(Seq<u8>),
    CharDevice { major: nat, minor: nat, mode: nat },
}

/// The node that a planned write leaves at its target.
pub open spec fn node_of(w: EntryView) -> FsNode {
    if w.1 {
        FsNode::Dir
    } else {
        FsNode::File(w.2)
    }
}

/// The root filesystem after performing `ws` in order on `fs`.
pub open spec fn apply_writes(fs: Map<Seq<char>, FsNode>, ws: Seq<EntryView>) -> Map<Seq<char>, FsNode>
    decreases ws.len(),
{
    if ws.len() == 0 {
        fs
    } else {
        apply_writes(fs, ws.drop_last()).insert(ws.last().0, node_of(ws.last()))
    }
}

/// The root filesystem after unpacking `layers` in order on `fs`.
pub open spec fn apply_layers(fs: Map<Seq<char>, FsNode>, layers: Seq<Seq<EntryView>>) -> Map<Seq<char>, FsNode>
    decreases layers.len(),
{
    if layers.len() == 0 {
        fs
    } else {
        apply_writes(apply_layers(fs, layers.drop_last()), layers.last())
    }
}

proof fn lemma_untouched(fs: Map<Seq<char>, FsNode>, ws: Seq<EntryView>, p: Seq<char>)
    requires
        forall|i: int| 0 <= i < ws.len() ==> (#[trigger] ws[i]).0 != p,
    ensures
        apply_writes(fs, ws).contains_key(p) == fs.contains_key(p),
        fs.contains_key(p) ==> apply_writes(fs, ws)[p] == fs[p],
    decreases ws.len(),
{
    if ws.len() > 0 {
        assert(ws.last() == ws[ws.len() - 1]);
        lemma_untouched(fs, ws.drop_last(), p);
    }
}

proof fn lemma_last_write(fs: Map<Seq<char>, FsNode>, ws: Seq<EntryView>, m: int, p: Seq<char>)
    requires
        0 <= m < ws.len(),
        ws[m].0 == p,
        forall|i: int| m < i < ws.len() ==> (#[trigger] ws[i]).0 != p,
    ensures
        apply_writes(fs, ws).contains_key(p),
        apply_writes(fs, ws)[p] == node_of(ws[m]),
    decreases ws.len(),
{
    assert(ws.last() == ws[ws.len() - 1]);
    if m < ws.len() - 1 {
        lemma_last_write(fs, ws.drop_last(), m, p);
    }
}

/// Layers overlay in order: where entry `m` of layer `j` is the last write
/// of path `p` in that layer and no later layer writes `p`, the unpacked
/// root holds at `p` exactly what that entry wrote.
pub proof fn lemma_later_layer_wins(
    fs: Map<Seq<char>, FsNode>,
    layers: Seq<Seq<EntryView>>,
    j: int,
    m: int,
    p: Seq<char>,
)
    requires
        0 <= j < layers.len(),
        0 <= m < layers[j].len(),
        layers[j][m].0 == p,
        forall|i: int| m < i < layers[j].len() ==> (#[trigger] layers[j][i]).0 != p,
        forall|k: int, i: int| j < k < layers.len() && 0 <= i < layers[k].len() ==> (#[trigger] layers[k][i]).0 != p,
    ensures
        apply_layers(fs, layers).contains_key(p),
        apply_layers(fs, layers)[p] == node_of(layers[j][m]),
    decreases layers.len(),
{
    let last = layers.len() - 1;
    assert(layers.last() == layers[last]);
    if j == last {
        lemma_last_write(apply_layers(fs, layers.drop_last()), layers[last], m, p);
    } else {
        assert forall|i: int| 0 <= i < layers[last].len() implies (#[trigger] layers[last][i]).0 != p by {
            assert(layers[last][i] == layers[last][i]);
        }
        lemma_later_layer_wins(fs, layers.drop_last(), j, m, p);
        lemma_untouched(apply_layers(fs, layers.drop_last()), layers[last], p);
    }
}

/// Where the null device lives under `root`.
pub open spec fn dev_null_path_of(root: Seq<char>) -> Seq<char> {
    root + "/dev/null"@
}

/// The null device: a character device, major 1, minor 3, mode `0o666`.
pub open spec fn null_device() -> FsNode {
    FsNode::CharDevice { major: 1, minor: 3, mode: 0o666 }
}

/// The root filesystem after null-device synthesis: unchanged when the path
/// is taken, else with the null device added there.
pub open spec fn with_dev_null(fs: Map<Seq<char>, FsNode>, root: Seq<char>) -> Map<Seq<char>, FsNode> {
    if fs.contains_key(dev_null_path_of(root)) {
        fs
    } else {
        fs.insert(dev_null_path_of(root), null_device())
    }
}

/// Null-device synthesis is idempotent: a second run changes nothing, and
/// the node that the first one made stays as it was.
pub proof fn lemma_dev_null_idempotent(fs: Map<Seq<char>, FsNode>, root: Seq<char>)
    ensures
        with_dev_null(with_dev_null(fs, root), root) == with_dev_null(fs, root),
        with_dev_null(fs, root).contains_key(dev_null_path_of(root)),
        !fs.contains_key(dev_null_path_of(root)) ==> with_dev_null(fs, root)[dev_null_path_of(root)] == null_device(),
{
}

/// The path of the null device under `root`.
pub fn dev_null_path(root: &str) -> (r: String)
    ensures
        r@ == dev_null_path_of(root@),
{
    let mut path = String::from_str(root);
    path.append("/dev/null");
    path
}

/// A character device node to create.
#[derive(Debug, Clone)]
pub struct DeviceNode {
    pub path: String,
    pub major: u64,
    pub minor: u64,
    pub mode: u32,
}

impl DeviceNode {
    pub open spec fn node(&self) -> FsNode {
        FsNode::CharDevice { major: self.major as nat, minor: self.minor as nat, mode: self.mode as nat }
    }
}

/// The null-device node to create under `root`, or `None` when something
/// already stands at its path.
pub fn dev_null_node(root: &str, present: bool) -> (r: Option<DeviceNode>)
    ensures
        r is None <==> present,
        r matches Some(n) ==> n.path@ == dev_null_path_of(root@) && n.node() == null_device(),
{
    if present {
        None
    } else {
        Some(DeviceNode { path: dev_null_path(root), major: 1, minor: 3, mode: 0o666 })
    }
}

} // verus!
