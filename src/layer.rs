use vstd::prelude::*;
use crate::error::ContainerError;

verus! {

/// An entry as it is modelled: a path, whether it is a directory, and its
/// contents.
pub type EntryView = (Seq<char>, bool, Seq<u8>);

/// One entry of a layer archive.
#[derive(Debug, Clone)]
pub struct ArchiveEntry {
    pub path: String,
    pub is_dir: bool,
    pub contents: Vec<u8>,
}

impl ArchiveEntry {
    pub open spec fn view(&self) -> EntryView {
        (self.path@, self.is_dir, self.contents@)
    }
}

/// One write that materialises an archive entry under the root: a directory
/// to create, or a regular file to write with the given contents.
#[derive(Debug, Clone)]
pub struct FsWrite {
    pub target: String,
    pub is_dir: bool,
    pub contents: Vec<u8>,
}

impl FsWrite {
    pub open spec fn view(&self) -> EntryView {
        (self.target@, self.is_dir, self.contents@)
    }
}

pub open spec fn entries_view(es: Seq<ArchiveEntry>) -> Seq<EntryView> {
    es.map_values(|e: ArchiveEntry| e.view())
}

pub open spec fn writes_view(ws: Seq<FsWrite>) -> Seq<EntryView> {
    ws.map_values(|w: FsWrite| w.view())
}

/// The bytes that a gzip stream decompresses to; `None` for a malformed one.
pub uninterp spec fn gunzip_of(data: Seq<u8>) -> Option<Seq<u8>>;

/// The entries that a tar stream holds, in archive order; `None` for a
/// malformed one.
pub uninterp spec fn tar_entries_of(data: Seq<u8>) -> Option<Seq<EntryView>>;

/// Relies on flate2's `GzDecoder` read to the end: the decompressed bytes,
/// or nothing when the stream cannot be decoded.
#[verifier::external_body]
fn gunzip(data: &[u8]) -> (r: Option<Vec<u8>>)
    ensures
        r matches Some(v) ==> gunzip_of(data@) == Some(v@),
        r is None ==> gunzip_of(data@) is None,
{
    let mut out = Vec::new();
    match std::io::Read::read_to_end(&mut flate2::read::GzDecoder::new(data), &mut out) {
        Ok(_) => Some(out),
        Err(_) => None,
    }
}

/// Relies on tar's `Archive::entries`: each entry's path (read lossily as
/// text), whether its header marks a directory, and its contents, in
/// archive order; nothing when the stream cannot be read.
#[verifier::external_body]
fn tar_entries(data: &[u8]) -> (r: Option<Vec<ArchiveEntry>>)
    ensures
        r matches Some(v) ==> tar_entries_of(data@) == Some(entries_view(v@)),
        r is None ==> tar_entries_of(data@) is None,
{
    let mut archive = tar::Archive::new(data);
    let mut out = Vec::new();
    for entry in archive.entries().ok()? {
        let mut entry = entry.ok()?;
        let path = entry.path().ok()?.to_string_lossy().into_owned();
        let is_dir = entry.header().entry_type().is_dir();
        let mut contents = Vec::new();
        std::io::Read::read_to_end(&mut entry, &mut contents).ok()?;
        out.push(ArchiveEntry { path, is_dir, contents });
    }
    Some(out)
}

/// Whether a `..` component starts at index `i` of `p`.
pub open spec fn parent_component_at(p: Seq<char>, i: int) -> bool {
    &&& 0 <= i && i + 1 < p.len()
    &&& p[i] == '.' && p[i + 1] == '.'
    &&& (i == 0 || p[i - 1] == '/')
    &&& (i + 2 == p.len() || p[i + 2] == '/')
}

/// Whether an archive path stays inside the directory it is unpacked into:
/// it is relative and none of its components is `..`.
pub open spec fn stays_inside(p: Seq<char>) -> bool {
    &&& !(p.len() > 0 && p[0] == '/')
    &&& forall|i: int| !parent_component_at(p, i)
}

/// Decides `stays_inside` for an archive path.
pub fn path_stays_inside(p: &str) -> (r: bool)
    ensures
        r == stays_inside(p@),
{
    let n = p.unicode_len();
    if n > 0 && p.get_char(0) == '/' {
        return false;
    }
    let mut i: usize = 0;
    while i < n
        invariant
            n == p@.len(),
            i <= n,
            forall|j: int| 0 <= j < i ==> !parent_component_at(p@, j),
        decreases n - i,
    {
        if i + 1 < n && p.get_char(i) == '.' && p.get_char(i + 1) == '.' && (i == 0 || p.get_char(i - 1) == '/') && (i + 2
            == n || p.get_char(i + 2) == '/') {
            assert(parent_component_at(p@, i as int));
            return false;
        }
        i = i + 1;
    }
    true
}

/// Where an entry lands under `root`: `root/path`, same kind and contents.
pub open spec fn placed(root: Seq<char>, e: EntryView) -> EntryView {
    (root + seq!['/'] + e.0, e.1, e.2)
}

/// The writes that unpack `entries` into `root`, in archive order; `None`
/// when some entry's path would leave `root`.
pub open spec fn planned_writes(root: Seq<char>, entries: Seq<EntryView>) -> Option<Seq<EntryView>> {
    if forall|i: int| 0 <= i < entries.len() ==> stays_inside(#[trigger] entries[i].0) {
        Some(entries.map_values(|e: EntryView| placed(root, e)))
    } else {
        None
    }
}

/// Turns the entries of one layer archive into the writes that unpack it
/// into `root`. Fails with `Extraction` when an entry's path is absolute or
/// climbs out through `..`.
pub fn plan_entries(root: &str, entries: Vec<ArchiveEntry>) -> (r: Result<Vec<FsWrite>, ContainerError>)
    ensures
        r is Err <==> planned_writes(root@, entries_view(entries@)) is None,
        r is Err ==> r->Err_0 == ContainerError::Extraction,
        r matches Ok(ws) ==> planned_writes(root@, entries_view(entries@)) == Some(writes_view(ws@)),
{
    let ghost orig = entries_view(entries@);
    let mut rest = entries;
    let mut out: Vec<FsWrite> = Vec::new();
    let ghost mut k: int = 0;
    while rest.len() > 0
        invariant
            orig == entries_view(entries@),
            0 <= k <= orig.len(),
            entries_view(rest@) == orig.subrange(k, orig.len() as int),
            out@.len() == k,
            forall|j: int| 0 <= j < k ==> stays_inside(#[trigger] orig[j].0),
            forall|j: int| 0 <= j < k ==> (#[trigger] out@[j]).view() == placed(root@, orig[j]),
        decreases rest@.len(),
    {
        let ghost before = rest@;
        let e = rest.remove(0);
        assert(entries_view(rest@) =~= entries_view(before).subrange(1, before.len() as int));
        assert(e.view() == entries_view(before)[0]);
        assert(entries_view(before).len() == before.len());
        assert(entries_view(before)[0] == orig[k]);
        assert(k < orig.len());
        if !path_stays_inside(e.path.as_str()) {
            assert(!stays_inside(entries_view(entries@)[k].0));
            return Err(ContainerError::Extraction);
        }
        let mut target = String::from_str(root);
        target.append("/");
        target.append(e.path.as_str());
        proof {
            reveal_strlit("/");
        }
        out.push(FsWrite { target, is_dir: e.is_dir, contents: e.contents });
        proof {
            k = k + 1;
        }
    }
    assert(writes_view(out@) =~= orig.map_values(|e: EntryView| placed(root@, e)));
    Ok(out)
}

/// The writes that unpack the gzip-compressed tar `blob` into `root`;
/// `None` when it cannot be decoded or an entry's path leaves `root`.
pub open spec fn layer_writes_of(root: Seq<char>, blob: Seq<u8>) -> Option<Seq<EntryView>> {
    match gunzip_of(blob) {
        None => None,
        Some(tar) => match tar_entries_of(tar) {
            None => None,
            Some(entries) => planned_writes(root, entries),
        },
    }
}

/// Decompresses and reads one layer blob and plans its unpacking into
/// `root`. Fails with `Extraction` when the blob is not a gzip-compressed
/// tar stream or an entry's path leaves `root`.
pub fn unpack_layer(root: &str, blob: &[u8]) -> (r: Result<Vec<FsWrite>, ContainerError>)
    ensures
        r is Err <==> layer_writes_of(root@, blob@) is None,
        r is Err ==> r->Err_0 == ContainerError::Extraction,
        r matches Ok(ws) ==> layer_writes_of(root@, blob@) == Some(writes_view(ws@)),
{
    let tar = match gunzip(blob) {
        Some(t) => t,
        None => return Err(ContainerError::Extraction),
    };
    let entries = match tar_entries(tar.as_slice()) {
        Some(es) => es,
        None => return Err(ContainerError::Extraction),
    };
    plan_entries(root, entries)
}

} // verus!
