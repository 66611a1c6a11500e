use vstd::prelude::*;

use crate::errors::RunError;

verus! {

// The layer assembler populates the ephemeral root from the manifest's
// layers, in manifest order. Its semantics is a single-branch overlay:
// every entry written later wins over an earlier write of the same path,
// whether the two writes come from one layer or from different layers.
// There is no whiteout support: a path written by any layer stays.

/// What gunzip yields on a byte stream: the decompressed bytes when the
/// stream is a well-formed gzip stream, `None` otherwise. The result is a
/// function of the bytes alone.
pub uninterp spec fn gunzip_of(compressed: Seq<u8>) -> Option<Seq<u8>>;

/// Relies on flate2's read::GzDecoder: reading it to the end yields the
/// decompressed bytes exactly when the input is a well-formed gzip
/// stream, and an error otherwise.
#[verifier::external_body]
fn gunzip(compressed: &Vec<u8>) -> (r: Result<Vec<u8>, String>)
    ensures
        r is Ok <==> gunzip_of(compressed@) is Some,
        r is Ok ==> r->Ok_0@ == gunzip_of(compressed@)->0,
{
    let mut decoder = flate2::read::GzDecoder::new(compressed.as_slice());
    let mut out: Vec<u8> = Vec::new();
    match std::io::Read::read_to_end(&mut decoder, &mut out) {
        Ok(_) => Ok(out),
        Err(e) => Err(format!("{}", e)),
    }
}

/// Decompresses one fetched layer blob. A blob that is not a well-formed
/// gzip stream is fatal — a partially populated root must not be run —
/// and the error names the offending layer's digest.
pub fn decompress_layer(compressed: &Vec<u8>, digest: &str) -> (r: Result<Vec<u8>, RunError>)
    ensures
        r is Ok <==> gunzip_of(compressed@) is Some,
        r is Ok ==> r->Ok_0@ == gunzip_of(compressed@)->0,
        r is Err ==> (r->Err_0 matches RunError::Extract { digest: d, .. } && d@ == digest@),
{
    match gunzip(compressed) {
        Ok(bytes) => Ok(bytes),
        Err(detail) => Err(RunError::Extract { digest: String::from_str(digest), detail }),
    }
}

/// One file a layer writes: the path inside the root, and the content.
pub struct LayerEntry {
    pub path: String,
    pub data: Vec<u8>,
}

/// The map a sequence of writes leaves behind on top of `m`: each entry
/// inserts its path in order, so a later write of a path wins.
pub open spec fn apply_entries(m: Map<Seq<char>, Seq<u8>>, entries: Seq<LayerEntry>) -> Map<
    Seq<char>,
    Seq<u8>,
>
    decreases entries.len(),
{
    if entries.len() == 0 {
        m
    } else {
        apply_entries(m, entries.drop_last()).insert(
            entries.last().path@,
            entries.last().data@,
        )
    }
}

/// The root a whole image leaves behind: the layers applied in manifest
/// order onto an empty directory, each layer's entries in archive order.
pub open spec fn assembled_map(layers: Seq<Seq<LayerEntry>>) -> Map<Seq<char>, Seq<u8>>
    decreases layers.len(),
{
    if layers.len() == 0 {
        Map::empty()
    } else {
        apply_entries(assembled_map(layers.drop_last()), layers.last())
    }
}

/// The views of a vector of layers.
pub open spec fn layer_views(layers: Seq<Vec<LayerEntry>>) -> Seq<Seq<LayerEntry>> {
    layers.map_values(|l: Vec<LayerEntry>| l@)
}

/// The assembled root: the journal of every entry written so far, seen
/// as the path-to-content map those writes leave behind.
pub struct RootImage {
    entries: Vec<LayerEntry>,
}

impl View for RootImage {
    type V = Map<Seq<char>, Seq<u8>>;

    closed spec fn view(&self) -> Map<Seq<char>, Seq<u8>> {
        apply_entries(Map::empty(), self.entries@)
    }
}

impl RootImage {
    /// A freshly created ephemeral root: empty.
    pub fn new() -> (r: RootImage)
        ensures
            r@ == Map::<Seq<char>, Seq<u8>>::empty(),
    {
        RootImage { entries: Vec::new() }
    }

    /// Writes one entry: the path now maps to this content, whatever an
    /// earlier write said.
    pub fn write_entry(&mut self, e: LayerEntry)
        ensures
            final(self)@ == old(self)@.insert(e.path@, e.data@),
    {
        self.entries.push(e);
        proof {
            assert(self.entries@.drop_last() =~= old(self).entries@);
        }
    }

    /// Applies one layer: its entries are written in archive order.
    pub fn apply_layer(&mut self, layer: &Vec<LayerEntry>)
        ensures
            final(self)@ == apply_entries(old(self)@, layer@),
    {
        let n = layer.len();
        let mut i: usize = 0;
        while i < n
            invariant
                i <= n,
                n == layer@.len(),
                self@ == apply_entries(old(self)@, layer@.subrange(0, i as int)),
            decreases n - i,
        {
            let e = &layer[i];
            self.write_entry(LayerEntry { path: e.path.clone(), data: e.data.clone() });
            proof {
                assert(layer@.subrange(0, i + 1 as int).drop_last() =~= layer@.subrange(
                    0,
                    i as int,
                ));
            }
            i = i + 1;
        }
        proof {
            assert(layer@.subrange(0, n as int) =~= layer@);
        }
    }

    /// Assembles a whole image: the layers are applied in manifest order
    /// onto an empty root.
    pub fn assemble(layers: &Vec<Vec<LayerEntry>>) -> (r: RootImage)
        ensures
            r@ == assembled_map(layer_views(layers@)),
    {
        let mut root = RootImage::new();
        let n = layers.len();
        let mut i: usize = 0;
        while i < n
            invariant
                i <= n,
                n == layers@.len(),
                root@ == assembled_map(layer_views(layers@.subrange(0, i as int))),
            decreases n - i,
        {
            root.apply_layer(&layers[i]);
            proof {
                let prefix = layer_views(layers@.subrange(0, i + 1 as int));
                assert(prefix.drop_last() =~= layer_views(layers@.subrange(0, i as int)));
                assert(prefix.last() == layers@[i as int]@);
            }
            i = i + 1;
        }
        proof {
            assert(layer_views(layers@.subrange(0, n as int)) =~= layer_views(layers@));
        }
        root
    }

    /// The content the assembled root holds at a path, when some write
    /// put one there.
    pub fn content_of(&self, path: &String) -> (r: Option<&Vec<u8>>)
        ensures
            r is Some <==> self@.contains_key(path@),
            r is Some ==> r->0@ == self@[path@],
    {
        let mut i: usize = self.entries.len();
        while i > 0
            invariant
                i <= self.entries@.len(),
                forall|j: int|
                    i <= j < self.entries@.len() ==> self.entries@[j].path@ != path@,
            decreases i,
        {
            i = i - 1;
            if self.entries[i].path == *path {
                proof {
                    lemma_apply_entries_lookup(
                        Map::<Seq<char>, Seq<u8>>::empty(),
                        self.entries@,
                        path@,
                    );
                }
                return Some(&self.entries[i].data);
            }
        }
        proof {
            lemma_apply_entries_lookup(Map::<Seq<char>, Seq<u8>>::empty(), self.entries@, path@);
        }
        None
    }
}

/// How a fold of writes answers a lookup: a path is present when it was
/// present before or some write names it; the last write of a path gives
/// its content; a path no write names keeps its old content.
proof fn lemma_apply_entries_lookup(m: Map<Seq<char>, Seq<u8>>, s: Seq<LayerEntry>, p: Seq<char>)
    ensures
        apply_entries(m, s).contains_key(p) <==> (m.contains_key(p) || exists|k: int|
            0 <= k < s.len() && s[k].path@ == p),
        forall|k: int|
            (0 <= k < s.len() && s[k].path@ == p && (forall|j: int|
                k < j < s.len() ==> s[j].path@ != p)) ==> apply_entries(m, s)[p] == s[k].data@,
        ((forall|k: int| 0 <= k < s.len() ==> s[k].path@ != p) && m.contains_key(p))
            ==> apply_entries(m, s)[p] == m[p],
    decreases s.len(),
{
    if s.len() == 0 {
    } else {
        let s0 = s.drop_last();
        lemma_apply_entries_lookup(m, s0, p);
        if s.last().path@ == p {
            assert(s[s.len() - 1].path@ == p);
            assert forall|k: int|
                (0 <= k < s.len() && s[k].path@ == p && (forall|j: int|
                    k < j < s.len() ==> s[j].path@ != p)) implies apply_entries(m, s)[p]
                == s[k].data@ by {
                if k < s.len() - 1 {
                    assert(s[s.len() - 1].path@ != p);
                } else {
                    assert(apply_entries(m, s)[p] == s.last().data@);
                }
            }
        } else {
            if exists|k: int| 0 <= k < s0.len() && s0[k].path@ == p {
                let k = choose|k: int| 0 <= k < s0.len() && s0[k].path@ == p;
                assert(s[k].path@ == p);
            }
            if exists|k: int| 0 <= k < s.len() && s[k].path@ == p {
                let k = choose|k: int| 0 <= k < s.len() && s[k].path@ == p;
                assert(k < s.len() - 1);
                assert(s0[k].path@ == p);
            }
            assert forall|k: int|
                (0 <= k < s.len() && s[k].path@ == p && (forall|j: int|
                    k < j < s.len() ==> s[j].path@ != p)) implies apply_entries(m, s)[p]
                == s[k].data@ by {
                assert(k < s.len() - 1);
                assert(0 <= k < s0.len() && s0[k].path@ == p);
                assert(forall|j: int| k < j < s0.len() ==> s0[j].path@ != p);
            }
            if (forall|k: int| 0 <= k < s.len() ==> s[k].path@ != p) && m.contains_key(p) {
                assert(forall|k: int| 0 <= k < s0.len() ==> s0[k].path@ != p);
            }
        }
    }
}

/// Law: the assembled root contains the union of the layers' paths — a
/// path is present exactly when some layer writes it.
pub proof fn lemma_assembled_domain(layers: Seq<Seq<LayerEntry>>, p: Seq<char>)
    ensures
        assembled_map(layers).contains_key(p) <==> (exists|i: int, j: int|
            0 <= i < layers.len() && 0 <= j < layers[i].len() && layers[i][j].path@ == p),
    decreases layers.len(),
{
    if layers.len() == 0 {
    } else {
        let prev = layers.drop_last();
        lemma_assembled_domain(prev, p);
        lemma_apply_entries_lookup(assembled_map(prev), layers.last(), p);
        if exists|j: int| 0 <= j < layers.last().len() && layers.last()[j].path@ == p {
            let j = choose|j: int| 0 <= j < layers.last().len() && layers.last()[j].path@ == p;
            assert(layers[layers.len() - 1][j].path@ == p);
        } else if exists|i: int, j: int|
            0 <= i < prev.len() && 0 <= j < prev[i].len() && prev[i][j].path@ == p {
            let (i, j) = choose|i: int, j: int|
                0 <= i < prev.len() && 0 <= j < prev[i].len() && prev[i][j].path@ == p;
            assert(layers[i][j].path@ == p);
        } else {
            assert forall|i: int, j: int|
                0 <= i < layers.len() && 0 <= j < layers[i].len() implies layers[i][j].path@
                != p by {
                if i < layers.len() - 1 {
                    assert(prev[i][j].path@ != p);
                } else {
                    assert(layers.last()[j].path@ != p);
                }
            }
        }
    }
}

/// Law: a later write wins — when entry `j` of layer `i` is the last
/// write of its path, in its own layer and across all later layers, the
/// assembled root holds exactly its content at that path.
pub proof fn lemma_later_layer_wins(layers: Seq<Seq<LayerEntry>>, i: int, j: int)
    requires
        0 <= i < layers.len(),
        0 <= j < layers[i].len(),
        forall|j2: int| j < j2 < layers[i].len() ==> layers[i][j2].path@ != layers[i][j].path@,
        forall|i2: int, j2: int|
            i < i2 < layers.len() && 0 <= j2 < layers[i2].len() ==> layers[i2][j2].path@
                != layers[i][j].path@,
    ensures
        assembled_map(layers).contains_key(layers[i][j].path@),
        assembled_map(layers)[layers[i][j].path@] == layers[i][j].data@,
    decreases layers.len(),
{
    let p = layers[i][j].path@;
    let prev = layers.drop_last();
    lemma_apply_entries_lookup(assembled_map(prev), layers.last(), p);
    if i == layers.len() - 1 {
        assert(layers.last()[j].path@ == p);
        assert(forall|j2: int| j < j2 < layers.last().len() ==> layers.last()[j2].path@ != p);
    } else {
        lemma_later_layer_wins(prev, i, j);
        assert(prev[i][j].path@ == p);
        assert forall|j2: int| 0 <= j2 < layers.last().len() implies layers.last()[j2].path@
            != p by {
            assert(layers[layers.len() - 1][j2].path@ != p);
        }
    }
}

} // verus!
