//! The image resource binder: path resolution against the document base, a
//! deduplicating resource cache fed by an explicit storage capability, the
//! classification of acquisition failures into span-tagged diagnostics, and
//! the `image` element entry point.

use vstd::prelude::*;
use vstd::string::StrSliceExecFns;
use vstd::string::StringExecFns;

use crate::geom::Linear;
use crate::layout::LayoutNode;
use crate::layout::NodeView;
use crate::layout::node_view;

verus! {

/// A source span: where an argument was written in the source document.
#[derive(Clone, Copy, PartialEq, Eq, Structural, Debug)]
pub struct Span {
    pub start: u64,
    pub end: u64,
}

/// A path argument paired with the source span it was written at.
#[derive(Debug)]
pub struct Spanned {
    pub v: String,
    pub span: Span,
}

/// A user-facing diagnostic: a message attached to the source span of the
/// offending argument.
#[derive(Debug)]
pub struct Diag {
    pub message: String,
    pub span: Span,
}

/// How the storage answers for one resolved path: readable, or failing with
/// the underlying error's description.
#[derive(Debug)]
pub enum FileState {
    Readable,
    Failing(String),
}

/// One storage entry: a resolved path and how reading it turns out.
#[derive(Debug)]
pub struct FileRecord {
    pub path: String,
    pub state: FileState,
}

/// What this subsystem sees of the underlying storage: the resolved paths it
/// can answer for. A path with no record is not found.
#[derive(Debug)]
pub struct FileStore {
    pub files: Vec<FileRecord>,
}

/// The ghost mirror of one storage answer.
pub ghost enum FileStatus {
    Readable,
    Failing(Seq<char>),
}

/// The ghost mirror of one storage entry.
pub open spec fn file_state_view(st: &FileState) -> FileStatus {
    match st {
        FileState::Readable => FileStatus::Readable,
        FileState::Failing(d) => FileStatus::Failing(d@),
    }
}

/// The ghost mirror of the storage: resolved paths and their answers, in
/// record order.
pub open spec fn store_view(s: &FileStore) -> Seq<(Seq<char>, FileStatus)> {
    s.files@.map_values(|r: FileRecord| (r.path@, file_state_view(&r.state)))
}

/// The first storage answer for a path, if any record names it.
pub open spec fn store_find(s: Seq<(Seq<char>, FileStatus)>, p: Seq<char>) -> Option<FileStatus>
    decreases s.len(),
{
    if s.len() == 0 {
        None
    } else if s[0].0 == p {
        Some(s[0].1)
    } else {
        store_find(s.drop_first(), p)
    }
}

/// If every record before position `i` names another path and the record at
/// `i` names this one, the storage answers with the record at `i`.
proof fn lemma_store_find_at(s: Seq<(Seq<char>, FileStatus)>, p: Seq<char>, i: int)
    requires
        0 <= i < s.len(),
        forall|j: int| 0 <= j < i ==> s[j].0 != p,
        s[i].0 == p,
    ensures
        store_find(s, p) == Some(s[i].1),
    decreases i,
{
    if i > 0 {
        lemma_store_find_at(s.drop_first(), p, i - 1);
    }
}

/// If no record names the path, the storage has no answer for it.
proof fn lemma_store_find_none(s: Seq<(Seq<char>, FileStatus)>, p: Seq<char>)
    requires
        forall|j: int| 0 <= j < s.len() ==> s[j].0 != p,
    ensures
        store_find(s, p) is None,
    decreases s.len(),
{
    if s.len() > 0 {
        lemma_store_find_none(s.drop_first(), p);
    }
}

/// Looks up how the storage answers for a resolved path.
fn store_probe<'a>(store: &'a FileStore, path: &String) -> (r: Option<&'a FileState>)
    ensures
        match r {
            Some(st) => store_find(store_view(store), path@) == Some(file_state_view(st)),
            None => store_find(store_view(store), path@) is None,
        },
{
    let mut i: usize = 0;
    while i < store.files.len()
        invariant
            0 <= i <= store.files@.len(),
            forall|j: int| 0 <= j < i ==> store.files@[j].path@ != path@,
        decreases store.files@.len() - i,
    {
        if store.files[i].path == *path {
            proof {
                lemma_store_find_at(store_view(store), path@, i as int);
            }
            return Some(&store.files[i].state);
        }
        i = i + 1;
    }
    proof {
        lemma_store_find_none(store_view(store), path@);
    }
    None
}

/// The error raised when a resource cannot be acquired: nothing is at the
/// path, or reading failed for another reason, with its description.
#[derive(Debug)]
pub enum LoadError {
    NotFound,
    Other(String),
}

/// The ghost mirror of an acquisition error.
pub ghost enum ErrView {
    NotFound,
    Other(Seq<char>),
}

/// The ghost mirror of an acquisition error value.
pub open spec fn load_error_view(e: &LoadError) -> ErrView {
    match e {
        LoadError::NotFound => ErrView::NotFound,
        LoadError::Other(d) => ErrView::Other(d@),
    }
}

/// The evaluation context's image resource table: resolved paths in load
/// order, the handle of each being its index, together with a count of how
/// many times the underlying storage was actually read.
#[derive(Debug)]
pub struct ImageCache {
    pub paths: Vec<String>,
    pub loads: u64,
}

/// The ghost mirror of the cache.
pub ghost struct CacheView {
    pub paths: Seq<Seq<char>>,
    pub loads: int,
}

/// The ghost mirror of the cache's state.
pub open spec fn cache_view(c: &ImageCache) -> CacheView {
    CacheView { paths: c.paths@.map_values(|p: String| p@), loads: c.loads as int }
}

/// A cache is well-formed when no resolved path is cached twice and the
/// storage was read exactly once per cached resource.
pub open spec fn cache_wf(c: CacheView) -> bool {
    &&& forall|i: int, j: int| 0 <= i < j < c.paths.len() ==> c.paths[i] != c.paths[j]
    &&& c.loads == c.paths.len()
}

/// The handle of the first cached resource with this path, if any.
pub open spec fn find_path(paths: Seq<Seq<char>>, p: Seq<char>) -> Option<int>
    decreases paths.len(),
{
    if paths.len() == 0 {
        None
    } else if paths[0] == p {
        Some(0int)
    } else {
        match find_path(paths.drop_first(), p) {
            Some(i) => Some(i + 1),
            None => None,
        }
    }
}

/// If every cached path before position `i` differs and the one at `i`
/// matches, the cache answers with handle `i`.
proof fn lemma_find_path_at(paths: Seq<Seq<char>>, p: Seq<char>, i: int)
    requires
        0 <= i < paths.len(),
        forall|j: int| 0 <= j < i ==> paths[j] != p,
        paths[i] == p,
    ensures
        find_path(paths, p) == Some(i),
    decreases i,
{
    if i > 0 {
        lemma_find_path_at(paths.drop_first(), p, i - 1);
    }
}

/// If no cached path matches, the cache has no handle for the path.
proof fn lemma_find_path_none(paths: Seq<Seq<char>>, p: Seq<char>)
    requires
        forall|j: int| 0 <= j < paths.len() ==> paths[j] != p,
    ensures
        find_path(paths, p) is None,
    decreases paths.len(),
{
    if paths.len() > 0 {
        lemma_find_path_none(paths.drop_first(), p);
    }
}

/// Appending a path the cache does not hold makes it findable at the old
/// length: the handle a fresh load hands out.
proof fn lemma_find_path_push(paths: Seq<Seq<char>>, p: Seq<char>)
    requires
        find_path(paths, p) is None,
    ensures
        find_path(paths.push(p), p) == Some(paths.len() as int),
    decreases paths.len(),
{
    if paths.len() == 0 {
        assert(paths.push(p)[0] == p);
    } else {
        assert(paths[0] != p);
        lemma_find_path_push(paths.drop_first(), p);
        assert(paths.push(p).drop_first() =~= paths.drop_first().push(p));
    }
}

/// One acquisition step: the returned handle or classified error, and the
/// cache afterwards.
pub ghost struct LoadStep {
    pub result: Result<int, ErrView>,
    pub cache: CacheView,
}

/// What acquiring a handle does: a cached path is answered without touching
/// storage; a new readable path is read once and appended; a missing or
/// failing path leaves the cache unchanged and yields the classified error.
pub open spec fn spec_load(
    c: CacheView,
    s: Seq<(Seq<char>, FileStatus)>,
    p: Seq<char>,
) -> LoadStep {
    match find_path(c.paths, p) {
        Some(i) => LoadStep { result: Ok(i), cache: c },
        None => match store_find(s, p) {
            Some(FileStatus::Readable) => LoadStep {
                result: Ok(c.paths.len() as int),
                cache: CacheView { paths: c.paths.push(p), loads: c.loads + 1 },
            },
            Some(FileStatus::Failing(d)) => LoadStep { result: Err(ErrView::Other(d)), cache: c },
            None => LoadStep { result: Err(ErrView::NotFound), cache: c },
        },
    }
}

impl ImageCache {
    /// An empty cache: nothing loaded yet.
    pub fn new() -> (c: ImageCache)
        ensures
            cache_view(&c) == (CacheView { paths: Seq::<Seq<char>>::empty(), loads: 0int }),
            cache_wf(cache_view(&c)),
    {
        let c = ImageCache { paths: Vec::new(), loads: 0 };
        proof {
            assert(cache_view(&c).paths =~= Seq::<Seq<char>>::empty());
        }
        c
    }

    /// Acquires the handle for a resolved path: the cached handle when the
    /// path was loaded before, else one freshly read from storage.
    /// Acquisition is idempotent: repeated requests for the same resolved
    /// path return the same handle without re-reading the resource.
    pub fn load(&mut self, store: &FileStore, path: &String) -> (r: Result<usize, LoadError>)
        requires
            cache_wf(cache_view(old(self))),
            old(self).paths@.len() < usize::MAX,
        ensures
            cache_wf(cache_view(final(self))),
            ({
                let step = spec_load(cache_view(old(self)), store_view(store), path@);
                &&& cache_view(final(self)) == step.cache
                &&& match r {
                    Ok(id) => step.result == Ok::<int, ErrView>(id as int),
                    Err(e) => step.result == Err::<int, ErrView>(load_error_view(&e)),
                }
            }),
    {
        let mut i: usize = 0;
        while i < self.paths.len()
            invariant
                0 <= i <= self.paths@.len(),
                forall|j: int| 0 <= j < i ==> self.paths@[j]@ != path@,
                self.paths == old(self).paths,
                self.loads == old(self).loads,
                cache_wf(cache_view(old(self))),
            decreases self.paths@.len() - i,
        {
            if self.paths[i] == *path {
                proof {
                    let paths_v = cache_view(self).paths;
                    assert(paths_v[i as int] == self.paths@[i as int]@);
                    lemma_find_path_at(paths_v, path@, i as int);
                }
                return Ok(i);
            }
            i = i + 1;
        }
        let ghost c0 = cache_view(self);
        proof {
            assert(forall|j: int|
                0 <= j < c0.paths.len() ==> c0.paths[j] == self.paths@[j]@);
            lemma_find_path_none(c0.paths, path@);
        }
        match store_probe(store, path) {
            Some(st) => match st {
                FileState::Readable => {
                    let id = self.paths.len();
                    self.paths.push(path.clone());
                    self.loads = self.loads + 1;
                    proof {
                        assert(cache_view(self).paths =~= c0.paths.push(path@));
                        let c1 = cache_view(self);
                        assert forall|a: int, b: int|
                            0 <= a < b < c1.paths.len() implies c1.paths[a] != c1.paths[b] by {
                            if b == c1.paths.len() - 1 {
                                assert(c1.paths[a] == c0.paths[a]);
                            }
                        }
                    }
                    Ok(id)
                },
                FileState::Failing(d) => Err(LoadError::Other(d.clone())),
            },
            None => Err(LoadError::NotFound),
        }
    }
}

/// A found handle indexes a cached path equal to the requested one.
proof fn lemma_find_path_some_valid(paths: Seq<Seq<char>>, p: Seq<char>)
    requires
        find_path(paths, p) is Some,
    ensures
        ({
            let i = find_path(paths, p)->0;
            &&& 0 <= i < paths.len()
            &&& paths[i] == p
        }),
    decreases paths.len(),
{
    if paths.len() > 0 && paths[0] != p {
        lemma_find_path_some_valid(paths.drop_first(), p);
    }
}

/// A successful acquisition hands back a handle that references the resource
/// cached for exactly the requested resolved path.
pub proof fn lemma_load_handle_names_path(
    c: CacheView,
    s: Seq<(Seq<char>, FileStatus)>,
    p: Seq<char>,
)
    requires
        spec_load(c, s, p).result is Ok,
    ensures
        ({
            let step = spec_load(c, s, p);
            &&& 0 <= step.result->Ok_0 < step.cache.paths.len()
            &&& step.cache.paths[step.result->Ok_0] == p
        }),
{
    if find_path(c.paths, p) is Some {
        lemma_find_path_some_valid(c.paths, p);
    }
}

/// Loading the same resolved path twice within one evaluation run yields the
/// same handle, and the underlying resource is read from storage only once:
/// the second acquisition answers from the cache and changes nothing.
pub proof fn lemma_load_dedup(c: CacheView, s: Seq<(Seq<char>, FileStatus)>, p: Seq<char>)
    requires
        spec_load(c, s, p).result is Ok,
    ensures
        ({
            let first = spec_load(c, s, p);
            let second = spec_load(first.cache, s, p);
            &&& second.result == first.result
            &&& second.cache == first.cache
        }),
{
    if find_path(c.paths, p) is None {
        lemma_find_path_push(c.paths, p);
    }
}

/// The resolved form of a path: an absolute path stands as it is; any other
/// is taken relative to the document's base location.
pub open spec fn spec_resolved(base: Seq<char>, path: Seq<char>) -> Seq<char> {
    if path.len() > 0 && path[0] == '/' {
        path
    } else {
        base + "/"@ + path
    }
}

/// Resolves a path string against the document's base location.
pub fn relpath(base: &String, path: &String) -> (full: String)
    ensures
        full@ == spec_resolved(base@, path@),
{
    let p = path.as_str();
    if !p.is_empty() && p.get_char(0) == '/' {
        path.clone()
    } else {
        let mut full = base.clone();
        full.append("/");
        full.append(path.as_str());
        full
    }
}

/// The exact diagnostic message for each acquisition failure: absence reads
/// "file not found"; any other failure reads "failed to load image (...)"
/// around the underlying error's description.
pub open spec fn spec_error_message(e: ErrView) -> Seq<char> {
    match e {
        ErrView::NotFound => "file not found"@,
        ErrView::Other(d) => "failed to load image ("@ + d + ")"@,
    }
}

/// Classifies a failed acquisition into the user-facing diagnostic, attached
/// to the source span of the path argument as supplied by the caller.
pub fn load_error_diag(err: LoadError, span: Span) -> (d: Diag)
    ensures
        d.span == span,
        d.message@ == spec_error_message(load_error_view(&err)),
{
    match err {
        LoadError::NotFound => Diag { message: String::from_str("file not found"), span },
        LoadError::Other(desc) => {
            let mut m = String::from_str("failed to load image (");
            m.append(desc.as_str());
            m.append(")");
            Diag { message: m, span }
        },
    }
}

/// `image`: an image element. Resolves the path against the document base,
/// acquires a deduplicated resource handle from the cache, and produces an
/// image node carrying the handle and the optional explicit width and
/// height. A failed acquisition becomes a diagnostic attached to the span of
/// the path argument: its message is exactly "file not found" for a missing
/// file, and "failed to load image (...)" around the underlying description
/// for any other failure.
pub fn image(
    cache: &mut ImageCache,
    store: &FileStore,
    base: &String,
    path: &Spanned,
    width: Option<Linear>,
    height: Option<Linear>,
) -> (r: Result<LayoutNode, Diag>)
    requires
        cache_wf(cache_view(old(cache))),
        old(cache).paths@.len() < usize::MAX,
    ensures
        cache_wf(cache_view(final(cache))),
        ({
            let step = spec_load(
                cache_view(old(cache)),
                store_view(store),
                spec_resolved(base@, path.v@),
            );
            &&& cache_view(final(cache)) == step.cache
            &&& (r is Ok <==> step.result is Ok)
            &&& match r {
                Ok(node) => node_view(&node) == (NodeView::Image {
                    id: step.result->Ok_0 as usize,
                    width,
                    height,
                }) && step.result->Ok_0 as usize as int == step.result->Ok_0,
                Err(d) => d.message@ == spec_error_message(step.result->Err_0) && d.span
                    == path.span,
            }
        }),
{
    let full = relpath(base, &path.v);
    match cache.load(store, &full) {
        Ok(id) => Ok(LayoutNode::Image { id, width, height }),
        Err(e) => Err(load_error_diag(e, path.span)),
    }
}

} // verus!
