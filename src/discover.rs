use vstd::prelude::*;
use crate::classify::{accepts, carrier};
use crate::dedup::{sha256_hex, Digests};
use vstd::slice::slice_to_vec;

verus! {

/// A file accepted as a plausible carrier.
pub struct Candidate {
    /// Path of the file.
    pub path: String,
    /// Directory whose listing yielded the file.
    pub dir: String,
    /// Size of the file in bytes.
    pub size: u64,
    /// Leading bytes of the file, as read for the signature test.
    pub header: Vec<u8>,
    /// Content digest, present exactly when duplicates are skipped.
    pub digest: Option<String>,
}

/// A directory walk in progress.
///
/// The caller lists directories and reports their entries; the walk decides
/// which directories are still to be listed and which files become
/// candidates.  Directories wait on an explicit stack, so the depth of the
/// tree never reaches the call stack.
pub struct Discovery {
    /// Directory the walk started from.
    pub root: String,
    /// Files smaller than this are rejected.
    pub min_size: u64,
    /// Skip files whose content equals that of an earlier candidate.
    pub dedup: bool,
    /// Descend into subdirectories.
    pub recursive: bool,
    /// Directories still to be listed; the last one goes first.
    pub pending: Vec<String>,
    /// Directory whose entries are being reported.
    pub current: Option<String>,
    /// Files accepted so far, in the order they were accepted.
    pub candidates: Vec<Candidate>,
    /// Digests of the candidates, when duplicates are skipped.
    pub digests: Digests,
    /// Contents of the candidates, when duplicates are skipped.
    pub contents: Ghost<Seq<Seq<u8>>>,
}

/// The digest text of a candidate; empty when it has none.
pub open spec fn digest_of(c: Candidate) -> Seq<char> {
    match c.digest {
        Some(d) => d@,
        None => Seq::empty(),
    }
}

impl Discovery {
    /// The walk's invariant.
    pub open spec fn wf(&self) -> bool {
        let cs = self.candidates@;
        &&& forall|i: int| 0 <= i < cs.len() ==>
                #[trigger] carrier(cs[i].size, cs[i].header@, self.min_size)
        &&& forall|i: int| 0 <= i < cs.len() ==> (#[trigger] cs[i].digest is Some) == self.dedup
        &&& !self.recursive ==> {
            &&& forall|j: int| 0 <= j < self.pending@.len() ==> #[trigger] self.pending@[j]@ == self.root@
            &&& forall|i: int| 0 <= i < cs.len() ==> #[trigger] cs[i].dir@ == self.root@
            &&& self.current matches Some(c) ==> c@ == self.root@
        }
        &&& self.dedup ==> {
            &&& self.contents@.len() == cs.len()
            &&& self.digests@ == cs.map_values(|c: Candidate| digest_of(c))
            &&& forall|i: int| 0 <= i < cs.len() ==>
                    digest_of(#[trigger] cs[i]) == sha256_hex(self.contents@[i])
            &&& forall|i: int, j: int| 0 <= i < j < cs.len() ==>
                    digest_of(#[trigger] cs[i]) != digest_of(#[trigger] cs[j])
        }
    }

    /// Starts a walk at `root`.
    pub fn new(root: String, min_size: u64, dedup: bool, recursive: bool) -> (r: Self)
        ensures
            r.wf(),
            r.root == root,
            r.min_size == min_size,
            r.dedup == dedup,
            r.recursive == recursive,
            r.pending@ == seq![root],
            r.current is None,
            r.candidates@.len() == 0,
    {
        let mut pending: Vec<String> = Vec::new();
        pending.push(root.clone());
        let r = Discovery {
            root,
            min_size,
            dedup,
            recursive,
            pending,
            current: None,
            candidates: Vec::new(),
            digests: Digests::new(),
            contents: Ghost(Seq::empty()),
        };
        assert(r.digests@ =~= r.candidates@.map_values(|c: Candidate| digest_of(c)));
        r
    }

    /// Takes the next directory to list, or `None` when the walk is over.
    /// The directory becomes the one whose entries are reported next.
    pub fn next_dir(&mut self) -> (r: Option<String>)
        requires
            old(self).wf(),
        ensures
            final(self).wf(),
            old(self).pending@.len() == 0 ==> r is None && final(self).pending@.len() == 0,
            old(self).pending@.len() > 0 ==> {
                &&& r == Some(old(self).pending@.last())
                &&& final(self).pending@ == old(self).pending@.drop_last()
            },
            final(self).current == r,
            final(self).candidates == old(self).candidates,
            final(self).root == old(self).root,
            final(self).min_size == old(self).min_size,
            final(self).dedup == old(self).dedup,
            final(self).recursive == old(self).recursive,
    {
        let r = self.pending.pop();
        match &r {
            Some(d) => {
                self.current = Some(d.clone());
            },
            None => {
                self.current = None;
            },
        }
        r
    }

    /// Reports a subdirectory of the current directory.  It is queued for
    /// listing only when the walk is recursive.
    pub fn offer_dir(&mut self, path: String)
        requires
            old(self).wf(),
        ensures
            final(self).wf(),
            final(self).pending@ == if old(self).recursive {
                old(self).pending@.push(path)
            } else {
                old(self).pending@
            },
            final(self).current == old(self).current,
            final(self).candidates == old(self).candidates,
            final(self).root == old(self).root,
            final(self).min_size == old(self).min_size,
            final(self).dedup == old(self).dedup,
            final(self).recursive == old(self).recursive,
    {
        if self.recursive {
            self.pending.push(path);
        }
    }

    /// Whether a file of `size` bytes starting with `header` must have its
    /// content read before it is offered: only accepted files are hashed, and
    /// only when duplicates are skipped.
    pub fn wants_content(&self, size: u64, header: &[u8]) -> (r: bool)
        ensures
            r == (self.dedup && carrier(size, header@, self.min_size)),
    {
        self.dedup && accepts(size, header, self.min_size)
    }
    /// Whether a file reported with these values becomes a candidate.
    pub open spec fn admits(&self, size: u64, header: Seq<u8>, content: Option<Seq<u8>>) -> bool {
        carrier(size, header, self.min_size) && (!self.dedup || match content {
            Some(c) => !self.digests@.contains(sha256_hex(c)),
            None => false,
        })
    }

    /// Reports a file of the current directory: its path, its size, its
    /// leading bytes (at most four are looked at) and, when
    /// [`Self::wants_content`] asked for it, its whole content (`None` when
    /// it could not be read, which skips the file).  Returns whether the file
    /// became a candidate.
    pub fn offer_file(&mut self, path: String, size: u64, header: &[u8], content: Option<&[u8]>) -> (added: bool)
        requires
            old(self).wf(),
            old(self).current is Some,
        ensures
            final(self).wf(),
            added == old(self).admits(size, header@, match content {
                Some(c) => Some(c@),
                None => None,
            }),
            !added ==> final(self).candidates@ == old(self).candidates@,
            added ==> {
                let c = final(self).candidates@.last();
                &&& final(self).candidates@ == old(self).candidates@.push(c)
                &&& c.path == path
                &&& c.dir == old(self).current->0
                &&& c.size == size
                &&& c.header@ == header@
                &&& (old(self).dedup ==> digest_of(c) == sha256_hex(content->0@))
                &&& (old(self).dedup ==> final(self).contents@ == old(self).contents@.push(content->0@))
            },
            final(self).pending == old(self).pending,
            final(self).current == old(self).current,
            final(self).root == old(self).root,
            final(self).min_size == old(self).min_size,
            final(self).dedup == old(self).dedup,
            final(self).recursive == old(self).recursive,
    {
        if !accepts(size, header, self.min_size) {
            return false;
        }
        let dir = match &self.current {
            Some(d) => d.clone(),
            None => String::new(),
        };
        if !self.dedup {
            let c = Candidate { path, dir, size, header: slice_to_vec(header), digest: None };
            self.candidates.push(c);
            return true;
        }
        match content {
            None => false,
            Some(bytes) => {
                let (digest, dup) = self.digests.is_duplicate(bytes);
                if dup {
                    return false;
                }
                proof {
                    let old_cs = self.candidates@;
                    assert forall|i: int| 0 <= i < old_cs.len() implies
                        digest_of(#[trigger] old_cs[i]) != digest@ by {
                        assert(self.digests@[i] == digest_of(old_cs[i]));
                    }
                }
                self.digests.insert(digest.clone());
                let c = Candidate { path, dir, size, header: slice_to_vec(header), digest: Some(digest) };
                self.candidates.push(c);
                self.contents = Ghost(self.contents@.push(bytes@));
                assert(self.digests@ =~= self.candidates@.map_values(|c: Candidate| digest_of(c)));
                true
            },
        }
    }
    /// Ends the walk and hands out the candidates in the order they were
    /// accepted.
    pub fn into_candidates(self) -> (r: Vec<Candidate>)
        ensures
            r@ == self.candidates@,
    {
        self.candidates
    }
}

/// Every candidate of a walk passes the size and signature test.
pub proof fn lemma_candidates_are_carriers(d: Discovery, i: int)
    requires
        d.wf(),
        0 <= i < d.candidates@.len(),
    ensures
        carrier(d.candidates@[i].size, d.candidates@[i].header@, d.min_size),
{
}

/// When duplicates are skipped, no two candidates have the same content.
pub proof fn lemma_candidate_contents_distinct(d: Discovery, i: int, j: int)
    requires
        d.wf(),
        d.dedup,
        0 <= i < d.candidates@.len(),
        0 <= j < d.candidates@.len(),
        i != j,
    ensures
        d.contents@[i] != d.contents@[j],
{
    if i < j {
        assert(digest_of(d.candidates@[i]) != digest_of(d.candidates@[j]));
    } else {
        assert(digest_of(d.candidates@[j]) != digest_of(d.candidates@[i]));
    }
}

/// When duplicates are skipped, a file whose content equals that of any
/// earlier candidate is never admitted, whatever order the files come in.
pub proof fn lemma_repeated_content_refused(
    d: Discovery,
    i: int,
    size: u64,
    header: Seq<u8>,
    content: Seq<u8>,
)
    requires
        d.wf(),
        d.dedup,
        0 <= i < d.candidates@.len(),
        d.contents@[i] == content,
    ensures
        !d.admits(size, header, Some(content)),
{
    assert(d.digests@[i] == digest_of(d.candidates@[i]));
}

/// When duplicates are kept, every file that passes the size and signature
/// test is admitted, so byte-identical files are all candidates.
pub proof fn lemma_duplicates_kept_without_dedup(
    d: Discovery,
    size: u64,
    header: Seq<u8>,
    content: Option<Seq<u8>>,
)
    requires
        !d.dedup,
    ensures
        d.admits(size, header, content) == carrier(size, header, d.min_size),
{
}

/// Without recursion, every candidate comes from the listing of the root
/// directory itself, never from a subdirectory.
pub proof fn lemma_flat_walk_stays_in_root(d: Discovery, i: int)
    requires
        d.wf(),
        !d.recursive,
        0 <= i < d.candidates@.len(),
    ensures
        d.candidates@[i].dir@ == d.root@,
{
}

} // verus!
