use vstd::prelude::*;

verus! {

/// The SHA-256 digest of `content`, as lowercase hex text.
pub uninterp spec fn sha256_hex(content: Seq<u8>) -> Seq<char>;

/// Relies on `sha256::digest` over a byte slice: the hex text of the
/// SHA-256 of those bytes, which depends on the bytes alone.
#[verifier::external_body]
fn content_digest(content: &[u8]) -> (r: String)
    ensures
        r@ == sha256_hex(content@),
{
    sha256::digest(content)
}

/// The content digests of the files accepted so far.  It only grows.
pub struct Digests {
    seen: Vec<String>,
}

impl View for Digests {
    type V = Seq<Seq<char>>;

    closed spec fn view(&self) -> Seq<Seq<char>> {
        self.seen@.map_values(|s: String| s@)
    }
}

impl Digests {
    /// An empty set of digests.
    pub fn new() -> (r: Self)
        ensures
            r@ == Seq::<Seq<char>>::empty(),
    {
        Digests { seen: Vec::new() }
    }

    /// Number of digests recorded.
    pub fn len(&self) -> (r: usize)
        ensures
            r == self@.len(),
    {
        self.seen.len()
    }

    /// Whether `digest` has been recorded.
    pub fn contains(&self, digest: &String) -> (r: bool)
        ensures
            r == self@.contains(digest@),
    {
        let mut i: usize = 0;
        while i < self.seen.len()
            invariant
                i <= self.seen@.len(),
                forall|k: int| 0 <= k < i ==> self@[k] != digest@,
            decreases self.seen@.len() - i,
        {
            if self.seen[i] == *digest {
                assert(self@[i as int] == digest@);
                return true;
            }
            i = i + 1;
        }
        false
    }

    /// Hashes `content` and tells whether an identical content was recorded
    /// before; returns the digest with the answer.  Nothing is recorded.
    pub fn is_duplicate(&self, content: &[u8]) -> (r: (String, bool))
        ensures
            r.0@ == sha256_hex(content@),
            r.1 == self@.contains(sha256_hex(content@)),
    {
        let digest = content_digest(content);
        let dup = self.contains(&digest);
        (digest, dup)
    }

    /// Records `digest`.
    pub fn insert(&mut self, digest: String)
        ensures
            final(self)@ == old(self)@.push(digest@),
    {
        self.seen.push(digest);
        assert(self@ =~= old(self)@.push(digest@));
    }
}

} // verus!
