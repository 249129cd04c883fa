//! Reading a gzip-compressed tar archive (the `flate2` and `tar` crates):
//! the paths of its members, and the contents of one member.
use vstd::prelude::*;

verus! {

/// The member paths read from an archive in order, up to the first read
/// error, and that error's text if one stopped the reading.
#[derive(Debug, PartialEq, Eq)]
pub struct ArchivePaths {
    pub paths: Vec<String>,
    pub error: Option<String>,
}

impl ArchivePaths {
    /// The listing by plain values.
    pub open spec fn model(&self) -> (Seq<Seq<char>>, Option<Seq<char>>) {
        (
            self.paths@.map_values(|p: String| p@),
            match self.error {
                Some(m) => Some(m@),
                None => None,
            },
        )
    }
}

/// What walking `tarball` as a gzip-compressed tar archive yields: the
/// member paths in order until the first error, and that error's text.
pub uninterp spec fn tar_gz_paths(tarball: Seq<u8>) -> (Seq<Seq<char>>, Option<Seq<char>>);

/// What reading the member at `index` of `tarball` (a gzip-compressed tar
/// archive) yields: its contents, `None` where there is no such member, or
/// the text of the error that stopped the reading.
pub uninterp spec fn tar_gz_member(tarball: Seq<u8>, index: usize) -> Result<Option<Seq<u8>>, Seq<char>>;

/// Decompresses `tarball` with `flate2::read::GzDecoder` and walks it with
/// `tar::Archive::entries`, taking each member's path (`Entry::path`,
/// lossily) and stopping at the first error. Contents are skipped, not kept.
/// The contract claims that the outcome is `tar_gz_paths(tarball)`, a
/// function of the bytes alone.
#[verifier::external_body]
pub(crate) fn read_tar_gz_paths(tarball: &[u8]) -> (r: ArchivePaths)
    ensures
        r.model() == tar_gz_paths(tarball@),
{
    let mut paths = Vec::new();
    let error = (|| -> std::io::Result<()> {
        for entry in tar::Archive::new(flate2::read::GzDecoder::new(tarball)).entries()? {
            paths.push(entry?.path()?.to_string_lossy().to_string());
        }
        Ok(())
    })().err().map(|e| e.to_string());
    ArchivePaths { paths, error }
}

/// Decompresses `tarball` with `flate2::read::GzDecoder`, takes the member
/// at `index` of `tar::Archive::entries` (`Iterator::nth`) and reads its
/// contents (`Read::read_to_end`). The contract claims that the outcome is
/// `tar_gz_member(tarball, index)`, a function of the bytes and the index.
#[verifier::external_body]
pub(crate) fn read_tar_gz_member(tarball: &[u8], index: usize) -> (r: Result<Option<Vec<u8>>, String>)
    ensures
        tar_gz_member(tarball@, index) == match r {
            Ok(Some(d)) => Ok(Some(d@)),
            Ok(None) => Ok(None),
            Err(m) => Err(m@),
        },
{
    (|| -> std::io::Result<Option<Vec<u8>>> {
        let mut data = Vec::new();
        match tar::Archive::new(flate2::read::GzDecoder::new(tarball)).entries()?.nth(index) {
            Some(entry) => std::io::Read::read_to_end(&mut entry?, &mut data).map(|_| Some(data)),
            None => Ok(None),
        }
    })().map_err(|e| e.to_string())
}

/// Index of the first path at or after `i` that is `path`, if any.
pub open spec fn find_member(paths: Seq<Seq<char>>, path: Seq<char>, i: int) -> Option<int>
    decreases paths.len() - i,
{
    if i < 0 || i >= paths.len() {
        None
    } else if paths[i] == path {
        Some(i)
    } else {
        find_member(paths, path, i + 1)
    }
}

impl ArchivePaths {
    /// Index of the first member whose path is `path`.
    pub fn position(&self, path: &str) -> (r: Option<usize>)
        ensures
            match r {
                Some(k) => find_member(self.model().0, path@, 0) == Some(k as int),
                None => find_member(self.model().0, path@, 0) is None,
            },
    {
        let ghost m = self.model().0;
        let n = self.paths.len();
        let mut i: usize = 0;
        while i < n
            invariant
                n == self.paths@.len(),
                m == self.model().0,
                m.len() == n,
                i <= n,
                find_member(m, path@, 0) == find_member(m, path@, i as int),
            decreases n - i,
        {
            assert(m[i as int] == self.paths@[i as int]@);
            if crate::text::str_eq(self.paths[i].as_str(), path) {
                return Some(i);
            }
            i = i + 1;
        }
        None
    }
}

} // verus!
