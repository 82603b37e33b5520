//! The embedded virtual-content resolver. The rendered page requests
//! resources from a custom scheme; the resolver answers them from a
//! directory of files embedded in the binary at build time. Lookup strips a
//! path's leading separators and then matches exactly against the embedded
//! table; a miss is an expected no-op, never a fault. The table is bound
//! once, at facade construction, and read-only afterwards.

use vstd::prelude::*;

verus! {

/// Declares `include_dir::Dir`, the embedded directory of files fixed into
/// the binary at build time, so that it can stand in signatures and fields.
/// The value is opaque here; everything stated of its contents goes through
/// `dir_files`.
#[verifier::external_type_specification]
#[verifier::external_body]
pub struct ExDir<'a>(include_dir::Dir<'a>);

/// The virtual-content table an embedded directory serves: which path
/// strings its file lookup answers, and with which bytes. A function of the
/// directory value alone — the embedded entries are fixed at build time.
pub uninterp spec fn dir_files(d: include_dir::Dir) -> Map<Seq<char>, Seq<u8>>;

/// Relies on `include_dir::Dir::get_file`, a pure recursive lookup of an
/// embedded file by path, and `include_dir::File::contents`, the file's raw
/// bytes; both read only data fixed into the directory value at build time.
#[verifier::external_body]
fn dir_lookup(dir: &include_dir::Dir, path: &str) -> (r: Option<Vec<u8>>)
    ensures
        r is Some <==> dir_files(*dir).contains_key(path@),
        r matches Some(bytes) ==> bytes@ == dir_files(*dir)[path@],
{
    dir.get_file(path).map(|f| f.contents().to_vec())
}

/// A path with its leading separators removed: the normalization applied
/// before every lookup, under which `"/index.html"` and `"index.html"` name
/// the same entry.
pub open spec fn spec_strip_leading_separators(s: Seq<char>) -> Seq<char>
    decreases s.len(),
{
    if s.len() > 0 && s[0] == '/' {
        spec_strip_leading_separators(s.drop_first())
    } else {
        s
    }
}

/// Removes the leading separators of a path, exactly as
/// `spec_strip_leading_separators` says.
pub fn strip_leading_separators(path: &str) -> (r: &str)
    ensures
        r@ == spec_strip_leading_separators(path@),
{
    let len = path.unicode_len();
    let mut i: usize = 0;
    proof {
        assert(path@.skip(0) =~= path@);
    }
    while i < len && path.get_char(i) == '/'
        invariant
            len == path@.len(),
            i <= len,
            spec_strip_leading_separators(path@) == spec_strip_leading_separators(
                path@.skip(i as int),
            ),
        decreases len - i,
    {
        proof {
            assert(path@.skip(i as int).drop_first() =~= path@.skip(i + 1));
        }
        i = i + 1;
    }
    proof {
        assert(path@.skip(i as int) =~= path@.subrange(i as int, len as int));
    }
    path.substring_char(i, len)
}

/// Law: a leading separator does not affect resolution. A path and the same
/// path with one more leading separator normalize to the same lookup key.
pub proof fn lemma_leading_separator_ignored(path: Seq<char>)
    ensures
        spec_strip_leading_separators(seq!['/'].add(path)) == spec_strip_leading_separators(path),
{
    assert(seq!['/'].add(path).drop_first() =~= path);
}

/// Maps virtual paths to embedded byte contents, for the lifetime of the
/// facade that owns it. Populated from an embedded directory when the
/// facade's initial content is a directory, and empty — so that every lookup
/// misses — otherwise.
pub struct ContentResolver<'a> {
    dir: Option<include_dir::Dir<'a>>,
}

impl<'a> ContentResolver<'a> {
    /// The table this resolver serves: the embedded directory's files when
    /// one was bound, and nothing otherwise.
    pub closed spec fn files(self) -> Map<Seq<char>, Seq<u8>> {
        match self.dir {
            Some(d) => dir_files(d),
            None => Map::empty(),
        }
    }

    /// A resolver with no backing directory; every lookup misses.
    pub fn empty() -> (r: ContentResolver<'a>)
        ensures
            r.files() == Map::<Seq<char>, Seq<u8>>::empty(),
    {
        ContentResolver { dir: None }
    }

    /// A resolver backed by an embedded directory.
    pub fn from_dir(dir: include_dir::Dir<'a>) -> (r: ContentResolver<'a>)
        ensures
            r.files() == dir_files(dir),
    {
        ContentResolver { dir: Some(dir) }
    }

    /// Answers one custom-scheme request: returns the entry's bytes if and
    /// only if the path, with leading separators stripped, exactly matches
    /// an embedded entry, and reports a miss otherwise. A miss is expected,
    /// not exceptional.
    pub fn resolve(&self, path: &str) -> (r: Option<Vec<u8>>)
        ensures
            r is Some <==> self.files().contains_key(spec_strip_leading_separators(path@)),
            r matches Some(bytes) ==> bytes@ == self.files()[spec_strip_leading_separators(
                path@,
            )],
    {
        let normalized = strip_leading_separators(path);
        match &self.dir {
            Some(d) => dir_lookup(d, normalized),
            None => None,
        }
    }
}

} // verus!
