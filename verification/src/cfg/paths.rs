//! Directories that the server keeps its databases, logs and snapshots in.
use vstd::prelude::*;

use crate::text::{chars_of, string_of};

verus! {

/// `Path::join` on Unix: an absolute path replaces the base; otherwise the two are
/// joined with one `/`, unless the base is empty or already ends with `/`.
pub open spec fn joined(base: Seq<char>, path: Seq<char>) -> Seq<char> {
    if path.len() > 0 && path[0] == '/' {
        path
    } else if base.len() == 0 || base.last() == '/' {
        base + path
    } else {
        base + seq!['/'] + path
    }
}

/// A directory that the server uses; it was checked to exist when it was made.
#[derive(Clone, Debug)]
pub struct Dir {
    inner: String,
}

impl View for Dir {
    type V = Seq<char>;

    closed spec fn view(&self) -> Seq<char> {
        self.inner@
    }
}

impl Dir {
    /// A directory at a path that the caller has made sure exists.
    pub fn existing(path: String) -> (d: Dir)
        ensures
            d@ == path@,
    {
        Dir { inner: path }
    }

    /// A path under this directory (or `path` itself where it is absolute).
    pub fn join(&self, path: &str) -> (r: String)
        ensures
            r@ == joined(self@, path@),
    {
        let base = chars_of(self.inner.as_str());
        let rel = chars_of(path);
        let mut out = base.clone();
        if rel.len() > 0 && rel[0] == '/' {
            return string_of(&rel);
        }
        if !(base.len() == 0 || base[base.len() - 1] == '/') {
            out.push('/');
        }
        let mut i: usize = 0;
        let ghost start = out@;
        while i < rel.len()
            invariant
                i <= rel@.len(),
                out@ == start + rel@.subrange(0, i as int),
            decreases rel@.len() - i,
        {
            out.push(rel[i]);
            i = i + 1;
        }
        proof {
            assert(rel@.subrange(0, rel@.len() as int) =~= rel@);
            if base@.len() == 0 || base@.last() == '/' {
                assert(start =~= base@);
            } else {
                assert(start =~= base@ + seq!['/']);
            }
        }
        string_of(&out)
    }

    pub fn as_path(&self) -> (r: &str)
        ensures
            r@ == self@,
    {
        self.inner.as_str()
    }

    pub fn into_path(self) -> (r: String)
        ensures
            r@ == self@,
    {
        self.inner
    }
}

} // verus!
