//! Host-side task-execution runtime backing a SPMD compiler's
//! launch/synchronize constructs, together with the option types used to
//! describe compiled task libraries.
//!
//! The runtime state machine (groups of tasks, atomically claimed chunks,
//! synchronization contexts and the registry that lets every worker help
//! drain any context) lives in [`task`] and [`exec`]. Option flags for the
//! compiler live in [`opt`], and instrumentation helpers in [`instrument`].
//! This root module holds what links against a previously compiled task
//! library: [`PackagedModule`] and the library file-name rules.

use vstd::prelude::*;

pub mod exec;
pub mod instrument;
pub mod opt;
pub mod task;

verus! {

/// `needle` occurs in `hay` starting at position `i`.
pub open spec fn occurs_at(hay: Seq<char>, needle: Seq<char>, i: int) -> bool {
    0 <= i && i + needle.len() <= hay.len() && hay.subrange(i, i + needle.len() as int)
        == needle
}

/// `needle` occurs somewhere in `hay`.
pub open spec fn contains_str(hay: Seq<char>, needle: Seq<char>) -> bool {
    exists|i: int| occurs_at(hay, needle, i)
}

/// Compare `needle` against the characters of `hay` starting at `i`.
fn matches_at(hay: &str, needle: &str, i: usize) -> (r: bool)
    requires
        i + needle@.len() <= hay@.len(),
        hay@.len() <= usize::MAX,
    ensures
        r == occurs_at(hay@, needle@, i as int),
{
    let n = needle.unicode_len();
    let mut k: usize = 0;
    while k < n
        invariant
            n == needle@.len(),
            i + n <= hay@.len(),
            hay@.len() <= usize::MAX,
            k <= n,
            forall|j: int| 0 <= j < k ==> hay@[i + j] == needle@[j],
        decreases n - k,
    {
        if hay.get_char(i + k) != needle.get_char(k) {
            proof {
                if occurs_at(hay@, needle@, i as int) {
                    assert(hay@.subrange(i as int, i + needle@.len() as int)[k as int]
                        == needle@[k as int]);
                }
            }
            return false;
        }
        k = k + 1;
    }
    proof {
        assert(hay@.subrange(i as int, i + needle@.len() as int) =~= needle@);
    }
    true
}

/// Whether `needle` occurs anywhere in `hay`.
pub fn str_contains(hay: &str, needle: &str) -> (r: bool)
    ensures
        r == contains_str(hay@, needle@),
{
    let hay_len = hay.unicode_len();
    let needle_len = needle.unicode_len();
    if needle_len > hay_len {
        return false;
    }
    if needle_len == 0 {
        proof {
            assert(hay@.subrange(0, 0) =~= needle@);
            assert(occurs_at(hay@, needle@, 0));
        }
        return true;
    }
    let last = hay_len - needle_len;
    let mut i: usize = 0;
    while i <= last
        invariant
            hay_len == hay@.len(),
            needle_len == needle@.len(),
            1 <= needle_len <= hay_len,
            last == hay_len - needle_len,
            i <= last + 1,
            forall|j: int| 0 <= j < i ==> !occurs_at(hay@, needle@, j),
        decreases last + 1 - i,
    {
        if matches_at(hay, needle, i) {
            return true;
        }
        i = i + 1;
    }
    false
}

/// The platform-dependent file name of the static task library
/// `libfile`: Windows targets use `<libfile>.lib`, every other target
/// uses `lib<libfile>.a`. The library name carries its target triple, so
/// the target's OS is read off the name itself.
pub fn get_lib_filename(libfile: &str) -> (r: String)
    ensures
        contains_str(libfile@, "windows"@) ==> r@ == libfile@ + ".lib"@,
        !contains_str(libfile@, "windows"@) ==> r@ == "lib"@ + libfile@ + ".a"@,
{
    if str_contains(libfile, "windows") {
        libfile.to_owned().concat(".lib")
    } else {
        String::from_str("lib").concat(libfile).concat(".a")
    }
}

/// A `PackagedModule` refers to a task module which was previously
/// compiled, and is now distributed with the crate as a static library
/// plus generated bindings.
#[derive(Debug)]
pub struct PackagedModule {
    /// Where to search for the packaged library and bindings; when
    /// absent, the build's own output directory is searched.
    path: Option<String>,
    /// The name of the library, with no `lib` prefix and no extension.
    lib: String,
}

impl PackagedModule {
    /// The library name this module links against.
    pub closed spec fn spec_lib(self) -> Seq<char> {
        self.lib@
    }

    /// The search path for the packaged library, if one was set.
    pub closed spec fn spec_path(self) -> Option<Seq<char>> {
        match self.path {
            Some(p) => Some(p@),
            None => None,
        }
    }

    /// Create a new `PackagedModule` to link against the previously
    /// compiled library named `lib`. The library name should carry no
    /// prefix or suffix: instead of `libexample.a` or `example.lib`,
    /// simply pass `example`.
    pub fn new(lib: &str) -> (m: PackagedModule)
        ensures
            m.spec_lib() == lib@,
            m.spec_path() is None,
    {
        PackagedModule { path: None, lib: lib.to_owned() }
    }

    /// Specify the path to search for the packaged libraries and
    /// bindings.
    pub fn lib_path(&mut self, path: &str)
        ensures
            final(self).spec_lib() == old(self).spec_lib(),
            final(self).spec_path() == Some(path@),
    {
        self.path = Some(path.to_owned());
    }

    /// The library name, as handed to [`PackagedModule::new`].
    pub fn lib(&self) -> (r: &String)
        ensures
            r@ == self.spec_lib(),
    {
        &self.lib
    }

    /// The search path set with [`PackagedModule::lib_path`], if any.
    pub fn search_path(&self) -> (r: &Option<String>)
        ensures
            match r {
                Some(p) => self.spec_path() == Some(p@),
                None => self.spec_path() is None,
            },
    {
        &self.path
    }
}

} // verus!

