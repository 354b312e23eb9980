//! The download table: hosted files addressed by case-insensitive name.
//!
//! The caller serves the resolved path and records the download; this
//! module owns the name resolution: names are stored lowercased, a request
//! without a name falls back to the default file, and lookup lowercases the
//! requested name. Lowercasing is `str::to_lowercase`'s, behind one trusted
//! wrapper.
use vstd::prelude::*;

verus! {

/// What Unicode lowercasing yields for a string: a function of the
/// characters alone.
pub uninterp spec fn lower_of(s: Seq<char>) -> Seq<char>;

/// Relies on `str::to_lowercase`: the result depends on the characters
/// alone.
#[verifier::external_body]
fn to_lowercase(s: &str) -> (r: String)
    ensures
        r@ == lower_of(s@),
{
    s.to_lowercase()
}

/// The path stored under `key`, later entries winning (as they do in a map
/// built by repeated insertion).
pub open spec fn lookup(files: Seq<(String, String)>, key: Seq<char>) -> Option<Seq<char>>
    decreases files.len(),
{
    if files.len() == 0 {
        None
    } else if files.last().0@ == key {
        Some(files.last().1@)
    } else {
        lookup(files.drop_last(), key)
    }
}

/// The hosted files: each name (stored lowercased) with its path, and the
/// name served when a request carries none.
pub struct FileHost {
    default_file: String,
    files: Vec<(String, String)>,
}

impl FileHost {
    /// The stored (lowercased name, path) entries.
    pub closed spec fn spec_files(&self) -> Seq<(String, String)> {
        self.files@
    }

    /// The default file name (as given, not lowercased).
    pub closed spec fn spec_default_file(&self) -> Seq<char> {
        self.default_file@
    }

    /// The name a request resolves against: the requested one, or the
    /// default when none was given.
    pub open spec fn spec_requested(&self, file_name: Option<Seq<char>>) -> Seq<char> {
        match file_name {
            Some(n) => n,
            None => self.spec_default_file(),
        }
    }

    /// Builds the table: every name is stored lowercased, paths and order
    /// kept.
    pub fn new(default_file: String, files: Vec<(String, String)>) -> (h: FileHost)
        ensures
            h.spec_default_file() == default_file@,
            h.spec_files().len() == files@.len(),
            forall|i: int| 0 <= i < files@.len() ==> (#[trigger] h.spec_files()[i]).0@ == lower_of(
                files@[i].0@,
            ) && h.spec_files()[i].1 == files@[i].1,
    {
        let mut files = files;
        let ghost orig = files@;
        let mut lowered: Vec<(String, String)> = Vec::new();
        while files.len() > 0
            invariant
                lowered@.len() + files@.len() == orig.len(),
                files@ =~= orig.skip(lowered@.len() as int),
                forall|i: int| 0 <= i < lowered@.len() ==> (#[trigger] lowered@[i]).0@ == lower_of(
                    orig[i].0@,
                ) && lowered@[i].1 == orig[i].1,
            decreases files@.len(),
        {
            let ghost done = lowered@.len() as int;
            let entry = files.remove(0);
            let low = to_lowercase(entry.0.as_str());
            lowered.push((low, entry.1));
            proof {
                assert(orig.skip(done)[0] == orig[done]);
                assert(files@ =~= orig.skip(done + 1));
            }
        }
        FileHost { default_file, files: lowered }
    }

    /// Resolves a request to the stored path: the requested name (or the
    /// default) is lowercased and looked up; `None` means no such file.
    pub fn resolve(&self, file_name: Option<&str>) -> (r: Option<&String>)
        ensures
            (match r {
                Some(p) => lookup(
                    self.spec_files(),
                    lower_of(self.spec_requested(match file_name {
                        Some(n) => Some(n@),
                        None => None,
                    })),
                ) == Some(p@),
                None => lookup(
                    self.spec_files(),
                    lower_of(self.spec_requested(match file_name {
                        Some(n) => Some(n@),
                        None => None,
                    })),
                ) is None,
            }),
    {
        let name = match file_name {
            Some(n) => n,
            None => self.default_file.as_str(),
        };
        let key = to_lowercase(name);
        let ghost k = key@;
        let mut i: usize = self.files.len();
        proof {
            assert(self.files@.take(self.files@.len() as int) =~= self.files@);
        }
        while i > 0
            invariant
                i <= self.files@.len(),
                k == key@,
                k == lower_of(self.spec_requested(match file_name {
                    Some(n) => Some(n@),
                    None => None,
                })),
                lookup(self.files@, k) == lookup(self.files@.take(i as int), k),
            decreases i,
        {
            let ghost pre = self.files@.take(i as int);
            proof {
                assert(pre.len() == i);
                assert(pre.last() == self.files@[i - 1]);
            }
            if self.files[i - 1].0 == key {
                proof {
                    assert(lookup(pre, k) == Some(pre.last().1@));
                }
                return Some(&self.files[i - 1].1);
            }
            i -= 1;
            proof {
                assert(pre.last().0@ != k);
                assert(lookup(pre, k) == lookup(pre.drop_last(), k));
                assert(pre.drop_last() =~= self.files@.take(i as int));
            }
        }
        proof {
            assert(self.files@.take(0) =~= Seq::<(String, String)>::empty());
        }
        None
    }
}

} // verus!

