//! Inference of a source unit's kind from its filename.
//!
//! The filename's extension decides how the source text is parsed (script,
//! module, JSX, TSX); a filename with no recognizable extension is rejected
//! before any parsing work is done.

use vstd::prelude::*;
use vstd::string::StrSliceExecFns;

verus! {

/// The extension of `f` starts right after position `i`: `f[i]` is the last
/// dot of `f`, it stands after the last path separator, and it is not the
/// first character of the final path component.
pub open spec fn ext_at(f: Seq<char>, i: int) -> bool {
    &&& 0 < i < f.len()
    &&& f[i] == '.'
    &&& f[i - 1] != '/'
    &&& forall|j: int| i < j < f.len() ==> f[j] != '.' && f[j] != '/'
}

/// `f` has an extension: a last dot after the last separator, with a
/// non-empty stem before it.
pub open spec fn has_ext(f: Seq<char>) -> bool {
    exists|i: int| ext_at(f, i)
}

/// The extension of `f`: the characters after its last dot.
pub open spec fn ext_of(f: Seq<char>) -> Seq<char> {
    f.subrange((choose|i: int| ext_at(f, i)) + 1, f.len() as int)
}

/// The eight extensions from which a source kind can be inferred.
pub open spec fn is_valid_ext(e: Seq<char>) -> bool {
    ||| e == "js"@
    ||| e == "mjs"@
    ||| e == "cjs"@
    ||| e == "jsx"@
    ||| e == "ts"@
    ||| e == "mts"@
    ||| e == "cts"@
    ||| e == "tsx"@
}

/// `f` names a source unit whose kind can be inferred: it has an extension
/// and that extension is recognized.
pub open spec fn has_valid_ext(f: Seq<char>) -> bool {
    has_ext(f) && is_valid_ext(ext_of(f))
}

/// At most one position can start the extension.
pub proof fn lemma_ext_at_unique(f: Seq<char>, i: int, k: int)
    requires
        ext_at(f, i),
        ext_at(f, k),
    ensures
        i == k,
{
    if i < k {
        assert(f[k] == '.');
    } else if k < i {
        assert(f[i] == '.');
    }
}

/// Equality of two string slices, decided through their owned forms.
pub fn str_eq(a: &str, b: &str) -> (r: bool)
    ensures
        r == (a@ == b@),
{
    let sa = a.to_owned();
    let sb = b.to_owned();
    sa == sb
}

/// Whether `e` is one of the eight recognized extensions.
pub fn valid_extension(e: &str) -> (r: bool)
    ensures
        r == is_valid_ext(e@),
{
    str_eq(e, "js") || str_eq(e, "mjs") || str_eq(e, "cjs") || str_eq(e, "jsx") || str_eq(e, "ts")
        || str_eq(e, "mts") || str_eq(e, "cts") || str_eq(e, "tsx")
}

/// The extension of `filename`, if it has one: the characters after the last
/// dot, provided that dot stands after the last `/` and is not the first
/// character of the final path component. A trailing `/` ends the name, so
/// a filename such as `dir/a.js/` has no extension here, although
/// `std::path::Path::extension` would ignore the trailing separator.
pub fn extension_of(filename: &str) -> (r: Option<String>)
    ensures
        (r is Some) == has_ext(filename@),
        r matches Some(e) ==> e@ == ext_of(filename@),
{
    let n = filename.unicode_len();
    let mut i: usize = n;
    loop
        invariant
            i <= n,
            n == filename@.len(),
            forall|j: int| i <= j < n ==> filename@[j] != '.' && filename@[j] != '/',
        decreases i,
    {
        if i == 0 {
            proof {
                assert forall|k: int| !ext_at(filename@, k) by {
                    if 0 < k < n {
                        assert(filename@[k] != '.');
                    }
                }
            }
            return None;
        }
        i = i - 1;
        let c = filename.get_char(i);
        if c == '/' {
            proof {
                assert forall|k: int| !ext_at(filename@, k) by {
                    if 0 < k < n {
                        if k > i {
                            assert(filename@[k] != '.');
                        } else if k == i {
                            assert(filename@[k] == '/');
                        } else {
                            assert(!(filename@[i as int] != '.' && filename@[i as int] != '/'));
                        }
                    }
                }
            }
            return None;
        }
        if c == '.' {
            if i == 0 {
                proof {
                    assert forall|k: int| !ext_at(filename@, k) by {
                        if 0 < k < n {
                            assert(filename@[k] != '.');
                        }
                    }
                }
                return None;
            }
            let prev = filename.get_char(i - 1);
            if prev == '/' {
                proof {
                    assert forall|k: int| !ext_at(filename@, k) by {
                        if 0 < k < n {
                            if k > i {
                                assert(filename@[k] != '.');
                            } else if k < i {
                                assert(!(filename@[i as int] != '.' && filename@[i as int]
                                    != '/'));
                            }
                        }
                    }
                }
                return None;
            }
            let e = filename.substring_char(i + 1, n);
            proof {
                assert(ext_at(filename@, i as int));
                let k = choose|k: int| ext_at(filename@, k);
                lemma_ext_at_unique(filename@, i as int, k);
            }
            return Some(e.to_owned());
        }
    }
}

} // verus!
