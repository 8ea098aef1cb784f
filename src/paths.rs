use path_absolutize::Absolutize;
use vstd::prelude::*;

verus! {

/// The absolute, normalised form of `path` taken from directory `cwd`.
pub uninterp spec fn absolute_path(path: Seq<char>, cwd: Seq<char>) -> Seq<char>;

/// `cwd` names a directory from the root: it is `/`, or it starts with `/`
/// and has a component that is neither empty nor `.`, so that it keeps a
/// root and a parent however `..` is applied.
pub open spec fn is_rooted_dir(cwd: Seq<char>) -> bool {
    cwd == "/"@ || (cwd.len() > 0 && cwd[0] == '/' && exists|i: int|
        0 <= i < cwd.len() && #[trigger] cwd[i] != '/' && cwd[i] != '.')
}

/// Relies on path_absolutize::Absolutize::absolutize_from, which resolves `.`
/// and `..` and joins a relative path onto `cwd`, reading nothing from the
/// filesystem or the environment. It always returns `Ok`. It panics when it
/// is left with no path component, which a rooted `cwd` rules out.
#[verifier::external_body]
fn absolutize_from(path: &str, cwd: &str) -> (r: Option<String>)
    requires
        is_rooted_dir(cwd@),
    ensures
        r is Some,
        r matches Some(s) ==> s@ == absolute_path(path@, cwd@),
{
    match std::path::Path::new(path).absolutize_from(cwd) {
        Ok(p) => Some(p.to_string_lossy().into_owned()),
        Err(_) => None,
    }
}

/// Whether `cwd` is a rooted directory, as `is_rooted_dir` states it.
fn rooted(cwd: &str) -> (r: bool)
    ensures
        r == is_rooted_dir(cwd@),
{
    proof {
        reveal_strlit("/");
    }
    let n = cwd.unicode_len();
    if n == 0 || cwd.get_char(0) != '/' {
        assert(cwd@ != "/"@);
        return false;
    }
    let mut i: usize = 0;
    while i < n
        invariant
            n == cwd@.len(),
            n > 0,
            cwd@[0] == '/',
            i <= n,
            forall|j: int| 0 <= j < i ==> cwd@[j] == '/' || cwd@[j] == '.',
        decreases n - i,
    {
        let c = cwd.get_char(i);
        if c != '/' && c != '.' {
            assert(cwd@[i as int] != '/' && cwd@[i as int] != '.');
            return true;
        }
        i += 1;
    }
    if n == 1 {
        assert(cwd@ =~= "/"@);
        true
    } else {
        assert(cwd@ != "/"@);
        false
    }
}

/// The absolute form of `input`, a relative path being taken from `cwd`.
/// `None` exactly when `cwd` is not a rooted directory.
pub fn absolutize(input: &String, cwd: &String) -> (r: Option<String>)
    ensures
        r is Some <==> is_rooted_dir(cwd@),
        r matches Some(s) ==> s@ == absolute_path(input@, cwd@),
{
    if !rooted(cwd.as_str()) {
        return None;
    }
    absolutize_from(input.as_str(), cwd.as_str())
}

} // verus!
