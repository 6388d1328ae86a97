//! Build-time configuration values and the rules that read them.
use vstd::prelude::*;

verus! {

/// The application id used when the build does not provide one.
pub const DEFAULT_APP_ID: &'static str = "org.gnome.Solanum.Devel";

/// The copyright line used when the build does not provide one.
pub const DEFAULT_COPYRIGHT: &'static str = "unknown";

/// The data directory used when the build does not provide one.
pub const DEFAULT_PKGDATADIR: &'static str = "/usr/share/solanum/";

/// The version used when the build does not provide one.
pub const DEFAULT_VERSION: &'static str = "unknown";

/// The locale directory used when the build does not provide one.
pub const DEFAULT_LOCALEDIR: &'static str = "/usr/share/locale/";

/// Picks the value given at build time, or `default` where there was none.
pub fn default_env(v: Option<&'static str>, default: &'static str) -> (res: &'static str)
    ensures
        res == (match v {
            Some(s) => s,
            None => default,
        }),
{
    match v {
        Some(v) => v,
        None => default,
    }
}

/// Whether `s` ends with `suffix`.
pub open spec fn ends_with(s: Seq<char>, suffix: Seq<char>) -> bool {
    suffix.len() <= s.len() && s.subrange(s.len() - suffix.len(), s.len() as int) == suffix
}

/// Whether `app_id` names a development build: one whose id ends in "Devel".
pub fn is_devel(app_id: &str) -> (res: bool)
    ensures
        res == ends_with(app_id@, "Devel"@),
{
    let suffix = "Devel";
    proof { reveal_strlit("Devel"); }
    let n = app_id.unicode_len();
    let m = suffix.unicode_len();
    if n < m {
        return false;
    }
    let start = n - m;
    let mut i: usize = 0;
    while i < m
        invariant
            m == suffix@.len(),
            suffix@ == "Devel"@,
            n == app_id@.len(),
            start == n - m,
            i <= m,
            forall|j: int| 0 <= j < i ==> app_id@[start + j] == suffix@[j],
        decreases m - i,
    {
        if app_id.get_char(start + i) != suffix.get_char(i) {
            assert(app_id@.subrange(start as int, n as int)[i as int] != suffix@[i as int]);
            return false;
        }
        i = i + 1;
    }
    assert(app_id@.subrange(start as int, n as int) =~= suffix@);
    true
}

/// The version that the about window shows: none for a development build.
pub fn about_version(app_id: &str, version: &'static str) -> (res: Option<&'static str>)
    ensures
        res == (if ends_with(app_id@, "Devel"@) {
            None
        } else {
            Some(version)
        }),
{
    if !is_devel(app_id) {
        Some(version)
    } else {
        None
    }
}

} // verus!
