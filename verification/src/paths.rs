use vstd::prelude::*;

verus! {

/// A character that separates path components on one of the supported platforms.
pub open spec fn is_path_separator(c: char) -> bool {
    c == '/' || c == '\\'
}

/// A relative path component with nothing that a platform could read as a
/// separator, a drive prefix or a root: non-empty, no `/`, `\` or `:`.
pub open spec fn is_plain_component(c: Seq<char>) -> bool {
    &&& c.len() > 0
    &&& forall|i: int| 0 <= i < c.len() ==> !is_path_separator(#[trigger] c[i]) && c[i] != ':'
}

/// A path that starts with `\\?`, as Windows verbatim paths (`\\?\...`) do;
/// joining onto those rebuilds the base from its components.
pub open spec fn has_verbatim_prefix(p: Seq<char>) -> bool {
    p.len() >= 3 && p[0] == '\\' && p[1] == '\\' && p[2] == '?'
}

/// `joined` is `base`, one separator, then `component`.
pub open spec fn is_separated_join(joined: Seq<char>, base: Seq<char>, component: Seq<char>) -> bool {
    exists|sep: char| is_path_separator(sep) && joined == base + seq![sep] + component
}

/// What joining a plain component onto `base` gives: the component alone
/// after an empty base; no new separator after a trailing `/`; after a
/// trailing `\` none (where it is a separator) or `/` (where it is not); after a
/// trailing `:` (a drive on some platforms) none or one separator;
/// otherwise exactly one separator in between.
pub open spec fn joins_component(joined: Seq<char>, base: Seq<char>, component: Seq<char>) -> bool {
    if base.len() == 0 {
        joined == component
    } else if base.last() == '/' {
        joined == base + component
    } else if base.last() == '\\' {
        joined == base + component || joined == base + seq!['/'] + component
    } else if base.last() == ':' {
        joined == base + component || is_separated_join(joined, base, component)
    } else {
        is_separated_join(joined, base, component)
    }
}

/// Appends `component` to the path `base` with `std::path::Path::join`, and
/// gives the result back as text.
///
/// Trusted: for a plain relative component and a base that does not start with
/// `\\?`, `Path::join` (`PathBuf::push`) keeps the base as it is and adds a
/// separator only where the base does not already end in one (or, on Windows,
/// is a bare drive such as `C:`); UNC and device bases (`\\server\share`,
/// `\\.\`) follow the same rule. The separator is the platform's own (`/` or
/// `\`), which is why the contract allows either. Nothing is stated for bases
/// that start with `\\?` (verbatim paths), which are rebuilt from their
/// components. The conversion back to text is lossless, as both inputs are text.
#[verifier::external_body]
pub(crate) fn join_path(base: &str, component: &str) -> (joined: String)
    ensures
        is_plain_component(component@) && !has_verbatim_prefix(base@) ==> joins_component(
            joined@,
            base@,
            component@,
        ),
{
    std::path::Path::new(base).join(component).to_string_lossy().into_owned()
}

/// Joining a plain component that does not start with `?` onto a path that
/// does not start with `\\?` gives a path that does not either.
pub proof fn lemma_join_keeps_non_verbatim(joined: Seq<char>, base: Seq<char>, component: Seq<char>)
    requires
        is_plain_component(component),
        component[0] != '?',
        !has_verbatim_prefix(base),
        joins_component(joined, base, component),
    ensures
        !has_verbatim_prefix(joined),
{
    assert(!is_path_separator(component[0]));
    if base.len() == 0 {
    } else if base.len() >= 3 {
        if joined == base + component || joined == base + seq!['/'] + component {
            assert(joined[0] == base[0] && joined[1] == base[1] && joined[2] == base[2]);
        } else {
            let sep = choose|sep: char| is_path_separator(sep) && joined == base + seq![sep] + component;
            assert(joined[0] == base[0] && joined[1] == base[1] && joined[2] == base[2]);
        }
    } else if base.len() == 1 {
        if base[0] == '\\' {
            if joined == base + component {
                assert(joined[1] == component[0]);
            } else {
                assert(joined[1] == '/');
            }
        } else if joined == base + component {
            assert(joined[0] == base[0]);
        } else if base.last() == '/' {
            assert(joined[0] == base[0]);
        } else {
            let sep = choose|sep: char| is_path_separator(sep) && joined == base + seq![sep] + component;
            assert(joined[0] == base[0]);
        }
    } else {
        if base[0] == '\\' && base[1] == '\\' {
            if joined == base + component {
                assert(joined[2] == component[0]);
            } else {
                assert(joined[2] == '/');
            }
        } else if joined == base + component || joined == base + seq!['/'] + component {
            assert(joined[0] == base[0] && joined[1] == base[1]);
        } else {
            let sep = choose|sep: char| is_path_separator(sep) && joined == base + seq![sep] + component;
            assert(joined[0] == base[0] && joined[1] == base[1]);
        }
    }
}

} // verus!
