use vstd::prelude::*;
use vstd::string::StrSliceExecFns;
use vstd::string::StringExecFns;
use crate::text::{ends_with, ends_with_text};

verus! {

/// A character that may stay in a pipe directory name: `[A-Za-z0-9_-]`.
pub open spec fn is_safe_char(c: char) -> bool {
    ('a' <= c && c <= 'z') || ('A' <= c && c <= 'Z') || ('0' <= c && c <= '9') || c == '_'
        || c == '-'
}

/// `s` with every character outside `[A-Za-z0-9_-]` replaced by `-`.
pub open spec fn safe_chars(s: Seq<char>) -> Seq<char> {
    s.map_values(|c: char| if is_safe_char(c) { c } else { '-' })
}

/// The regular expression that matches one character outside `[A-Za-z0-9_-]`.
pub open spec fn unsafe_char_pattern() -> Seq<char> {
    seq!['[', '^', 'a', '-', 'z', 'A', '-', 'Z', '0', '-', '9', '_', '-', ']']
}

/// The suffix that a default-branch folder reference leaves on a name.
pub open spec fn ref_main() -> Seq<char> {
    seq!['-', 'r', 'e', 'f', '-', 'm', 'a', 'i', 'n']
}

/// The same suffix followed by a slash.
pub open spec fn ref_main_slash() -> Seq<char> {
    ref_main().push('/')
}

/// `s` without one trailing `-ref-main/` or, failing that, `-ref-main`.
pub open spec fn strip_ref_main(s: Seq<char>) -> Seq<char> {
    if ends_with(s, ref_main_slash()) {
        s.subrange(0, s.len() - ref_main_slash().len())
    } else if ends_with(s, ref_main()) {
        s.subrange(0, s.len() - ref_main().len())
    } else {
        s
    }
}

/// The directory name that a pipe identifier becomes.
pub open spec fn sanitized(s: Seq<char>) -> Seq<char> {
    strip_ref_main(safe_chars(s))
}

/// Every character of `s` is in `[A-Za-z0-9_-]`.
pub open spec fn all_safe(s: Seq<char>) -> bool {
    forall|i: int| 0 <= i < s.len() ==> is_safe_char(#[trigger] s[i])
}

/// Relies on regex::Regex::new and Regex::replace_all: the pattern
/// `[^a-zA-Z0-9_-]` compiles, matches exactly one character outside the class
/// at a time, and every match is replaced by the replacement text `-`.
#[verifier::external_body]
fn regex_replace_all(pattern: &str, hay: &str, with: &str) -> (r: Option<String>)
    ensures
        pattern@ == unsafe_char_pattern() && with@ == seq!['-'] ==> r is Some && r->0@
            == safe_chars(hay@),
{
    let re = regex::Regex::new(pattern).ok()?;
    Some(re.replace_all(hay, with).to_string())
}

/// Drops one trailing `-ref-main/` or `-ref-main` from `s`.
fn strip_ref_main_suffix(s: &str) -> (r: String)
    ensures
        r@ == strip_ref_main(s@),
{
    proof {
        reveal_strlit("-ref-main/");
        reveal_strlit("-ref-main");
        assert("-ref-main/"@ =~= ref_main_slash());
        assert("-ref-main"@ =~= ref_main());
    }
    let n = s.unicode_len();
    if ends_with_text(s, "-ref-main/") {
        String::from_str(s.substring_char(0, n - 10))
    } else if ends_with_text(s, "-ref-main") {
        String::from_str(s.substring_char(0, n - 9))
    } else {
        String::from_str(s)
    }
}

/// Turns a pipe identifier into a name that is safe as one path component:
/// every character outside `[A-Za-z0-9_-]` becomes `-`, then one trailing
/// `-ref-main/` or `-ref-main` is removed.
pub fn sanitize_pipe_name(name: &str) -> (r: String)
    ensures
        r@ == sanitized(name@),
{
    proof {
        reveal_strlit("[^a-zA-Z0-9_-]");
        reveal_strlit("-");
        assert("[^a-zA-Z0-9_-]"@ =~= unsafe_char_pattern());
        assert("-"@ =~= seq!['-']);
    }
    let replaced = regex_replace_all("[^a-zA-Z0-9_-]", name, "-");
    match replaced {
        Some(safe) => strip_ref_main_suffix(safe.as_str()),
        None => String::new(),
    }
}

/// A sanitized name holds only characters of `[A-Za-z0-9_-]`.
pub proof fn lemma_sanitized_is_safe(s: Seq<char>)
    ensures
        all_safe(sanitized(s)),
{
    let t = safe_chars(s);
    assert(all_safe(t));
    let r = sanitized(s);
    assert forall|i: int| 0 <= i < r.len() implies is_safe_char(#[trigger] r[i]) by {
        assert(r[i] == t[i]);
    }
}

/// Sanitizing a name that is already safe and does not end in `-ref-main`
/// gives the same name back.
pub proof fn lemma_sanitize_fixed_point(s: Seq<char>)
    requires
        all_safe(s),
        !ends_with(s, ref_main()),
    ensures
        sanitized(s) == s,
{
    assert(safe_chars(s) =~= s);
    if ends_with(s, ref_main_slash()) {
        let k = s.len() - 1;
        assert(s.subrange(s.len() - 10, s.len() as int)[9] == s[k]);
        assert(is_safe_char(s[k]));
    }
}

/// Sanitizing twice is the same as sanitizing once, for names that do not
/// end in `-ref-main` once sanitized.
pub proof fn lemma_sanitize_idempotent(s: Seq<char>)
    requires
        !ends_with(sanitized(s), ref_main()),
    ensures
        sanitized(sanitized(s)) == sanitized(s),
{
    lemma_sanitized_is_safe(s);
    lemma_sanitize_fixed_point(sanitized(s));
}

} // verus!
