//! Target rewriting: literal prefix removal, concatenation onto the backend
//! base address and collapsing of repeated path separators.
use vstd::prelude::*;
use crate::text::{chars_of, push_chars, string_of};

verus! {

/// `uri` without its leading `prefix`, or `uri` itself where it does not
/// start with `prefix`.
pub open spec fn strip_prefix(uri: Seq<char>, prefix: Seq<char>) -> Seq<char> {
    if prefix.is_prefix_of(uri) {
        uri.skip(prefix.len() as int)
    } else {
        uri
    }
}

/// `s` with every run of two or more `/` replaced by a single `/`.
pub open spec fn collapse_runs(s: Seq<char>) -> Seq<char>
    decreases s.len(),
{
    if s.len() == 0 {
        s
    } else if s.len() >= 2 && s[0] == '/' && s[1] == '/' {
        collapse_runs(s.skip(1))
    } else {
        seq![s[0]] + collapse_runs(s.skip(1))
    }
}

/// Whether `"://"` stands at index `i` of `s`.
pub open spec fn separator_at(s: Seq<char>, i: int) -> bool {
    0 <= i && i + 3 <= s.len() && s[i] == ':' && s[i + 1] == '/' && s[i + 2] == '/'
}

/// The index of the first `"://"` in `s` at or after `from`.
pub open spec fn separator_from(s: Seq<char>, from: int) -> Option<int>
    decreases s.len() - from,
{
    if from < 0 || from + 3 > s.len() {
        None
    } else if separator_at(s, from) {
        Some(from)
    } else {
        separator_from(s, from + 1)
    }
}

/// Everything up to and including the first `"://"` unchanged, slash runs
/// collapsed in what follows; a string without `"://"` unchanged.
pub open spec fn collapse_duplicate_slashes(s: Seq<char>) -> Seq<char> {
    match separator_from(s, 0) {
        Some(i) => s.take(i + 3) + collapse_runs(s.skip(i + 3)),
        None => s,
    }
}

/// The target handed to the forwarder: the backend base address followed by
/// the stripped request URI, slashes collapsed.
pub open spec fn rewrite(uri: Seq<char>, prefix: Seq<char>, backend_base: Seq<char>) -> Seq<char> {
    collapse_duplicate_slashes(backend_base + strip_prefix(uri, prefix))
}

/// No two neighbouring characters of `s` are both `/`.
pub open spec fn no_slash_run(s: Seq<char>) -> bool {
    forall|k: int| 0 <= k && k + 1 < s.len() ==> !(#[trigger] s[k] == '/' && s[k + 1] == '/')
}

/// Stripping leaves the URI as it is exactly where the URI does not start
/// with the prefix, and otherwise removes exactly the prefix's length from
/// the front. An empty prefix starts every URI and removes nothing, so the
/// first half is stated for non-empty prefixes.
pub proof fn lemma_strip_prefix(uri: Seq<char>, prefix: Seq<char>)
    ensures
        !prefix.is_prefix_of(uri) ==> strip_prefix(uri, prefix) == uri,
        prefix.is_prefix_of(uri) ==> prefix + strip_prefix(uri, prefix) == uri,
        prefix.is_prefix_of(uri) ==> strip_prefix(uri, prefix).len() == uri.len() - prefix.len(),
        prefix.len() > 0 ==> (strip_prefix(uri, prefix) == uri <==> !prefix.is_prefix_of(uri)),
{
    if prefix.is_prefix_of(uri) {
        assert(prefix + uri.skip(prefix.len() as int) =~= uri);
    }
}

/// Collapsing keeps the first character and a non-empty string non-empty.
pub proof fn lemma_collapse_head(s: Seq<char>)
    requires
        s.len() > 0,
    ensures
        collapse_runs(s).len() > 0,
        collapse_runs(s)[0] == s[0],
    decreases s.len(),
{
    if s.len() >= 2 && s[0] == '/' && s[1] == '/' {
        lemma_collapse_head(s.skip(1));
    }
}

/// After collapsing, no run of two or more `/` is left.
pub proof fn lemma_collapse_leaves_no_run(s: Seq<char>)
    ensures
        no_slash_run(collapse_runs(s)),
    decreases s.len(),
{
    if s.len() == 0 {
    } else {
        let rest = s.skip(1);
        lemma_collapse_leaves_no_run(rest);
        if s.len() >= 2 && s[0] == '/' && s[1] == '/' {
        } else {
            let c = collapse_runs(rest);
            let r = seq![s[0]] + c;
            if rest.len() > 0 {
                lemma_collapse_head(rest);
            }
            assert forall|k: int| 0 <= k && k + 1 < r.len() implies !(#[trigger] r[k] == '/' && r[k
                + 1] == '/') by {
                if k > 0 {
                    assert(r[k] == c[k - 1]);
                    assert(r[k + 1] == c[k]);
                }
            }
        }
    }
}

/// A string without slash runs is left as it is.
pub proof fn lemma_collapse_without_run(s: Seq<char>)
    requires
        no_slash_run(s),
    ensures
        collapse_runs(s) == s,
    decreases s.len(),
{
    if s.len() > 0 {
        let rest = s.skip(1);
        assert forall|k: int| 0 <= k && k + 1 < rest.len() implies !(#[trigger] rest[k] == '/'
            && rest[k + 1] == '/') by {
            assert(rest[k] == s[k + 1]);
            assert(rest[k + 1] == s[k + 2]);
        }
        lemma_collapse_without_run(rest);
        assert(!(s[0] == '/' && s.len() >= 2 && s[1] == '/'));
        assert(seq![s[0]] + rest =~= s);
    }
}

/// Collapsing drops nothing but `/`: the other characters stay, in order.
pub proof fn lemma_collapse_keeps_other_characters(s: Seq<char>)
    ensures
        collapse_runs(s).filter(|c: char| c != '/') == s.filter(|c: char| c != '/'),
    decreases s.len(),
{
    let keep = |c: char| c != '/';
    if s.len() > 0 {
        let rest = s.skip(1);
        lemma_collapse_keeps_other_characters(rest);
        assert(seq![s[0]] + rest =~= s);
        rest.lemma_filter_prepend(s[0], keep);
        collapse_runs(rest).lemma_filter_prepend(s[0], keep);
    }
}

/// What `separator_from` returns is the first `"://"` at or after `from`.
pub proof fn lemma_separator_from(s: Seq<char>, from: int)
    requires
        0 <= from,
    ensures
        match separator_from(s, from) {
            Some(i) => from <= i && separator_at(s, i) && forall|j: int|
                from <= j < i ==> !separator_at(s, j),
            None => forall|j: int| from <= j ==> !separator_at(s, j),
        },
    decreases s.len() - from,
{
    if from + 3 > s.len() {
    } else if separator_at(s, from) {
    } else {
        lemma_separator_from(s, from + 1);
    }
}

/// An index with `"://"` before which none stands is the one found.
pub proof fn lemma_separator_is_first(s: Seq<char>, from: int, i: int)
    requires
        0 <= from <= i,
        separator_at(s, i),
        forall|j: int| from <= j < i ==> !separator_at(s, j),
    ensures
        separator_from(s, from) == Some(i),
    decreases i - from,
{
    if from < i {
        assert(!separator_at(s, from));
        lemma_separator_is_first(s, from + 1, i);
    }
}

/// On a string that holds `"://"`, everything up to the end of its first
/// occurrence stays, no slash run is left behind it, and the characters other
/// than `/` behind it stay in order.
pub proof fn lemma_collapse_duplicate_slashes(s: Seq<char>)
    requires
        separator_from(s, 0) is Some,
    ensures
        ({
            let i = separator_from(s, 0)->0;
            let out = collapse_duplicate_slashes(s);
            &&& 0 <= i && i + 3 <= s.len() && i + 3 <= out.len()
            &&& out.take(i + 3) == s.take(i + 3)
            &&& out.skip(i + 3) == collapse_runs(s.skip(i + 3))
            &&& no_slash_run(out.skip(i + 3))
            &&& out.skip(i + 3).filter(|c: char| c != '/') == s.skip(i + 3).filter(
                |c: char| c != '/',
            )
            &&& separator_from(out, 0) == Some(i)
        }),
{
    let i = separator_from(s, 0)->0;
    lemma_separator_from(s, 0);
    let out = collapse_duplicate_slashes(s);
    let head = s.take(i + 3);
    let tail = collapse_runs(s.skip(i + 3));
    assert(out == head + tail);
    assert(out.take(i + 3) =~= head);
    assert(out.skip(i + 3) =~= tail);
    lemma_collapse_leaves_no_run(s.skip(i + 3));
    lemma_collapse_keeps_other_characters(s.skip(i + 3));
    assert(separator_at(out, i)) by {
        assert(out[i] == head[i] && out[i + 1] == head[i + 1] && out[i + 2] == head[i + 2]);
    }
    assert forall|j: int| 0 <= j < i implies !separator_at(out, j) by {
        assert(out[j] == head[j] && out[j + 1] == head[j + 1] && out[j + 2] == head[j + 2]);
        assert(!separator_at(s, j));
    }
    lemma_separator_is_first(out, 0, i);
}

/// Collapsing is idempotent: a second pass changes nothing.
pub proof fn lemma_collapse_idempotent(s: Seq<char>)
    ensures
        collapse_duplicate_slashes(collapse_duplicate_slashes(s)) == collapse_duplicate_slashes(s),
        collapse_runs(collapse_runs(s)) == collapse_runs(s),
{
    lemma_collapse_leaves_no_run(s);
    lemma_collapse_without_run(collapse_runs(s));
    if separator_from(s, 0) is Some {
        let i = separator_from(s, 0)->0;
        let out = collapse_duplicate_slashes(s);
        lemma_collapse_duplicate_slashes(s);
        lemma_collapse_without_run(out.skip(i + 3));
        assert(out.take(i + 3) + out.skip(i + 3) =~= out);
    }
}

/// A string without `"://"` is left as it is.
pub proof fn lemma_collapse_without_separator(s: Seq<char>)
    requires
        forall|j: int| !separator_at(s, j),
    ensures
        collapse_duplicate_slashes(s) == s,
{
    lemma_separator_from(s, 0);
}

/// Removes `prefix` from the front of `uri` where it stands there.
pub fn remove_prefix_from_uri(uri: &str, prefix: &str) -> (r: String)
    ensures
        r@ == strip_prefix(uri@, prefix@),
{
    let u = chars_of(uri);
    let p = chars_of(prefix);
    let mut k: usize = 0;
    let mut same: bool = p.len() <= u.len();
    while same && k < p.len()
        invariant
            k <= p@.len(),
            same ==> p@.len() <= u@.len(),
            same ==> u@.take(k as int) == p@.take(k as int),
            !same ==> !p@.is_prefix_of(u@),
        decreases p@.len() - k + (if same { 1int } else { 0int }),
    {
        if u[k] == p[k] {
            k += 1;
            assert(u@.take(k as int) =~= u@.take(k - 1).push(u@[k - 1]));
            assert(p@.take(k as int) =~= p@.take(k - 1).push(p@[k - 1]));
        } else {
            same = false;
            assert(!p@.is_prefix_of(u@)) by {
                if p@.is_prefix_of(u@) {
                    assert(u@.subrange(0, p@.len() as int)[k as int] == p@[k as int]);
                }
            }
        }
    }
    if same {
        assert(p@.take(p@.len() as int) =~= p@);
        assert(p@.is_prefix_of(u@));
        let mut out = String::new();
        push_chars(&mut out, &u, p.len());
        assert(Seq::<char>::empty() + u@.skip(p@.len() as int) =~= u@.skip(p@.len() as int));
        out
    } else {
        string_of(&u)
    }
}

/// Collapses slash runs behind the first `"://"` of `url`.
pub fn remove_extra_slashes(url: &str) -> (r: String)
    ensures
        r@ == collapse_duplicate_slashes(url@),
{
    let s = chars_of(url);
    let n: usize = s.len();
    let mut i: usize = 0;
    let mut found: bool = false;
    while !found && n >= 3 && i <= n - 3
        invariant
            n == s@.len(),
            i <= n,
            separator_from(s@, 0) == separator_from(s@, i as int),
            found ==> separator_at(s@, i as int),
        decreases n - i + (if found { 0int } else { 1int }),
    {
        if s[i] == ':' && s[i + 1] == '/' && s[i + 2] == '/' {
            found = true;
        } else {
            i += 1;
        }
    }
    if !found {
        return string_of(&s);
    }
    let start: usize = i + 3;
    let mut out = String::new();
    let mut j: usize = 0;
    while j < start
        invariant
            start <= n,
            n == s@.len(),
            j <= start,
            out@ == s@.take(j as int),
        decreases start - j,
    {
        out.push(s[j]);
        j += 1;
        assert(out@ =~= s@.take(j as int));
    }
    while j < n
        invariant
            start <= j <= n,
            n == s@.len(),
            out@ + collapse_runs(s@.skip(j as int)) == s@.take(start as int) + collapse_runs(
                s@.skip(start as int),
            ),
        decreases n - j,
    {
        let ghost rest = s@.skip(j as int);
        assert(rest.skip(1) =~= s@.skip(j + 1));
        assert(rest[0] == s@[j as int]);
        if s[j] == '/' && j + 1 < n && s[j + 1] == '/' {
            assert(rest[1] == s@[j + 1]);
        } else {
            let ghost before = out@;
            out.push(s[j]);
            assert(out@ + collapse_runs(s@.skip(j + 1)) =~= before + collapse_runs(rest));
        }
        j += 1;
    }
    assert(collapse_runs(s@.skip(n as int)) =~= Seq::<char>::empty());
    assert(out@ + Seq::<char>::empty() =~= out@);
    out
}

/// The backend target of a request: `backend_base` followed by `uri` without
/// `prefix`, slash runs collapsed behind the scheme separator.
pub fn rewrite_target(uri: &str, prefix: &str, backend_base: &str) -> (r: String)
    ensures
        r@ == rewrite(uri@, prefix@, backend_base@),
{
    let stripped = remove_prefix_from_uri(uri, prefix);
    let mut full = String::new();
    let base = chars_of(backend_base);
    push_chars(&mut full, &base, 0);
    let rest = chars_of(stripped.as_str());
    push_chars(&mut full, &rest, 0);
    assert(full@ =~= backend_base@ + stripped@) by {
        assert(base@.skip(0) =~= base@);
        assert(rest@.skip(0) =~= rest@);
    }
    remove_extra_slashes(full.as_str())
}

} // verus!
