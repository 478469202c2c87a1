//! Builds the search path handed to the agent binary: the caller's PATH,
//! then the usual install directories that it lacks.
use vstd::prelude::*;
use crate::text::{contains_text, is_blank, text_is_blank, texts};

verus! {

/// The non-empty `:`-separated entries of `s`, `cur` being the entry read so far.
pub open spec fn entries_from(s: Seq<char>, cur: Seq<char>) -> Seq<Seq<char>>
    decreases s.len(),
{
    if s.len() == 0 {
        if cur.len() == 0 { seq![] } else { seq![cur] }
    } else if s[0] == ':' {
        (if cur.len() == 0 { seq![] } else { seq![cur] }) + entries_from(s.drop_first(), seq![])
    } else {
        entries_from(s.drop_first(), cur.push(s[0]))
    }
}

/// The non-empty entries of a PATH-style value, in order.
pub open spec fn path_entries(s: Seq<char>) -> Seq<Seq<char>> {
    entries_from(s, seq![])
}

/// Entries joined with `:`.
pub open spec fn join_entries(parts: Seq<Seq<char>>) -> Seq<char>
    decreases parts.len(),
{
    if parts.len() == 0 {
        seq![]
    } else if parts.len() == 1 {
        parts[0]
    } else {
        join_entries(parts.drop_last()) + seq![':'] + parts.last()
    }
}

/// Appends each of `extras` to `acc`, in order, unless it is there already.
pub open spec fn merge_dirs(acc: Seq<Seq<char>>, extras: Seq<Seq<char>>) -> Seq<Seq<char>>
    decreases extras.len(),
{
    if extras.len() == 0 {
        acc
    } else {
        let next = if acc.contains(extras[0]) { acc } else { acc.push(extras[0]) };
        merge_dirs(next, extras.drop_first())
    }
}

/// System-wide directories where the binary and its runtimes are often installed.
pub open spec fn standard_dirs() -> Seq<Seq<char>> {
    seq![
        "/opt/homebrew/bin"@,
        "/usr/local/bin"@,
        "/usr/bin"@,
        "/bin"@,
        "/usr/sbin"@,
        "/sbin"@,
    ]
}

/// Tool directories under the home directory `h`.
pub open spec fn home_dirs(h: Seq<char>) -> Seq<Seq<char>> {
    seq![
        h + "/.local/bin"@,
        h + "/.local/share/mise/shims"@,
        h + "/.cargo/bin"@,
        h + "/.bun/bin"@,
    ]
}

/// What `Path::parent` gives for a path, as text.
pub uninterp spec fn parent_dir_of(p: Seq<char>) -> Option<Seq<char>>;

/// Relies on `std::path::Path::parent`: the path without its last component,
/// or `None` for a root or an empty path. The result depends on the text alone.
#[verifier::external_body]
fn path_parent(p: &str) -> (r: Option<String>)
    ensures
        match r {
            Some(d) => parent_dir_of(p@) == Some(d@),
            None => parent_dir_of(p@) is None,
        },
{
    std::path::Path::new(p).parent().map(|d| d.to_string_lossy().to_string())
}

/// The parent of an explicitly configured binary, if one is set, not blank
/// and has a parent; for a bare program name that parent is the empty path.
pub open spec fn bin_dirs(claude_bin: Option<Seq<char>>) -> Seq<Seq<char>> {
    match claude_bin {
        Some(b) => if is_blank(b) {
            seq![]
        } else {
            match parent_dir_of(b) {
                Some(d) => seq![d],
                None => seq![],
            }
        },
        None => seq![],
    }
}

/// Directories considered for adding, in order: the standard ones, those under
/// the home directory together with the node installs found there, and the
/// directory of the configured binary.
pub open spec fn extra_dirs(
    home: Option<Seq<char>>,
    node_bins: Seq<Seq<char>>,
    claude_bin: Option<Seq<char>>,
) -> Seq<Seq<char>> {
    standard_dirs() + match home {
        Some(h) => home_dirs(h) + node_bins,
        None => seq![],
    } + bin_dirs(claude_bin)
}

/// The search path entries built from the current PATH value and the extras.
pub open spec fn path_dirs(
    path_var: Seq<char>,
    home: Option<Seq<char>>,
    node_bins: Seq<Seq<char>>,
    claude_bin: Option<Seq<char>>,
) -> Seq<Seq<char>> {
    merge_dirs(path_entries(path_var), extra_dirs(home, node_bins, claude_bin))
}

/// View of an optional text.
pub open spec fn opt_text(s: Option<&str>) -> Option<Seq<char>> {
    match s {
        Some(t) => Some(t@),
        None => None,
    }
}

fn push_text(v: &mut Vec<String>, s: String)
    ensures
        texts(final(v)@) == texts(old(v)@).push(s@),
{
    v.push(s);
    assert(texts(v@) =~= texts(old(v)@).push(s@));
}

fn joined(base: &str, tail: &str) -> (r: String)
    ensures
        r@ == base@ + tail@,
{
    let mut s = String::from_str(base);
    s.append(tail);
    s
}

/// Splits a PATH-style value on `:` and drops empty entries.
pub fn split_path_var(s: &str) -> (r: Vec<String>)
    ensures
        texts(r@) == path_entries(s@),
{
    let n = s.unicode_len();
    let mut out: Vec<String> = Vec::new();
    let mut start: usize = 0;
    let mut i: usize = 0;
    assert(s@.subrange(0, n as int) =~= s@);
    assert(s@.subrange(0, 0) =~= seq![]);
    assert(texts(out@) + path_entries(s@) =~= path_entries(s@));
    while i < n
        invariant
            n == s@.len(),
            start <= i <= n,
            texts(out@) + entries_from(s@.subrange(i as int, n as int), s@.subrange(
                start as int,
                i as int,
            )) == path_entries(s@),
        decreases n - i,
    {
        let ghost rest = s@.subrange(i as int, n as int);
        let ghost cur = s@.subrange(start as int, i as int);
        assert(rest[0] == s@[i as int]);
        assert(rest.drop_first() == s@.subrange(i + 1, n as int));
        if s.get_char(i) == ':' {
            if start < i {
                let part = String::from_str(s.substring_char(start, i));
                let ghost before = texts(out@);
                push_text(&mut out, part);
                assert(before + (seq![cur] + entries_from(rest.drop_first(), seq![])) =~= texts(
                    out@,
                ) + entries_from(rest.drop_first(), seq![]));
            } else {
                assert(seq![] + entries_from(rest.drop_first(), seq![]) =~= entries_from(
                    rest.drop_first(),
                    seq![],
                ));
            }
            start = i + 1;
            assert(s@.subrange(start as int, start as int) =~= seq![]);
        } else {
            assert(cur.push(s@[i as int]) =~= s@.subrange(start as int, i + 1));
        }
        i = i + 1;
    }
    assert(s@.subrange(n as int, n as int) =~= seq![]);
    let ghost cur = s@.subrange(start as int, n as int);
    if start < n {
        let part = String::from_str(s.substring_char(start, n));
        let ghost before = texts(out@);
        push_text(&mut out, part);
        assert(before + seq![cur] =~= texts(out@));
    } else {
        assert(texts(out@) + seq![] =~= texts(out@));
    }
    out
}

/// Joins entries with `:`.
pub fn join_path_dirs(dirs: &Vec<String>) -> (r: String)
    ensures
        r@ == join_entries(texts(dirs@)),
{
    let mut out = String::new();
    let mut k: usize = 0;
    while k < dirs.len()
        invariant
            k <= dirs.len(),
            out@ == join_entries(texts(dirs@).subrange(0, k as int)),
        decreases dirs.len() - k,
    {
        let ghost prev = texts(dirs@).subrange(0, k as int);
        let ghost next = texts(dirs@).subrange(0, k + 1);
        assert(next.drop_last() =~= prev);
        if k > 0 {
            out.append(":");
            proof {
                reveal_strlit(":");
            }
        } else {
            assert(next =~= seq![dirs@[0]@]);
        }
        out.append(dirs[k].as_str());
        k = k + 1;
    }
    assert(texts(dirs@).subrange(0, dirs.len() as int) =~= texts(dirs@));
    out
}

/// Appends each of `extras` to `paths` unless it is present already.
fn merge_into(paths: &mut Vec<String>, extras: &Vec<String>)
    ensures
        texts(final(paths)@) == merge_dirs(texts(old(paths)@), texts(extras@)),
{
    let mut j: usize = 0;
    assert(texts(extras@).subrange(0, extras.len() as int) =~= texts(extras@));
    while j < extras.len()
        invariant
            j <= extras.len(),
            merge_dirs(texts(paths@), texts(extras@).subrange(j as int, extras.len() as int))
                == merge_dirs(texts(old(paths)@), texts(extras@)),
        decreases extras.len() - j,
    {
        let ghost rest = texts(extras@).subrange(j as int, extras.len() as int);
        assert(rest[0] == extras@[j as int]@);
        assert(rest.drop_first() =~= texts(extras@).subrange(j + 1, extras.len() as int));
        if !contains_text(paths, extras[j].as_str()) {
            push_text(paths, extras[j].clone());
        }
        j = j + 1;
    }
    assert(texts(extras@).subrange(0, extras.len() as int) =~= texts(extras@));
}

fn append_texts(v: &mut Vec<String>, more: &Vec<String>)
    ensures
        texts(final(v)@) == texts(old(v)@) + texts(more@),
{
    let mut k: usize = 0;
    while k < more.len()
        invariant
            k <= more.len(),
            texts(v@) == texts(old(v)@) + texts(more@).subrange(0, k as int),
        decreases more.len() - k,
    {
        let ghost before = texts(v@);
        push_text(v, more[k].clone());
        assert(texts(more@).subrange(0, k + 1) =~= texts(more@).subrange(0, k as int).push(
            more@[k as int]@,
        ));
        assert(texts(v@) =~= texts(old(v)@) + texts(more@).subrange(0, k + 1));
        k = k + 1;
    }
    assert(texts(more@).subrange(0, more.len() as int) =~= texts(more@));
}

/// The candidate directories, in the order they are considered.
pub fn extra_path_dirs(home: Option<&str>, node_bins: &Vec<String>, claude_bin: Option<&str>) -> (r:
    Vec<String>)
    ensures
        texts(r@) == extra_dirs(opt_text(home), texts(node_bins@), opt_text(claude_bin)),
{
    let mut v: Vec<String> = Vec::new();
    push_text(&mut v, String::from_str("/opt/homebrew/bin"));
    push_text(&mut v, String::from_str("/usr/local/bin"));
    push_text(&mut v, String::from_str("/usr/bin"));
    push_text(&mut v, String::from_str("/bin"));
    push_text(&mut v, String::from_str("/usr/sbin"));
    push_text(&mut v, String::from_str("/sbin"));
    assert(texts(v@) =~= standard_dirs());
    let ghost after_home: Seq<Seq<char>>;
    match home {
        Some(h) => {
            push_text(&mut v, joined(h, "/.local/bin"));
            push_text(&mut v, joined(h, "/.local/share/mise/shims"));
            push_text(&mut v, joined(h, "/.cargo/bin"));
            push_text(&mut v, joined(h, "/.bun/bin"));
            assert(texts(v@) =~= standard_dirs() + home_dirs(h@));
            append_texts(&mut v, node_bins);
            proof {
                after_home = standard_dirs() + (home_dirs(h@) + texts(node_bins@));
                assert(texts(v@) =~= after_home);
            }
        },
        None => {
            proof {
                after_home = standard_dirs() + seq![];
                assert(texts(v@) =~= after_home);
            }
        },
    }
    match claude_bin {
        Some(b) => {
            if !text_is_blank(b) {
                match path_parent(b) {
                    Some(d) => {
                        push_text(&mut v, d);
                    },
                    None => {},
                }
            }
        },
        None => {},
    }
    assert(texts(v@) =~= after_home + bin_dirs(opt_text(claude_bin)));
    v
}

/// The entries of the search path: the non-empty entries of `path_var` in
/// their order, then each extra directory that is not present yet.
pub fn claude_path_dirs(
    path_var: &str,
    home: Option<&str>,
    node_bins: &Vec<String>,
    claude_bin: Option<&str>,
) -> (r: Vec<String>)
    ensures
        texts(r@) == path_dirs(path_var@, opt_text(home), texts(node_bins@), opt_text(claude_bin)),
{
    let mut paths = split_path_var(path_var);
    let extras = extra_path_dirs(home, node_bins, claude_bin);
    merge_into(&mut paths, &extras);
    paths
}

proof fn lemma_merge_dirs(acc: Seq<Seq<char>>, extras: Seq<Seq<char>>)
    ensures
        merge_dirs(acc, extras).len() >= acc.len(),
        forall|i: int| 0 <= i < acc.len() ==> #[trigger] merge_dirs(acc, extras)[i] == acc[i],
        acc.no_duplicates() ==> merge_dirs(acc, extras).no_duplicates(),
        forall|i: int| 0 <= i < extras.len() ==> merge_dirs(acc, extras).contains(#[trigger] extras[i]),
    decreases extras.len(),
{
    if extras.len() > 0 {
        let next = if acc.contains(extras[0]) { acc } else { acc.push(extras[0]) };
        let rest = extras.drop_first();
        lemma_merge_dirs(next, rest);
        let m = merge_dirs(next, rest);
        assert(m == merge_dirs(acc, extras));
        assert forall|i: int| 0 <= i < acc.len() implies m[i] == acc[i] by {
            assert(next[i] == acc[i]);
        }
        if acc.no_duplicates() {
            if !acc.contains(extras[0]) {
                assert forall|i: int, j: int|
                    0 <= i < next.len() && 0 <= j < next.len() && i != j implies next[i] != next[j] by {
                    if i == acc.len() as int {
                        assert(acc[j] != extras[0]);
                    } else if j == acc.len() as int {
                        assert(acc[i] != extras[0]);
                    }
                }
            }
        }
        if !acc.contains(extras[0]) {
            assert(next[acc.len() as int] == extras[0]);
        }
        assert(next.contains(extras[0]));
        let k = choose|k: int| 0 <= k < next.len() && next[k] == extras[0];
        assert(m[k] == next[k]);
        assert forall|i: int| 0 <= i < extras.len() implies m.contains(#[trigger] extras[i]) by {
            if i == 0 {
                assert(m[k] == extras[0]);
            } else {
                assert(rest[i - 1] == extras[i]);
            }
        }
    }
}

/// The search path starts with the entries of the given PATH value, in their
/// order, and holds every extra directory; it repeats no entry unless the
/// given PATH value already repeats one.
pub proof fn lemma_path_dirs_shape(
    path_var: Seq<char>,
    home: Option<Seq<char>>,
    node_bins: Seq<Seq<char>>,
    claude_bin: Option<Seq<char>>,
)
    ensures
        ({
            let d = path_dirs(path_var, home, node_bins, claude_bin);
            let e = path_entries(path_var);
            &&& d.len() >= e.len()
            &&& d.subrange(0, e.len() as int) == e
            &&& e.no_duplicates() ==> d.no_duplicates()
            &&& forall|x: Seq<char>| #[trigger]
                extra_dirs(home, node_bins, claude_bin).contains(x) ==> d.contains(x)
        }),
{
    let d = path_dirs(path_var, home, node_bins, claude_bin);
    let e = path_entries(path_var);
    let x = extra_dirs(home, node_bins, claude_bin);
    lemma_merge_dirs(e, x);
    assert(d.subrange(0, e.len() as int) =~= e);
    assert forall|y: Seq<char>| #[trigger] x.contains(y) implies d.contains(y) by {
        let i = choose|i: int| 0 <= i < x.len() && x[i] == y;
        assert(d.contains(x[i]));
    }
}

/// The user-local binary directory under the home directory `h`.
pub open spec fn local_bin_dir(h: Seq<char>) -> Seq<char> {
    h + "/.local/bin"@
}

/// With a home directory known, `h/.local/bin` is in the search path exactly
/// once, whether or not the given PATH value held it, provided that value
/// repeats no entry.
pub proof fn lemma_local_bin_once(
    path_var: Seq<char>,
    h: Seq<char>,
    node_bins: Seq<Seq<char>>,
    claude_bin: Option<Seq<char>>,
)
    requires
        path_entries(path_var).no_duplicates(),
    ensures
        ({
            let d = path_dirs(path_var, Some(h), node_bins, claude_bin);
            &&& d.contains(local_bin_dir(h))
            &&& d.no_duplicates()
        }),
{
    lemma_path_dirs_shape(path_var, Some(h), node_bins, claude_bin);
    let x = extra_dirs(Some(h), node_bins, claude_bin);
    assert(x[6] == local_bin_dir(h));
    assert(x.contains(local_bin_dir(h)));
}

/// A directory that stands as one component of a `:`-joined value.
pub open spec fn is_plain_dir(d: Seq<char>) -> bool {
    d.len() > 0 && !d.contains(':')
}

proof fn lemma_entries_skip_plain(x: Seq<char>, rest: Seq<char>, cur: Seq<char>)
    requires
        !x.contains(':'),
    ensures
        entries_from(x + rest, cur) == entries_from(rest, cur + x),
    decreases x.len(),
{
    if x.len() > 0 {
        let y = x.drop_first();
        assert(x[0] != ':');
        assert((x + rest)[0] == x[0]);
        assert((x + rest).drop_first() =~= y + rest);
        assert(!y.contains(':')) by {
            assert forall|i: int| 0 <= i < y.len() implies y[i] != ':' by {
                assert(y[i] == x[i + 1]);
            }
        }
        lemma_entries_skip_plain(y, rest, cur.push(x[0]));
        assert(cur.push(x[0]) + y =~= cur + x);
    } else {
        assert(x + rest =~= rest);
        assert(cur + x =~= cur);
    }
}

proof fn lemma_entries_of_joined(d: Seq<Seq<char>>, rest: Seq<char>)
    requires
        d.len() > 0,
        forall|i: int| 0 <= i < d.len() ==> is_plain_dir(#[trigger] d[i]),
    ensures
        entries_from(join_entries(d) + rest, seq![]) == d.drop_last() + entries_from(rest, d.last()),
    decreases d.len(),
{
    if d.len() == 1 {
        lemma_entries_skip_plain(d[0], rest, seq![]);
        assert(seq![] + d[0] =~= d[0]);
        assert(d.drop_last() =~= seq![]);
        assert(d.drop_last() + entries_from(rest, d.last()) =~= entries_from(rest, d.last()));
    } else {
        let e = d.drop_last();
        let last = d.last();
        assert(is_plain_dir(e.last()));
        assert(is_plain_dir(last));
        let tail = seq![':'] + last + rest;
        assert(join_entries(d) + rest =~= join_entries(e) + tail);
        lemma_entries_of_joined(e, tail);
        assert(tail[0] == ':');
        assert(tail.drop_first() =~= last + rest);
        lemma_entries_skip_plain(last, rest, seq![]);
        assert(seq![] + last =~= last);
        assert(entries_from(tail, e.last()) == seq![e.last()] + entries_from(last + rest, seq![]));
        assert(e.drop_last() + (seq![e.last()] + entries_from(rest, last)) =~= e + entries_from(
            rest,
            last,
        ));
    }
}

/// Splitting a `:`-joined list of directories, none of them empty or
/// holding `:`, gives the list back.
pub proof fn lemma_split_joined(d: Seq<Seq<char>>)
    requires
        forall|i: int| 0 <= i < d.len() ==> is_plain_dir(#[trigger] d[i]),
    ensures
        path_entries(join_entries(d)) == d,
{
    if d.len() > 0 {
        lemma_entries_of_joined(d, seq![]);
        assert(join_entries(d) + seq![] =~= join_entries(d));
        assert(d.drop_last() + seq![d.last()] =~= d);
    }
}

/// With a home directory known and the given PATH value repeating no entry,
/// the components of the built search path value repeat none and hold
/// `h/.local/bin` exactly once, provided no directory in it is empty or
/// holds `:`.
pub proof fn lemma_path_value_components(
    path_var: Seq<char>,
    h: Seq<char>,
    node_bins: Seq<Seq<char>>,
    claude_bin: Option<Seq<char>>,
)
    requires
        path_entries(path_var).no_duplicates(),
        forall|i: int|
            0 <= i < path_dirs(path_var, Some(h), node_bins, claude_bin).len() ==> is_plain_dir(
                #[trigger] path_dirs(path_var, Some(h), node_bins, claude_bin)[i],
            ),
    ensures
        ({
            let d = path_dirs(path_var, Some(h), node_bins, claude_bin);
            let parts = path_entries(join_entries(d));
            &&& parts == d
            &&& parts.no_duplicates()
            &&& parts.contains(local_bin_dir(h))
            &&& parts.subrange(0, path_entries(path_var).len() as int) == path_entries(path_var)
        }),
{
    lemma_local_bin_once(path_var, h, node_bins, claude_bin);
    lemma_path_dirs_shape(path_var, Some(h), node_bins, claude_bin);
    lemma_split_joined(path_dirs(path_var, Some(h), node_bins, claude_bin));
}

/// The search path value: `None` when it would be empty, else the entries of
/// `claude_path_dirs` joined with `:`. `home` is the home directory, if known,
/// and `node_bins` the `bin` directories of the node versions installed under it.
pub fn build_claude_path_env(
    path_var: &str,
    home: Option<&str>,
    node_bins: &Vec<String>,
    claude_bin: Option<&str>,
) -> (r: Option<String>)
    ensures
        ({
            let dirs = path_dirs(path_var@, opt_text(home), texts(node_bins@), opt_text(claude_bin));
            match r {
                Some(s) => dirs.len() > 0 && s@ == join_entries(dirs),
                None => dirs.len() == 0,
            }
        }),
{
    let dirs = claude_path_dirs(path_var, home, node_bins, claude_bin);
    if dirs.len() == 0 {
        None
    } else {
        Some(join_path_dirs(&dirs))
    }
}

} // verus!
