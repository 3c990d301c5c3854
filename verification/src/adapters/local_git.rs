//! Local git discovery — recognises cloned GitHub repositories from the
//! contents of their `.git/config`, and merges what a directory walk found.
//!
//! The `.git/config` is parsed directly rather than by running `git`, so
//! discovery works even where `git` is not installed. The directory walk
//! itself happens at the edge of the program; it hands each config's text
//! and each directory name to the functions here.

use vstd::prelude::*;
use crate::domain::project::{slug_of, Project, ProjectView};
use crate::domain::project_status::{lemma_lex_rank_props, lemma_lex_rank_trans, lemma_lex_rank_zero, lex_rank, lex_rank_str};
use crate::text::{
    chars_eq, chars_of, drop_spaces, find_char, find_seq_in, first_occurrence, has_prefix,
    has_prefix_in, index_of_char, pieces, split_pieces, str_eq, string_of, strip_suffix_all,
    strip_suffix_range, trim_range, trim_ws, without_spaces,
};

verus! {

/// Scans the filesystem for cloned GitHub repositories.
pub struct LocalGitScanner {
    /// How many directory levels below the root to descend.
    depth: usize,
}

impl Default for LocalGitScanner {
    fn default() -> (s: LocalGitScanner)
        ensures
            s.spec_depth() == 1,
    {
        LocalGitScanner { depth: 1 }
    }
}

/// The slug of a project view.
#[verifier::opaque]
pub open spec fn pv_slug(p: ProjectView) -> Seq<char> {
    slug_of(p.owner, p.repo)
}

/// Slugs strictly ascend along `s`.
pub open spec fn slugs_ascending(s: Seq<ProjectView>) -> bool {
    forall|i: int, j: int|
        0 <= i < j < s.len() ==> lex_rank(pv_slug(#[trigger] s[i]), pv_slug(#[trigger] s[j])) < 0
}

/// Index of the first element of `s` with slug `slug`, or `-1`.
pub open spec fn slug_index(s: Seq<ProjectView>, slug: Seq<char>) -> int
    decreases s.len(),
{
    if s.len() == 0 {
        -1
    } else {
        let r = slug_index(s.drop_last(), slug);
        if r >= 0 {
            r
        } else if pv_slug(s.last()) == slug {
            s.len() - 1
        } else {
            -1
        }
    }
}

/// `out` is `found` sorted by slug with one project per slug: for each slug,
/// the first project found with it.
pub open spec fn deduped_by_slug(found: Seq<ProjectView>, out: Seq<ProjectView>) -> bool {
    &&& slugs_ascending(out)
    &&& forall|i: int|
        0 <= i < out.len() ==> slug_index(found, pv_slug(#[trigger] out[i])) >= 0 && out[i]
            == found[slug_index(found, pv_slug(out[i]))]
    &&& forall|k: int| 0 <= k < found.len() ==> slug_index(out, pv_slug(#[trigger] found[k])) >= 0
}

/// What [`slug_index`] finds.
pub proof fn lemma_slug_index(s: Seq<ProjectView>, slug: Seq<char>)
    ensures
        slug_index(s, slug) >= 0 ==> slug_index(s, slug) < s.len() && pv_slug(
            s[slug_index(s, slug)],
        ) == slug && forall|m: int| 0 <= m < slug_index(s, slug) ==> pv_slug(#[trigger] s[m]) != slug,
        slug_index(s, slug) < 0 ==> forall|m: int| 0 <= m < s.len() ==> pv_slug(#[trigger] s[m]) != slug,
        slug_index(s, slug) >= -1,
    decreases s.len(),
{
    if s.len() > 0 {
        let d = s.drop_last();
        lemma_slug_index(d, slug);
        assert forall|m: int| 0 <= m < d.len() implies #[trigger] s[m] == d[m] by {}
    }
}

/// Views of a list of projects.
pub open spec fn project_views(s: Seq<Project>) -> Seq<ProjectView> {
    s.map_values(|p: Project| p@)
}

/// Where a slug goes in a slug-ascending list: the first position whose slug
/// is not below it, and whether that slug is equal to it.
fn slug_position(out: &Vec<Project>, s: &str) -> (r: (usize, bool))
    requires
        slugs_ascending(project_views(out@)),
    ensures
        r.0 <= out@.len(),
        forall|i: int| 0 <= i < r.0 ==> lex_rank(s@, pv_slug(#[trigger] project_views(out@)[i])) > 0,
        r.0 < out@.len() ==> lex_rank(s@, pv_slug(project_views(out@)[r.0 as int])) <= 0,
        r.1 <==> (r.0 < out@.len() && pv_slug(project_views(out@)[r.0 as int]) == s@),
{
    let mut k: usize = 0;
    while k < out.len()
        invariant
            k <= out@.len(),
            forall|i: int| 0 <= i < k ==> lex_rank(s@, pv_slug(#[trigger] project_views(out@)[i])) > 0,
        decreases out@.len() - k,
    {
        let other = out[k].slug();
        assert(other@ == pv_slug(project_views(out@)[k as int])) by {
            reveal(pv_slug);
        }
        let c = lex_rank_str(s, other.as_str());
        if c <= 0 {
            proof {
                if c == 0 {
                    lemma_lex_rank_zero(s@, other@);
                } else if other@ == s@ {
                    crate::domain::project_status::lemma_lex_rank_refl(s@);
                }
            }
            return (k, c == 0);
        }
        k = k + 1;
    }
    (k, false)
}


/// A project whose slug is already merged leaves the merge unchanged.
proof fn lemma_scan_keeps_first(
    done: Seq<ProjectView>,
    o0: Seq<ProjectView>,
    p: ProjectView,
    k: int,
)
    requires
        deduped_by_slug(done, o0),
        0 <= k < o0.len(),
        pv_slug(o0[k]) == pv_slug(p),
    ensures
        deduped_by_slug(done.push(p), o0),
{
    let next = done.push(p);
    assert(next.drop_last() =~= done);
    assert forall|i: int| 0 <= i < o0.len() implies slug_index(next, pv_slug(#[trigger] o0[i])) >= 0
        && o0[i] == next[slug_index(next, pv_slug(o0[i]))] by {
        lemma_slug_index(done, pv_slug(o0[i]));
    }
    assert forall|m: int| 0 <= m < next.len() implies slug_index(o0, pv_slug(#[trigger] next[m]))
        >= 0 by {
        if m < done.len() {
            assert(next[m] == done[m]);
        } else {
            lemma_slug_index(o0, pv_slug(p));
        }
    }
}

/// A project with a new slug, inserted where its slug belongs, keeps the
/// merge sorted, deduplicated and complete.
proof fn lemma_scan_inserts_new(
    done: Seq<ProjectView>,
    o0: Seq<ProjectView>,
    p: ProjectView,
    k: int,
)
    requires
        deduped_by_slug(done, o0),
        0 <= k <= o0.len(),
        forall|i: int| 0 <= i < k ==> lex_rank(pv_slug(p), pv_slug(#[trigger] o0[i])) > 0,
        k < o0.len() ==> lex_rank(pv_slug(p), pv_slug(o0[k])) <= 0,
        k < o0.len() ==> pv_slug(o0[k]) != pv_slug(p),
    ensures
        deduped_by_slug(done.push(p), o0.insert(k, p)),
{
    let sp = pv_slug(p);
    let next = done.push(p);
    let w = o0.insert(k, p);
    assert(next.drop_last() =~= done);
    if k < o0.len() {
        lemma_lex_rank_props(sp, pv_slug(o0[k]));
        if lex_rank(sp, pv_slug(o0[k])) == 0 {
            lemma_lex_rank_zero(sp, pv_slug(o0[k]));
        }
    }
    // No merged slug equals the new one.
    assert forall|j: int| 0 <= j < o0.len() implies pv_slug(#[trigger] o0[j]) != sp by {
        if j < k {
            if pv_slug(o0[j]) == sp {
                crate::domain::project_status::lemma_lex_rank_refl(sp);
            }
        } else if j > k {
            assert(lex_rank(pv_slug(o0[k]), pv_slug(o0[j])) < 0);
            lemma_lex_rank_trans(sp, pv_slug(o0[k]), pv_slug(o0[j]));
            if pv_slug(o0[j]) == sp {
                crate::domain::project_status::lemma_lex_rank_refl(sp);
            }
        }
    }
    lemma_slug_index(done, sp);
    if slug_index(done, sp) >= 0 {
        let m = slug_index(done, sp);
        assert(slug_index(o0, pv_slug(done[m])) >= 0);
        lemma_slug_index(o0, sp);
        assert(false);
    }
    assert(slug_index(next, sp) == done.len());
    assert forall|a: int, b: int| 0 <= a < b < w.len() implies lex_rank(
        pv_slug(#[trigger] w[a]),
        pv_slug(#[trigger] w[b]),
    ) < 0 by {
        if b < k {
            assert(w[a] == o0[a] && w[b] == o0[b]);
        } else if b == k {
            assert(w[a] == o0[a]);
            lemma_lex_rank_props(sp, pv_slug(o0[a]));
        } else if a > k {
            assert(w[a] == o0[a - 1] && w[b] == o0[b - 1]);
        } else if a == k {
            assert(w[b] == o0[b - 1]);
            if b - 1 > k {
                assert(lex_rank(pv_slug(o0[k]), pv_slug(o0[b - 1])) < 0);
                lemma_lex_rank_trans(sp, pv_slug(o0[k]), pv_slug(o0[b - 1]));
            }
        } else {
            assert(w[a] == o0[a] && w[b] == o0[b - 1]);
        }
    }
    assert forall|i: int| 0 <= i < w.len() implies slug_index(next, pv_slug(#[trigger] w[i])) >= 0
        && w[i] == next[slug_index(next, pv_slug(w[i]))] by {
        if i == k {
            assert(w[i] == p);
        } else {
            let ii = if i < k { i } else { i - 1 };
            assert(w[i] == o0[ii]);
            lemma_slug_index(done, pv_slug(o0[ii]));
        }
    }
    assert forall|m: int| 0 <= m < next.len() implies slug_index(w, pv_slug(#[trigger] next[m]))
        >= 0 by {
        let x = pv_slug(next[m]);
        lemma_slug_index(w, x);
        if m < done.len() {
            assert(next[m] == done[m]);
            lemma_slug_index(o0, x);
            let j = slug_index(o0, x);
            if j < k {
                assert(w[j] == o0[j]);
            } else {
                assert(w[j + 1] == o0[j]);
            }
        } else {
            assert(w[k] == p);
        }
    }
}

impl LocalGitScanner {
    pub closed spec fn spec_depth(self) -> usize {
        self.depth
    }

    /// A scanner that descends `depth` levels (0 = only the root itself).
    pub fn with_depth(depth: usize) -> (s: LocalGitScanner)
        ensures
            s.spec_depth() == depth,
    {
        LocalGitScanner { depth }
    }

    /// How many levels below the root the walk descends.
    pub fn depth(&self) -> (r: usize)
        ensures
            r == self.spec_depth(),
    {
        self.depth
    }

    /// Merge the projects a walk `found`: sorted by slug, one per slug,
    /// keeping the first one found.
    pub fn scan(&self, found: Vec<Project>) -> (out: Vec<Project>)
        ensures
            deduped_by_slug(project_views(found@), project_views(out@)),
    {
        let ghost orig = project_views(found@);
        let mut rest = found;
        let n0 = rest.len();
        let mut out: Vec<Project> = Vec::new();
        let mut i: usize = 0;
        while rest.len() > 0
            invariant
                i + rest@.len() == n0,
                orig.len() == n0,
                project_views(rest@) == orig.skip(i as int),
                deduped_by_slug(orig.take(i as int), project_views(out@)),
            decreases rest@.len(),
        {
            let ghost r0 = project_views(rest@);
            let ghost o0 = project_views(out@);
            let ghost done = orig.take(i as int);
            let p = rest.remove(0);
            assert(r0[0] == p@);
            assert(project_views(rest@) =~= r0.drop_first());
            assert(orig.skip(i as int).drop_first() =~= orig.skip(i + 1));
            assert(orig[i as int] == p@);
            let ghost next = orig.take(i + 1);
            assert(next =~= done.push(p@));
            let s = p.slug();
            assert(s@ == pv_slug(p@)) by {
                reveal(pv_slug);
            }
            let (k, dup) = slug_position(&out, s.as_str());
            if dup {
                proof {
                    lemma_scan_keeps_first(done, o0, p@, k as int);
                }
            } else {
                out.insert(k, p);
                proof {
                    assert(project_views(out@) =~= o0.insert(k as int, p@));
                    lemma_scan_inserts_new(done, o0, p@, k as int);
                }
            }
            i = i + 1;
        }
        assert(orig.take(i as int) =~= orig);
        out
    }
}

/// The project a `.git/config` describes: its `origin` remote, when that is
/// a GitHub remote.
pub open spec fn git_config_project(config: Seq<char>) -> Option<ProjectView> {
    match config_origin_url(config) {
        Some(url) => remote_project(url),
        None => None,
    }
}

/// If `contents` is a `.git/config` with a GitHub `origin`, its [`Project`].
pub fn project_from_git_config(contents: &str) -> (r: Option<Project>)
    ensures
        match r {
            Some(p) => git_config_project(contents@) == Some(p@),
            None => git_config_project(contents@) is None,
        },
{
    match origin_url(contents) {
        Some(url) => parse_github_remote(url.as_str()),
        None => None,
    }
}

/// The `url` of the first `[remote "origin"]` section among `lines`, where
/// `in_origin` says whether the lines follow that section's header. Section
/// headers are compared with their spaces removed; a `url` line is one
/// starting with `url` and holding an `=`, whose value is what follows the
/// first `=`, trimmed.
pub open spec fn origin_in(lines: Seq<Seq<char>>, in_origin: bool) -> Option<Seq<char>>
    decreases lines.len(),
{
    if lines.len() == 0 {
        None
    } else {
        let t = trim_ws(lines[0]);
        let rest = t.skip(3);
        if t.len() > 0 && t[0] == '[' {
            origin_in(lines.drop_first(), drop_spaces(t) == "[remote\"origin\"]"@)
        } else if in_origin && has_prefix(t, "url"@) && index_of_char(rest, '=') >= 0 {
            Some(trim_ws(rest.skip(index_of_char(rest, '=') + 1)))
        } else {
            origin_in(lines.drop_first(), in_origin)
        }
    }
}

/// The `origin` remote URL of a git config. Blank lines are irrelevant to
/// the scan, so the non-empty pieces between newlines stand for its lines
/// (a trailing carriage return is trimmed with the rest of the line).
pub open spec fn config_origin_url(config: Seq<char>) -> Option<Seq<char>> {
    origin_in(pieces(config, '\n'), false)
}

/// Extract the `url` of the `[remote "origin"]` section from a git config.
pub fn origin_url(config: &str) -> (r: Option<String>)
    ensures
        match r {
            Some(u) => config_origin_url(config@) == Some(u@),
            None => config_origin_url(config@) is None,
        },
{
    let v = chars_of(config);
    let n = v.len();
    let lines = split_pieces(v.as_slice(), 0, n, '\n');
    assert(v@.subrange(0, n as int) =~= config@);
    let ghost all = pieces(config@, '\n');
    let header = chars_of("[remote\"origin\"]");
    let url = chars_of("url");
    proof {
        reveal_strlit("url");
    }
    let mut in_origin = false;
    let mut i: usize = 0;
    assert(all.skip(0) =~= all);
    while i < lines.len()
        invariant
            v@ == config@,
            n == v@.len(),
            header@ == "[remote\"origin\"]"@,
            url@ == "url"@,
            all == pieces(config@, '\n'),
            lines@.len() == all.len(),
            forall|k: int|
                0 <= k < lines@.len() ==> 0 <= (#[trigger] lines@[k]).0 <= lines@[k].1 <= n
                    && v@.subrange(lines@[k].0 as int, lines@[k].1 as int) == all[k],
            i <= lines@.len(),
            config_origin_url(config@) == origin_in(all.skip(i as int), in_origin),
        decreases lines@.len() - i,
    {
        let ghost ls = all.skip(i as int);
        let (la, lb) = lines[i];
        assert(ls[0] == all[i as int]);
        assert(ls.drop_first() =~= all.skip(i + 1));
        let (a, b) = trim_range(v.as_slice(), la, lb);
        let ghost t = v@.subrange(a as int, b as int);
        assert(t == trim_ws(ls[0]));
        if a < b && v[a] == '[' {
            let bare = without_spaces(v.as_slice(), a, b);
            in_origin = chars_eq(bare.as_slice(), header.as_slice());
        } else {
            if in_origin && has_prefix_in(v.as_slice(), a, b, url.as_slice()) {
                proof {
                    reveal_strlit("url");
                }
                assert(t.take(3) == "url"@);
                let ghost rest = t.skip(3);
                assert(rest =~= v@.subrange(a + 3, b as int));
                let eq = find_char(v.as_slice(), a + 3, b, '=');
                if eq < b {
                    let (va, vb) = trim_range(v.as_slice(), eq + 1, b);
                    assert(rest.skip(index_of_char(rest, '=') + 1) =~= v@.subrange(
                        eq + 1,
                        b as int,
                    ));
                    return Some(string_of(v.as_slice(), va, vb));
                }
            }
        }
        i = i + 1;
    }
    None
}

/// The repository path of a GitHub remote URL (trimmed): what follows
/// `git@github.com:`, `ssh://git@github.com/`, or the first `github.com/`.
pub open spec fn remote_path(url: Seq<char>) -> Option<Seq<char>> {
    let t = trim_ws(url);
    if has_prefix(t, "git@github.com:"@) {
        Some(t.skip(15))
    } else if has_prefix(t, "ssh://git@github.com/"@) {
        Some(t.skip(21))
    } else if first_occurrence(t, "github.com/"@) >= 0 {
        Some(t.skip(first_occurrence(t, "github.com/"@) + 11))
    } else {
        None
    }
}

/// The project a GitHub remote URL names: the first two non-empty path
/// segments, once trailing slashes and then trailing `.git`s are removed.
pub open spec fn remote_project(url: Seq<char>) -> Option<ProjectView> {
    match remote_path(url) {
        None => None,
        Some(path) => {
            let parts = pieces(strip_suffix_all(strip_suffix_all(path, seq!['/']), ".git"@), '/');
            if parts.len() >= 2 {
                Some(ProjectView { owner: parts[0], repo: parts[1], branch: None, label: None })
            } else {
                None
            }
        },
    }
}

/// Parse `owner/repo` out of any GitHub remote URL form:
///   * `https://github.com/owner/repo.git`
///   * `git@github.com:owner/repo.git`
///   * `ssh://git@github.com/owner/repo.git`
pub fn parse_github_remote(url: &str) -> (r: Option<Project>)
    ensures
        match r {
            Some(p) => remote_project(url@) == Some(p@),
            None => remote_project(url@) is None,
        },
{
    let v = chars_of(url);
    let n = v.len();
    let (a, b) = trim_range(v.as_slice(), 0, n);
    assert(v@.subrange(0, n as int) =~= url@);
    let ghost t = v@.subrange(a as int, b as int);
    let scp = chars_of("git@github.com:");
    let ssh = chars_of("ssh://git@github.com/");
    let host = chars_of("github.com/");
    proof {
        reveal_strlit("git@github.com:");
        reveal_strlit("ssh://git@github.com/");
        reveal_strlit("github.com/");
    }
    let start = if has_prefix_in(v.as_slice(), a, b, scp.as_slice()) {
        assert(t.skip(15) =~= v@.subrange(a + 15, b as int));
        a + 15
    } else if has_prefix_in(v.as_slice(), a, b, ssh.as_slice()) {
        assert(t.skip(21) =~= v@.subrange(a + 21, b as int));
        a + 21
    } else {
        match find_seq_in(v.as_slice(), a, b, host.as_slice()) {
            Some(idx) => {
                proof {
                    crate::text::lemma_first_occurrence_bound(t, "github.com/"@);
                }
                assert(t.skip(idx - a + 11) =~= v@.subrange(idx + 11, b as int));
                idx + 11
            },
            None => {
                return None;
            },
        }
    };
    let ghost path = v@.subrange(start as int, b as int);
    assert(Some(path) == remote_path(url@));
    let slash = vec!['/'];
    let dotgit = chars_of(".git");
    let e1 = strip_suffix_range(v.as_slice(), start, b, slash.as_slice());
    assert(slash@ =~= seq!['/']);
    let e2 = strip_suffix_range(v.as_slice(), start, e1, dotgit.as_slice());
    let parts = split_pieces(v.as_slice(), start, e2, '/');
    if parts.len() < 2 {
        return None;
    }
    let (oa, ob) = parts[0];
    let (ra, rb) = parts[1];
    let owner = string_of(v.as_slice(), oa, ob);
    let repo = string_of(v.as_slice(), ra, rb);
    Some(Project { owner, repo, branch: None, label: None })
}

/// Directory names the walk does not descend into: hidden ones, and the
/// usual build/dependency folders.
pub open spec fn hidden_name(name: Seq<char>) -> bool {
    (name.len() > 0 && name[0] == '.') || name == "node_modules"@ || name == "target"@
}

/// Whether the walk skips a directory named `name`.
pub fn is_hidden(name: &str) -> (r: bool)
    ensures
        r == hidden_name(name@),
{
    let v = chars_of(name);
    (v.len() > 0 && v[0] == '.') || str_eq(name, "node_modules") || str_eq(name, "target")
}

} // verus!
