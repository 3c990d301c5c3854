//! Project identity — a repository the user wants to monitor.

use vstd::prelude::*;
use crate::text::{
    chars_of, contains_chars, contains_seq, eq_ignore_ascii_case, find_char, index_of_char,
    lower_seq, lowered, pieces, push_chars, push_str, split_pieces, string_of, strip_prefix_all,
    strip_prefix_range, strip_suffix_all, strip_suffix_range, trim_range, trim_ws,
    trim_start_ws, trim_end_ws, is_ws, pieces_from,
};

verus! {

/// A monitored repository.
#[derive(Debug, Clone, PartialEq, Eq, Hash)]
pub struct Project {
    /// Repository owner (user or organization).
    pub owner: String,
    /// Repository name.
    pub repo: String,
    /// Optional branch filter; `None` means "any branch".
    pub branch: Option<String>,
    /// Human-friendly display label; falls back to `owner/repo`.
    pub label: Option<String>,
}

/// Mathematical view of a [`Project`].
pub struct ProjectView {
    pub owner: Seq<char>,
    pub repo: Seq<char>,
    pub branch: Option<Seq<char>>,
    pub label: Option<Seq<char>>,
}

/// View of an optional string.
pub open spec fn opt_view(o: Option<String>) -> Option<Seq<char>> {
    match o {
        Some(s) => Some(s@),
        None => None,
    }
}

impl View for Project {
    type V = ProjectView;

    open spec fn view(&self) -> ProjectView {
        ProjectView {
            owner: self.owner@,
            repo: self.repo@,
            branch: opt_view(self.branch),
            label: opt_view(self.label),
        }
    }
}

/// Errors from [`Project::parse`].
#[derive(Debug, Clone, PartialEq, Eq)]
pub enum ParseProjectError {
    Empty,
    Malformed(String),
}

/// View of a parse error: `None` for an empty spec, otherwise the offending spec.
pub open spec fn parse_error_view(e: ParseProjectError) -> Option<Seq<char>> {
    match e {
        ParseProjectError::Empty => None,
        ParseProjectError::Malformed(s) => Some(s@),
    }
}

/// `owner/repo`.
pub open spec fn slug_of(owner: Seq<char>, repo: Seq<char>) -> Seq<char> {
    owner + seq!['/'] + repo
}

/// A spec with any GitHub URL decoration removed, exactly as `parse` cleans it.
pub open spec fn clean_spec(s: Seq<char>) -> Seq<char> {
    strip_suffix_all(
        strip_suffix_all(
            strip_prefix_all(
                strip_prefix_all(
                    strip_prefix_all(strip_prefix_all(s, "https://"@), "http://"@),
                    "github.com/"@,
                ),
                "www.github.com/"@,
            ),
            ".git"@,
        ),
        seq!['/'],
    )
}

/// The `owner/repo` path and optional branch of a cleaned spec: the branch is
/// what follows the first `@`, trimmed, when that is not blank.
pub open spec fn split_branch(cleaned: Seq<char>) -> (Seq<char>, Option<Seq<char>>) {
    let at = index_of_char(cleaned, '@');
    if at >= 0 && trim_ws(cleaned.skip(at + 1)).len() > 0 {
        (cleaned.take(at), Some(trim_ws(cleaned.skip(at + 1))))
    } else {
        (cleaned, None)
    }
}

/// What [`Project::parse`] yields for `input`: `Err(None)` for a blank spec,
/// `Err(Some(trimmed))` for a malformed one.
pub open spec fn parse_result(input: Seq<char>) -> Result<ProjectView, Option<Seq<char>>> {
    let t = trim_ws(input);
    if t.len() == 0 {
        Err(None)
    } else {
        let (path, branch) = split_branch(clean_spec(t));
        let parts = pieces(path, '/');
        if parts.len() == 2 {
            Ok(ProjectView { owner: parts[0], repo: parts[1], branch: branch, label: None })
        } else {
            Err(Some(t))
        }
    }
}

/// The query a project is searched with: trimmed; blank matches everything.
pub open spec fn query_matches(p: ProjectView, query: Seq<char>) -> bool {
    let q = trim_ws(query);
    q.len() == 0 || contains_seq(lower_seq(p.owner), lower_seq(q)) || contains_seq(
        lower_seq(p.repo),
        lower_seq(q),
    ) || (p.label matches Some(l) && contains_seq(lower_seq(l), lower_seq(q)))
}

/// Whether a project belongs to `owner` (ASCII case-insensitive, trimmed).
pub open spec fn owned_by(p: ProjectView, owner: Seq<char>) -> bool {
    lower_seq(p.owner) == lower_seq(trim_ws(owner))
}

/// Copy of an optional string.
pub fn copy_opt(o: &Option<String>) -> (r: Option<String>)
    ensures
        r == *o,
{
    match o {
        Some(s) => Some(s.clone()),
        None => None,
    }
}

impl ParseProjectError {
    /// Human-readable message.
    pub fn message(&self) -> (r: String)
        ensures
            r@ == match self {
                ParseProjectError::Empty => "empty project spec"@,
                ParseProjectError::Malformed(s) => "expected 'owner/repo' (optionally '@branch'), got: "@
                    + s@,
            },
    {
        match self {
            ParseProjectError::Empty => {
                let mut r = String::new();
                push_str(&mut r, "empty project spec");
                assert(r@ =~= "empty project spec"@);
                r
            },
            ParseProjectError::Malformed(s) => {
                let mut r = String::new();
                push_str(&mut r, "expected 'owner/repo' (optionally '@branch'), got: ");
                push_str(&mut r, s.as_str());
                assert(r@ =~= "expected 'owner/repo' (optionally '@branch'), got: "@ + s@);
                r
            },
        }
    }
}

impl Project {
    /// Construct a minimal project from `owner/repo`.
    pub fn new(owner: &str, repo: &str) -> (p: Project)
        ensures
            p@ == (ProjectView { owner: owner@, repo: repo@, branch: None, label: None }),
    {
        let mut o = String::new();
        push_str(&mut o, owner);
        let mut r = String::new();
        push_str(&mut r, repo);
        assert(o@ =~= owner@);
        assert(r@ =~= repo@);
        Project { owner: o, repo: r, branch: None, label: None }
    }

    /// An equal copy of this project.
    pub fn duplicate(&self) -> (r: Project)
        ensures
            r == *self,
    {
        Project {
            owner: self.owner.clone(),
            repo: self.repo.clone(),
            branch: copy_opt(&self.branch),
            label: copy_opt(&self.label),
        }
    }

    /// Parse a `owner/repo` or `owner/repo@branch` spec into a [`Project`].
    ///
    /// Accepts full GitHub URLs too (`https://github.com/owner/repo`). Branch
    /// may be appended with `@`, e.g. `rust-lang/rust@master`.
    pub fn parse(spec: &str) -> (r: Result<Project, ParseProjectError>)
        ensures
            match r {
                Ok(p) => parse_result(spec@) == Ok::<ProjectView, Option<Seq<char>>>(p@),
                Err(e) => parse_result(spec@) == Err::<ProjectView, Option<Seq<char>>>(
                    parse_error_view(e),
                ),
            },
    {
        let v = chars_of(spec);
        let n = v.len();
        let (a, b) = trim_range(v.as_slice(), 0, n);
        assert(v@.subrange(0, n as int) =~= spec@);
        let ghost t = v@.subrange(a as int, b as int);
        if a == b {
            return Err(ParseProjectError::Empty);
        }
        let https = chars_of("https://");
        let http = chars_of("http://");
        let gh = chars_of("github.com/");
        let www = chars_of("www.github.com/");
        let dotgit = chars_of(".git");
        let slash = vec!['/'];
        let s1 = strip_prefix_range(v.as_slice(), a, b, https.as_slice());
        let s2 = strip_prefix_range(v.as_slice(), s1, b, http.as_slice());
        let s3 = strip_prefix_range(v.as_slice(), s2, b, gh.as_slice());
        let s4 = strip_prefix_range(v.as_slice(), s3, b, www.as_slice());
        let e1 = strip_suffix_range(v.as_slice(), s4, b, dotgit.as_slice());
        let e2 = strip_suffix_range(v.as_slice(), s4, e1, slash.as_slice());
        let ghost cleaned = v@.subrange(s4 as int, e2 as int);
        assert(slash@ =~= seq!['/']);
        assert(cleaned == clean_spec(t));
        // Split off an optional `@branch` suffix.
        let at = find_char(v.as_slice(), s4, e2, '@');
        let mut path_end = e2;
        let mut branch: Option<String> = None;
        if at < e2 {
            let (ba, bb) = trim_range(v.as_slice(), at + 1, e2);
            assert(v@.subrange(at + 1, e2 as int) =~= cleaned.skip(at - s4 + 1));
            if ba < bb {
                path_end = at;
                branch = Some(string_of(v.as_slice(), ba, bb));
                assert(v@.subrange(s4 as int, at as int) =~= cleaned.take(at - s4));
            }
        }
        let ghost path = v@.subrange(s4 as int, path_end as int);
        assert(path == split_branch(cleaned).0);
        assert(opt_view(branch) == split_branch(cleaned).1);
        let parts = split_pieces(v.as_slice(), s4, path_end, '/');
        if parts.len() != 2 {
            return Err(ParseProjectError::Malformed(string_of(v.as_slice(), a, b)));
        }
        let (oa, ob) = parts[0];
        let (ra, rb) = parts[1];
        let owner = string_of(v.as_slice(), oa, ob);
        let repo = string_of(v.as_slice(), ra, rb);
        Ok(Project { owner, repo, branch, label: None })
    }

    pub open spec fn spec_slug(self) -> Seq<char> {
        slug_of(self.owner@, self.repo@)
    }

    /// Canonical `owner/repo` slug — stable identity used as a map key.
    pub fn slug(&self) -> (r: String)
        ensures
            r@ == self.spec_slug(),
    {
        let mut s = String::new();
        push_str(&mut s, self.owner.as_str());
        s.push('/');
        push_str(&mut s, self.repo.as_str());
        assert(s@ =~= slug_of(self.owner@, self.repo@));
        s
    }

    pub open spec fn spec_display_name(self) -> Seq<char> {
        match self.label {
            Some(l) => l@,
            None => self.spec_slug(),
        }
    }

    /// What to show in the UI: explicit label, or the slug.
    pub fn display_name(&self) -> (r: String)
        ensures
            r@ == self.spec_display_name(),
    {
        match &self.label {
            Some(l) => l.clone(),
            None => self.slug(),
        }
    }

    /// Case-insensitive substring match against the owner, repo, and label.
    /// Empty query matches everything.
    pub fn matches_query(&self, query: &str) -> (r: bool)
        ensures
            r == query_matches(self@, query@),
    {
        let qv = chars_of(query);
        let n = qv.len();
        let (a, b) = trim_range(qv.as_slice(), 0, n);
        assert(qv@.subrange(0, n as int) =~= query@);
        if a == b {
            return true;
        }
        let q = lowered(chars_of(string_of(qv.as_slice(), a, b).as_str()).as_slice());
        contains_ci(self.owner.as_str(), q.as_slice()) || contains_ci(
            self.repo.as_str(),
            q.as_slice(),
        ) || match &self.label {
            Some(l) => contains_ci(l.as_str(), q.as_slice()),
            None => false,
        }
    }

    /// Whether this project belongs to `owner` (case-insensitive).
    pub fn belongs_to(&self, owner: &str) -> (r: bool)
        ensures
            r == owned_by(self@, owner@),
    {
        let ov = chars_of(owner);
        let n = ov.len();
        let (a, b) = trim_range(ov.as_slice(), 0, n);
        assert(ov@.subrange(0, n as int) =~= owner@);
        let t = string_of(ov.as_slice(), a, b);
        eq_ignore_ascii_case(self.owner.as_str(), t.as_str())
    }
}

/// Case-insensitive substring test. `needle_lower` must already be lowercased.
fn contains_ci(haystack: &str, needle_lower: &[char]) -> (r: bool)
    ensures
        r == contains_seq(lower_seq(haystack@), needle_lower@),
{
    let h = lowered(chars_of(haystack).as_slice());
    contains_chars(h.as_slice(), needle_lower)
}


/// A character of an owner, repository or branch name as the parse laws
/// take them: an ASCII letter or digit, `_` or `-`.
pub open spec fn name_char(c: char) -> bool {
    let u = c as u32;
    (0x61 <= u <= 0x7a) || (0x41 <= u <= 0x5a) || (0x30 <= u <= 0x39) || u == 0x5f || u == 0x2d
}

/// A non-empty name made of [`name_char`]s.
pub open spec fn plain_name(s: Seq<char>) -> bool {
    s.len() > 0 && forall|i: int| 0 <= i < s.len() ==> name_char(#[trigger] s[i])
}

/// Whether every character of `s` is whitespace.
pub open spec fn all_ws(s: Seq<char>) -> bool {
    forall|i: int| 0 <= i < s.len() ==> is_ws(#[trigger] s[i])
}

proof fn lemma_name_char(c: char)
    requires
        name_char(c),
    ensures
        !is_ws(c),
        c != ':',
        c != '.',
        c != '/',
        c != '@',
{
}

proof fn lemma_trim_start(lead: Seq<char>, x: Seq<char>)
    requires
        all_ws(lead),
        x.len() > 0,
        !is_ws(x[0]),
    ensures
        trim_start_ws(lead + x) == x,
    decreases lead.len(),
{
    if lead.len() > 0 {
        assert((lead + x).drop_first() =~= lead.drop_first() + x);
        assert(is_ws(lead[0]));
        lemma_trim_start(lead.drop_first(), x);
    } else {
        assert(lead + x =~= x);
    }
}

proof fn lemma_trim_end(x: Seq<char>, trail: Seq<char>)
    requires
        all_ws(trail),
        x.len() > 0,
        !is_ws(x.last()),
    ensures
        trim_end_ws(x + trail) == x,
    decreases trail.len(),
{
    if trail.len() > 0 {
        assert((x + trail).drop_last() =~= x + trail.drop_last());
        assert(is_ws(trail.last()));
        lemma_trim_end(x, trail.drop_last());
    } else {
        assert(x + trail =~= x);
    }
}

proof fn lemma_trim_around(lead: Seq<char>, x: Seq<char>, trail: Seq<char>)
    requires
        all_ws(lead),
        all_ws(trail),
        x.len() > 0,
        !is_ws(x[0]),
        !is_ws(x.last()),
    ensures
        trim_ws(lead + x + trail) == x,
{
    assert(lead + x + trail =~= lead + (x + trail));
    assert((x + trail)[0] == x[0]);
    lemma_trim_start(lead, x + trail);
    lemma_trim_end(x, trail);
}

proof fn lemma_no_prefix(s: Seq<char>, p: Seq<char>, j: int)
    requires
        0 <= j < p.len(),
        s.len() >= p.len() ==> s[j] != p[j],
    ensures
        strip_prefix_all(s, p) == s,
{
    if p.len() > 0 && s.len() >= p.len() && s.take(p.len() as int) == p {
        assert(s.take(p.len() as int)[j] == s[j]);
    }
}

proof fn lemma_no_suffix(s: Seq<char>, p: Seq<char>, j: int)
    requires
        0 <= j < p.len(),
        s.len() >= p.len() ==> s[s.len() - p.len() + j] != p[j],
    ensures
        strip_suffix_all(s, p) == s,
{
    if p.len() > 0 && s.len() >= p.len() && s.skip(s.len() - p.len()) == p {
        assert(s.skip(s.len() - p.len())[j] == s[s.len() - p.len() + j]);
    }
}

proof fn lemma_index_absent(s: Seq<char>, c: char)
    requires
        forall|i: int| 0 <= i < s.len() ==> #[trigger] s[i] != c,
    ensures
        index_of_char(s, c) == -1,
    decreases s.len(),
{
    if s.len() > 0 {
        assert(forall|i: int| 0 <= i < s.drop_first().len() ==> s.drop_first()[i] == s[i + 1]);
        lemma_index_absent(s.drop_first(), c);
    }
}

proof fn lemma_index_at(s: Seq<char>, c: char, k: int)
    requires
        0 <= k < s.len(),
        s[k] == c,
        forall|i: int| 0 <= i < k ==> #[trigger] s[i] != c,
    ensures
        index_of_char(s, c) == k,
    decreases k,
{
    if k > 0 {
        assert(forall|i: int| 0 <= i < s.drop_first().len() ==> s.drop_first()[i] == s[i + 1]);
        assert(s[0] != c);
        lemma_index_at(s.drop_first(), c, k - 1);
    }
}

proof fn lemma_pieces_run(x: Seq<char>, rest: Seq<char>, sep: char, cur: Seq<char>)
    requires
        forall|i: int| 0 <= i < x.len() ==> #[trigger] x[i] != sep,
    ensures
        pieces_from(x + rest, sep, cur) == pieces_from(rest, sep, cur + x),
    decreases x.len(),
{
    if x.len() > 0 {
        assert((x + rest)[0] == x[0]);
        assert((x + rest).drop_first() =~= x.drop_first() + rest);
        assert(cur.push(x[0]) + x.drop_first() =~= cur + x);
        lemma_pieces_run(x.drop_first(), rest, sep, cur.push(x[0]));
    } else {
        assert(x + rest =~= rest);
        assert(cur + x =~= cur);
    }
}

/// The pieces of `owner/repo` on `/` are the owner and the repository.
proof fn lemma_slug_pieces(o: Seq<char>, r: Seq<char>)
    requires
        plain_name(o),
        plain_name(r),
    ensures
        pieces(slug_of(o, r), '/') == seq![o, r],
{
    assert forall|i: int| 0 <= i < o.len() implies #[trigger] o[i] != '/' by {
        lemma_name_char(o[i]);
    }
    assert forall|i: int| 0 <= i < r.len() implies #[trigger] r[i] != '/' by {
        lemma_name_char(r[i]);
    }
    assert(slug_of(o, r) =~= o + (seq!['/'] + r));
    lemma_pieces_run(o, seq!['/'] + r, '/', seq![]);
    assert(seq![] + o =~= o);
    assert((seq!['/'] + r)[0] == '/');
    assert((seq!['/'] + r).drop_first() =~= r + seq![]);
    lemma_pieces_run(r, seq![], '/', seq![]);
    assert(seq![] + r =~= r);
    assert(seq![o] + seq![r] =~= seq![o, r]);
}

/// A spec made only of name characters, `/` and `@`, ending in a name
/// character, has no URL decoration to clean.
proof fn lemma_clean_plain(s: Seq<char>)
    requires
        s.len() > 0,
        name_char(s.last()),
        forall|i: int| 0 <= i < s.len() ==> #[trigger] s[i] != ':' && s[i] != '.',
    ensures
        clean_spec(s) == s,
{
    reveal_strlit("https://");
    reveal_strlit("http://");
    reveal_strlit("github.com/");
    reveal_strlit("www.github.com/");
    reveal_strlit(".git");
    lemma_no_prefix(s, "https://"@, 5);
    lemma_no_prefix(s, "http://"@, 4);
    lemma_no_prefix(s, "github.com/"@, 6);
    lemma_no_prefix(s, "www.github.com/"@, 3);
    lemma_no_suffix(s, ".git"@, 0);
    lemma_name_char(s.last());
    lemma_no_suffix(s, seq!['/'], 0);
}

/// Parsing gives a project back from its `owner/repo` slug, with any
/// whitespace around it; with `@branch` appended, the same project with that
/// branch.
pub proof fn law_parse_roundtrip(o: Seq<char>, r: Seq<char>, b: Seq<char>, lead: Seq<char>, trail: Seq<char>)
    requires
        plain_name(o),
        plain_name(r),
        plain_name(b),
        all_ws(lead),
        all_ws(trail),
    ensures
        parse_result(lead + slug_of(o, r) + trail) == Ok::<ProjectView, Option<Seq<char>>>(
            ProjectView { owner: o, repo: r, branch: None, label: None },
        ),
        parse_result(lead + slug_of(o, r) + seq!['@'] + b + trail) == Ok::<ProjectView, Option<Seq<char>>>(
            ProjectView { owner: o, repo: r, branch: Some(b), label: None },
        ),
{
    let slug = slug_of(o, r);
    assert forall|i: int| 0 <= i < slug.len() implies #[trigger] slug[i] != ':' && slug[i] != '.' && slug[i] != '@' by {
        if i < o.len() {
            assert(slug[i] == o[i]);
            lemma_name_char(o[i]);
        } else if i > o.len() {
            assert(slug[i] == r[i - o.len() - 1]);
            lemma_name_char(r[i - o.len() - 1]);
        }
    }
    assert(slug[0] == o[0]);
    lemma_name_char(o[0]);
    assert(slug.last() == r.last());
    lemma_name_char(r.last());
    lemma_slug_pieces(o, r);

    // Plain slug.
    lemma_trim_around(lead, slug, trail);
    lemma_clean_plain(slug);
    lemma_index_absent(slug, '@');

    // Slug with a branch.
    let core = slug + seq!['@'] + b;
    assert(core[0] == o[0]);
    assert(core.last() == b.last());
    lemma_name_char(b.last());
    lemma_name_char(b[0]);
    assert(lead + slug + seq!['@'] + b + trail =~= lead + core + trail);
    lemma_trim_around(lead, core, trail);
    assert forall|i: int| 0 <= i < core.len() implies #[trigger] core[i] != ':' && core[i] != '.' by {
        if i < slug.len() {
            assert(core[i] == slug[i]);
        } else if i > slug.len() {
            assert(core[i] == b[i - slug.len() - 1]);
            lemma_name_char(b[i - slug.len() - 1]);
        }
    }
    lemma_clean_plain(core);
    assert forall|i: int| 0 <= i < slug.len() implies #[trigger] core[i] != '@' by {
        assert(core[i] == slug[i]);
    }
    lemma_index_at(core, '@', slug.len() as int);
    assert(core.skip(slug.len() as int + 1) =~= b);
    assert(core.take(slug.len() as int) =~= slug);
    lemma_trim_around(seq![], b, seq![]);
    assert(seq![] + b + seq![] =~= b);
}

} // verus!
