//! The headless commands' decisions and reports: adding, removing and
//! importing repositories, the `list`/`check` status lines, and the
//! `doctor` diagnosis. Reading and writing files, network calls and printing
//! happen at the edge of the program.

use vstd::prelude::*;
use crate::cli::ImportArgs;
use crate::config::{config_views, entry_survives, same_slug, tracks_slug, with_added, Config, TokenSource};
use crate::domain::project::{parse_result, slug_of, ParseProjectError, Project, ProjectView};
use crate::domain::status::RunState;
use crate::ports::{DiscoverySource, ProviderError};
use crate::domain::run::WorkflowRun;
use crate::text::{
    chars_of, decimal, find_char, index_of_char, pad_right, push_decimal, push_padded, push_str,
    string_of, trim_range, trim_ws,
};

verus! {

/// `y` for one, `ies` for any other count (as in "repositor-y/ies").
pub open spec fn plural_text(n: nat) -> Seq<char> {
    if n == 1 {
        "y"@
    } else {
        "ies"@
    }
}

/// Suffix for "repositor…" agreeing with `n`.
pub fn plural(n: usize) -> (r: &'static str)
    ensures
        r@ == plural_text(n as nat),
{
    if n == 1 {
        "y"
    } else {
        "ies"
    }
}

/// Message when a remote import is asked for without a token.
pub open spec fn token_needed_text() -> Seq<char> {
    "this import source needs a GitHub token.\n\nSet one with:  export GITHUB_TOKEN=...\nor log in with the GitHub CLI:  gh auth login"@
}

/// Whether the import source needs the GitHub API (and so a token).
pub open spec fn needs_token(args: ImportArgs) -> bool {
    args.me || args.user is Some || args.org is Some
}

/// Fail fast with a friendly message when a remote import is requested
/// without a token.
pub fn require_token_for_remote(args: &ImportArgs, has_token: bool) -> (r: Result<(), String>)
    ensures
        match r {
            Ok(()) => !needs_token(*args) || has_token,
            Err(m) => needs_token(*args) && !has_token && m@ == token_needed_text(),
        },
{
    let needs = args.me || args.user.is_some() || args.org.is_some();
    if needs && !has_token {
        let mut m = String::new();
        push_str(
            &mut m,
            "this import source needs a GitHub token.\n\nSet one with:  export GITHUB_TOKEN=...\nor log in with the GitHub CLI:  gh auth login",
        );
        return Err(m);
    }
    Ok(())
}

/// Where `ghs import` takes repositories from.
#[derive(Debug)]
pub enum ImportSource {
    /// The GitHub API, for this discovery source.
    Remote(DiscoverySource),
    /// Git clones under this directory.
    Local(String),
    /// Git clones under the current directory, since no source was chosen.
    CurrentDir,
}

/// The source `args` select: `--me`, then `--user`, then `--org`, then
/// `--local`; with none of them, the current directory.
pub open spec fn chosen_source(args: ImportArgs) -> ImportSource {
    if args.me {
        ImportSource::Remote(DiscoverySource::AuthenticatedUser)
    } else if args.user is Some {
        ImportSource::Remote(DiscoverySource::User(args.user->0))
    } else if args.org is Some {
        ImportSource::Remote(DiscoverySource::Org(args.org->0))
    } else if args.local is Some {
        ImportSource::Local(args.local->0)
    } else {
        ImportSource::CurrentDir
    }
}

/// Resolve the chosen import source; remote sources take precedence.
pub fn import_source(args: &ImportArgs) -> (r: ImportSource)
    ensures
        r == chosen_source(*args),
{
    if args.me {
        return ImportSource::Remote(DiscoverySource::AuthenticatedUser);
    }
    if let Some(user) = &args.user {
        return ImportSource::Remote(DiscoverySource::User(user.clone()));
    }
    if let Some(org) = &args.org {
        return ImportSource::Remote(DiscoverySource::Org(org.clone()));
    }
    if let Some(dir) = &args.local {
        return ImportSource::Local(dir.clone());
    }
    ImportSource::CurrentDir
}

/// Report line for a spec that could not be parsed.
pub open spec fn skipped_line(spec: Seq<char>, e: Option<Seq<char>>) -> Seq<char> {
    "✗ skipped '"@ + spec + "': "@ + match e {
        None => "empty project spec"@,
        Some(t) => "expected 'owner/repo' (optionally '@branch'), got: "@ + t,
    }
}

/// The projects after adding each spec in turn, the report lines, and how
/// many were new.
pub open spec fn adding(vs: Seq<ProjectView>, specs: Seq<Seq<char>>) -> (
    Seq<ProjectView>,
    Seq<Seq<char>>,
    nat,
)
    decreases specs.len(),
{
    if specs.len() == 0 {
        (vs, seq![], 0)
    } else {
        let (v1, lines, n) = adding(vs, specs.drop_last());
        let s = specs.last();
        match parse_result(s) {
            Ok(p) => if tracks_slug(v1, p.owner, p.repo) {
                (v1, lines.push("· "@ + slug_of(p.owner, p.repo) + " already tracked"@), n)
            } else {
                (with_added(v1, p), lines.push("✓ added "@ + slug_of(p.owner, p.repo)), n + 1)
            },
            Err(e) => (v1, lines.push(skipped_line(s, e)), n),
        }
    }
}

/// The character sequences of a list of strings.
pub open spec fn string_views(v: Seq<String>) -> Seq<Seq<char>> {
    v.map_values(|s: String| s@)
}

/// Report line for a parse failure.
fn skipped(spec: &str, e: &ParseProjectError) -> (r: String)
    ensures
        r@ == skipped_line(
            spec@,
            match e {
                ParseProjectError::Empty => None,
                ParseProjectError::Malformed(t) => Some(t@),
            },
        ),
{
    let mut r = String::new();
    push_str(&mut r, "✗ skipped '");
    push_str(&mut r, spec);
    push_str(&mut r, "': ");
    push_str(&mut r, e.message().as_str());
    r
}

/// `ghs add`: add each spec to `config` (de-duplicated), returning one
/// report line per spec and how many projects were new.
pub fn add_specs(config: &mut Config, specs: &Vec<String>) -> (r: (Vec<String>, usize))
    requires
        specs@.len() <= usize::MAX,
    ensures
        ({
            let (vs, lines, n) = adding(config_views(old(config).projects@), string_views(specs@));
            &&& config_views(final(config).projects@) == vs
            &&& string_views(r.0@) == lines
            &&& r.1 == n
        }),
        final(config).settings == old(config).settings,
{
    let ghost v0 = config_views(config.projects@);
    let ghost sv = string_views(specs@);
    let mut lines: Vec<String> = Vec::new();
    let mut added: usize = 0;
    let mut i: usize = 0;
    while i < specs.len()
        invariant
            i <= specs@.len(),
            sv == string_views(specs@),
            config.settings == old(config).settings,
            added <= i,
            ({
                let (vs, ls, n) = adding(v0, sv.take(i as int));
                &&& config_views(config.projects@) == vs
                &&& string_views(lines@) == ls
                &&& added == n
            }),
        decreases specs@.len() - i,
    {
        let spec = &specs[i];
        assert(sv.take(i + 1).drop_last() =~= sv.take(i as int));
        assert(sv.take(i + 1).last() == spec@);
        let ghost before = string_views(lines@);
        match Project::parse(spec.as_str()) {
            Ok(project) => {
                let slug = project.slug();
                let mut line = String::new();
                if config.add_project(project) {
                    push_str(&mut line, "✓ added ");
                    push_str(&mut line, slug.as_str());
                    added = added + 1;
                } else {
                    push_str(&mut line, "· ");
                    push_str(&mut line, slug.as_str());
                    push_str(&mut line, " already tracked");
                }
                lines.push(line);
            },
            Err(e) => {
                lines.push(skipped(spec.as_str(), &e));
            },
        }
        assert(string_views(lines@) =~= before.push(lines@.last()@));
        i = i + 1;
    }
    assert(sv.take(i as int) =~= sv);
    (lines, added)
}

/// Closing line of `ghs add`.
pub open spec fn add_summary_text(path: Seq<char>, added: nat) -> Seq<char> {
    if added > 0 {
        "\nSaved "@ + path + " ("@ + decimal(added) + " new). Run `ghs` to view."@
    } else {
        "\nNothing to add."@
    }
}

/// Closing line of `ghs add`.
pub fn add_summary(path: &str, added: usize) -> (r: String)
    ensures
        r@ == add_summary_text(path@, added as nat),
{
    let mut r = String::new();
    if added > 0 {
        push_str(&mut r, "\nSaved ");
        push_str(&mut r, path);
        push_str(&mut r, " (");
        push_decimal(&mut r, added as u64);
        push_str(&mut r, " new). Run `ghs` to view.");
    } else {
        push_str(&mut r, "\nNothing to add.");
    }
    r
}

/// Whether `spec` names a whole owner (`ghs remove owner`): not blank, and
/// free of `/` and `@` once trimmed.
pub open spec fn owner_spec(spec: Seq<char>) -> bool {
    let t = trim_ws(spec);
    t.len() > 0 && index_of_char(t, '/') == -1 && index_of_char(t, '@') == -1
}

/// The trimmed owner named by `spec`, if it names a whole owner.
fn owner_of_spec(spec: &str) -> (r: Option<String>)
    ensures
        match r {
            Some(o) => owner_spec(spec@) && o@ == trim_ws(spec@),
            None => !owner_spec(spec@),
        },
{
    let v = chars_of(spec);
    let n = v.len();
    let (a, b) = trim_range(v.as_slice(), 0, n);
    assert(v@.subrange(0, n as int) =~= spec@);
    if a == b {
        return None;
    }
    let slash = find_char(v.as_slice(), a, b, '/');
    let at = find_char(v.as_slice(), a, b, '@');
    if slash == b && at == b {
        Some(string_of(v.as_slice(), a, b))
    } else {
        None
    }
}

/// The projects after removing each spec in turn, the report lines, and
/// how many projects were removed. A spec naming a whole owner removes
/// every project of that owner; any other spec removes its `owner/repo`.
pub open spec fn removing(vs: Seq<ProjectView>, specs: Seq<Seq<char>>) -> (
    Seq<ProjectView>,
    Seq<Seq<char>>,
    nat,
)
    decreases specs.len(),
{
    if specs.len() == 0 {
        (vs, seq![], 0)
    } else {
        let (v1, lines, n) = removing(vs, specs.drop_last());
        let s = specs.last();
        if owner_spec(s) {
            let o = trim_ws(s);
            let v2 = v1.filter(entry_survives(o, o, true));
            if v2.len() < v1.len() {
                let k = (v1.len() - v2.len()) as nat;
                (v2, lines.push("✓ removed "@ + decimal(k) + " project(s) of "@ + o), n + k)
            } else {
                (v2, lines.push("· no projects of "@ + o + " were tracked"@), n)
            }
        } else {
            match parse_result(s) {
                Ok(p) => {
                    let v2 = v1.filter(entry_survives(p.owner, p.repo, false));
                    if v2.len() != v1.len() {
                        (v2, lines.push("✓ removed "@ + slug_of(p.owner, p.repo)), n + 1)
                    } else {
                        (v2, lines.push("· "@ + slug_of(p.owner, p.repo) + " was not tracked"@), n)
                    }
                },
                Err(e) => (v1, lines.push(skipped_line(s, e)), n),
            }
        }
    }
}

/// `ghs remove`: remove each spec from `config` — a whole owner, or one
/// `owner/repo` — returning one report line per spec and how many projects
/// were removed.
pub fn remove_specs(config: &mut Config, specs: &Vec<String>) -> (r: (Vec<String>, usize))
    ensures
        ({
            let (vs, lines, n) = removing(config_views(old(config).projects@), string_views(specs@));
            &&& config_views(final(config).projects@) == vs
            &&& string_views(r.0@) == lines
            &&& r.1 == n
        }),
        final(config).settings == old(config).settings,
{
    let ghost v0 = config_views(config.projects@);
    let ghost sv = string_views(specs@);
    let n0 = config.projects.len();
    let mut lines: Vec<String> = Vec::new();
    let mut removed: usize = 0;
    let mut i: usize = 0;
    while i < specs.len()
        invariant
            i <= specs@.len(),
            sv == string_views(specs@),
            v0.len() == n0,
            config.settings == old(config).settings,
            removed + config.projects@.len() <= v0.len(),
            ({
                let (vs, ls, n) = removing(v0, sv.take(i as int));
                &&& config_views(config.projects@) == vs
                &&& string_views(lines@) == ls
                &&& removed == n
            }),
        decreases specs@.len() - i,
    {
        let spec = &specs[i];
        assert(sv.take(i + 1).drop_last() =~= sv.take(i as int));
        assert(sv.take(i + 1).last() == spec@);
        let ghost before = string_views(lines@);
        let ghost v1 = config_views(config.projects@);
        assert(v1.len() == config.projects@.len());
        match owner_of_spec(spec.as_str()) {
            Some(owner) => {
                let k = config.remove_owner(owner.as_str());
                assert(config_views(config.projects@).len() == config.projects@.len());
                let mut line = String::new();
                if k > 0 {
                    push_str(&mut line, "✓ removed ");
                    push_decimal(&mut line, k as u64);
                    push_str(&mut line, " project(s) of ");
                    push_str(&mut line, owner.as_str());
                    assert(removed + k <= v0.len());
                    assert(v0.len() <= usize::MAX);
                    removed = removed + k;
                } else {
                    push_str(&mut line, "· no projects of ");
                    push_str(&mut line, owner.as_str());
                    push_str(&mut line, " were tracked");
                }
                lines.push(line);
            },
            None => {
                match Project::parse(spec.as_str()) {
                    Ok(project) => {
                        let slug = project.slug();
                        let mut line = String::new();
                        let hit = config.remove_project(project.owner.as_str(), project.repo.as_str());
                        proof {
                            v1.lemma_filter_len(entry_survives(project.owner@, project.repo@, false));
                        }
                        assert(config_views(config.projects@).len() == config.projects@.len());
                        if hit {
                            push_str(&mut line, "✓ removed ");
                            push_str(&mut line, slug.as_str());
                            assert(config.projects@.len() < v1.len());
                            assert(v0.len() <= usize::MAX);
                            removed = removed + 1;
                        } else {
                            push_str(&mut line, "· ");
                            push_str(&mut line, slug.as_str());
                            push_str(&mut line, " was not tracked");
                        }
                        lines.push(line);
                    },
                    Err(e) => {
                        lines.push(skipped(spec.as_str(), &e));
                    },
                }
            },
        }
        assert(string_views(lines@) =~= before.push(lines@.last()@));
        i = i + 1;
    }
    assert(sv.take(i as int) =~= sv);
    (lines, removed)
}

/// Closing line of `ghs remove`.
pub open spec fn remove_summary_text(path: Seq<char>, removed: nat) -> Seq<char> {
    if removed > 0 {
        "\nSaved "@ + path + " ("@ + decimal(removed) + " removed)."@
    } else {
        "\nNothing to remove."@
    }
}

/// Closing line of `ghs remove`.
pub fn remove_summary(path: &str, removed: usize) -> (r: String)
    ensures
        r@ == remove_summary_text(path@, removed as nat),
{
    let mut r = String::new();
    if removed > 0 {
        push_str(&mut r, "\nSaved ");
        push_str(&mut r, path);
        push_str(&mut r, " (");
        push_decimal(&mut r, removed as u64);
        push_str(&mut r, " removed).");
    } else {
        push_str(&mut r, "\nNothing to remove.");
    }
    r
}

/// The projects after importing each discovered one, and how many were new.
pub open spec fn importing(vs: Seq<ProjectView>, found: Seq<ProjectView>) -> (Seq<ProjectView>, nat)
    decreases found.len(),
{
    if found.len() == 0 {
        (vs, 0)
    } else {
        let (v1, n) = importing(vs, found.drop_last());
        let p = found.last();
        if tracks_slug(v1, p.owner, p.repo) {
            (v1, n)
        } else {
            (with_added(v1, p), n + 1)
        }
    }
}

/// `ghs import`: add every discovered project not yet tracked; returns how
/// many were new.
pub fn import_projects(config: &mut Config, discovered: Vec<Project>) -> (added: usize)
    ensures
        ({
            let (vs, n) = importing(
                config_views(old(config).projects@),
                discovered@.map_values(|p: Project| p@),
            );
            config_views(final(config).projects@) == vs && added == n
        }),
        final(config).settings == old(config).settings,
{
    let ghost v0 = config_views(config.projects@);
    let ghost fv = discovered@.map_values(|p: Project| p@);
    let mut rest = discovered;
    let n0 = rest.len();
    let mut added: usize = 0;
    let mut i: usize = 0;
    while rest.len() > 0
        invariant
            i + rest@.len() == n0,
            fv.len() == n0,
            rest@.map_values(|p: Project| p@) == fv.skip(i as int),
            config.settings == old(config).settings,
            added <= i,
            ({
                let (vs, n) = importing(v0, fv.take(i as int));
                config_views(config.projects@) == vs && added == n
            }),
        decreases rest@.len(),
    {
        let ghost r0 = rest@.map_values(|p: Project| p@);
        let p = rest.remove(0);
        assert(r0[0] == p@);
        assert(rest@.map_values(|p: Project| p@) =~= r0.drop_first());
        assert(fv.skip(i as int).drop_first() =~= fv.skip(i + 1));
        assert(fv.take(i + 1).drop_last() =~= fv.take(i as int));
        assert(fv.take(i + 1).last() == p@);
        if config.add_project(p) {
            added = added + 1;
        }
        i = i + 1;
    }
    assert(fv.take(i as int) =~= fv);
    added
}

/// The lines listing what an import found.
pub open spec fn found_lines(found: Seq<ProjectView>) -> Seq<Seq<char>> {
    seq![
        "Found "@ + decimal(found.len()) + " repositor"@ + plural_text(found.len()) + ":"@,
    ] + found.map_values(|p: ProjectView| "  • "@ + slug_of(p.owner, p.repo))
}

/// The lines listing what an import found.
pub fn found_report(found: &Vec<Project>) -> (r: Vec<String>)
    ensures
        string_views(r@) == found_lines(found@.map_values(|p: Project| p@)),
{
    let ghost fv = found@.map_values(|p: Project| p@);
    let mut r: Vec<String> = Vec::new();
    let mut head = String::new();
    push_str(&mut head, "Found ");
    push_decimal(&mut head, found.len() as u64);
    push_str(&mut head, " repositor");
    push_str(&mut head, plural(found.len()));
    push_str(&mut head, ":");
    r.push(head);
    assert(head@ == found_lines(fv)[0]);
    assert(string_views(r@) =~= seq![found_lines(fv)[0]] + fv.take(0).map_values(
        |p: ProjectView| "  • "@ + slug_of(p.owner, p.repo),
    ));
    let mut i: usize = 0;
    while i < found.len()
        invariant
            i <= found@.len(),
            fv == found@.map_values(|p: Project| p@),
            string_views(r@) =~= seq![found_lines(fv)[0]] + fv.take(i as int).map_values(
                |p: ProjectView| "  • "@ + slug_of(p.owner, p.repo),
            ),
        decreases found@.len() - i,
    {
        let ghost before = string_views(r@);
        let mut line = String::new();
        push_str(&mut line, "  • ");
        push_str(&mut line, found[i].slug().as_str());
        r.push(line);
        assert(string_views(r@) =~= before.push(line@));
        assert(fv.take(i + 1).map_values(|p: ProjectView| "  • "@ + slug_of(p.owner, p.repo))
            =~= fv.take(i as int).map_values(|p: ProjectView| "  • "@ + slug_of(p.owner, p.repo)).push(
            "  • "@ + slug_of(fv[i as int].owner, fv[i as int].repo),
        ));
        i = i + 1;
    }
    assert(fv.take(i as int) =~= fv);
    assert(string_views(r@) =~= found_lines(fv));
    r
}

/// Closing lines of `ghs import` after writing.
pub open spec fn import_summary_lines(path: Seq<char>, added: nat) -> Seq<Seq<char>> {
    if added > 0 {
        seq![
            "\n✓ Imported "@ + decimal(added) + " new repo(s) into "@ + path + "."@,
            "Run `ghs` to view them."@,
        ]
    } else {
        seq!["\nAll discovered repos were already tracked."@]
    }
}

/// Closing lines of `ghs import` after writing.
pub fn import_summary(path: &str, added: usize) -> (r: Vec<String>)
    ensures
        string_views(r@) == import_summary_lines(path@, added as nat),
{
    let mut r: Vec<String> = Vec::new();
    if added > 0 {
        let mut a = String::new();
        push_str(&mut a, "\n✓ Imported ");
        push_decimal(&mut a, added as u64);
        push_str(&mut a, " new repo(s) into ");
        push_str(&mut a, path);
        push_str(&mut a, ".");
        r.push(a);
        let mut b = String::new();
        push_str(&mut b, "Run `ghs` to view them.");
        r.push(b);
    } else {
        let mut a = String::new();
        push_str(&mut a, "\nAll discovered repos were already tracked.");
        r.push(a);
    }
    assert(string_views(r@) =~= import_summary_lines(path@, added as nat));
    r
}

// --- list / check ------------------------------------------------------------

/// What `list` and `check` know of one project: its newest run's state (or
/// none), or the fetch error's message.
pub open spec fn latest_outcome(r: Result<Seq<WorkflowRun>, ProviderError>) -> Result<
    Option<RunState>,
    Seq<char>,
> {
    match r {
        Ok(runs) => Ok(
            if runs.len() > 0 {
                Some(runs[0].state)
            } else {
                None
            },
        ),
        Err(e) => Err(e.spec_message()),
    }
}

/// Collapse a fetch result to the newest run's state, or the error message.
pub fn latest_state(result: Result<Vec<WorkflowRun>, ProviderError>) -> (r: Result<
    Option<RunState>,
    String,
>)
    ensures
        match r {
            Ok(s) => latest_outcome(
                match result {
                    Ok(v) => Ok(v@),
                    Err(e) => Err(e),
                },
            ) == Ok::<Option<RunState>, Seq<char>>(s),
            Err(m) => latest_outcome(
                match result {
                    Ok(v) => Ok(v@),
                    Err(e) => Err(e),
                },
            ) == Err::<Option<RunState>, Seq<char>>(m@),
        },
{
    match result {
        Ok(runs) => Ok(
            if runs.len() > 0 {
                Some(runs[0].state)
            } else {
                None
            },
        ),
        Err(e) => Err(e.message()),
    }
}

/// Width of the slug column in `ghs list`.
pub const SLUG_WIDTH: usize = 28;

/// One `ghs list` line.
pub open spec fn status_line_text(slug: Seq<char>, r: Result<Option<RunState>, Seq<char>>) -> Seq<
    char,
> {
    match r {
        Ok(Some(s)) => s.spec_glyph() + " "@ + pad_right(slug, SLUG_WIDTH as nat) + " "@
            + s.spec_label(),
        Ok(None) => "· "@ + pad_right(slug, SLUG_WIDTH as nat) + " no runs"@,
        Err(m) => "✗ "@ + pad_right(slug, SLUG_WIDTH as nat) + " error: "@ + m,
    }
}

/// One `ghs list` line.
pub fn status_line(slug: &str, result: &Result<Option<RunState>, String>) -> (r: String)
    ensures
        r@ == status_line_text(
            slug@,
            match result {
                Ok(s) => Ok(*s),
                Err(m) => Err(m@),
            },
        ),
{
    let mut r = String::new();
    match result {
        Ok(Some(s)) => {
            push_str(&mut r, s.glyph());
            push_str(&mut r, " ");
            push_padded(&mut r, slug, SLUG_WIDTH);
            push_str(&mut r, " ");
            push_str(&mut r, s.label());
        },
        Ok(None) => {
            push_str(&mut r, "· ");
            push_padded(&mut r, slug, SLUG_WIDTH);
            push_str(&mut r, " no runs");
        },
        Err(m) => {
            push_str(&mut r, "✗ ");
            push_padded(&mut r, slug, SLUG_WIDTH);
            push_str(&mut r, " error: ");
            push_str(&mut r, m.as_str());
        },
    }
    r
}

/// The failing projects among `states`, as `slug: label` report lines.
pub open spec fn failing_lines(states: Seq<(Seq<char>, Result<Option<RunState>, Seq<char>>)>) -> Seq<
    Seq<char>,
>
    decreases states.len(),
{
    if states.len() == 0 {
        seq![]
    } else {
        let r = failing_lines(states.drop_last());
        let (slug, res) = states.last();
        match res {
            Ok(Some(s)) => if s.spec_is_failure() {
                r.push("✗ "@ + slug + ": "@ + s.spec_label())
            } else {
                r
            },
            _ => r,
        }
    }
}

/// The outcome views of `(slug, outcome)` pairs.
pub open spec fn outcome_views(s: Seq<(String, Result<Option<RunState>, String>)>) -> Seq<
    (Seq<char>, Result<Option<RunState>, Seq<char>>),
> {
    s.map_values(
        |x: (String, Result<Option<RunState>, String>)|
            (
                x.0@,
                match x.1 {
                    Ok(s) => Ok(s),
                    Err(m) => Err(m@),
                },
            ),
    )
}

/// Whether a project's outcome is a newest run that failed, timed out or was
/// cancelled.
pub open spec fn failing_outcome(e: (Seq<char>, Result<Option<RunState>, Seq<char>>)) -> bool {
    e.1 matches Ok(Some(s)) && (s is Failed || s is TimedOut || s is Cancelled)
}

/// The report line of a failing outcome: `✗ slug: label`.
pub open spec fn failing_line(e: (Seq<char>, Result<Option<RunState>, Seq<char>>)) -> Seq<char> {
    match e.1 {
        Ok(Some(s)) => "✗ "@ + e.0 + ": "@ + s.spec_label(),
        _ => seq![],
    }
}

/// `ghs check` reports exactly the projects whose newest run failed, timed
/// out or was cancelled — one `✗ slug: label` line each, in input order —
/// so it fails exactly when there is at least one of them.
pub proof fn law_check_reports_failing_runs(st: Seq<(Seq<char>, Result<Option<RunState>, Seq<char>>)>)
    ensures
        failing_lines(st) == st.filter(|e: (Seq<char>, Result<Option<RunState>, Seq<char>>)| failing_outcome(e)).map_values(
            |e: (Seq<char>, Result<Option<RunState>, Seq<char>>)| failing_line(e),
        ),
        failing_lines(st).len() > 0 <==> exists|i: int| 0 <= i < st.len() && #[trigger] failing_outcome(st[i]),
    decreases st.len(),
{
    reveal(Seq::filter);
    let p = |e: (Seq<char>, Result<Option<RunState>, Seq<char>>)| failing_outcome(e);
    let f = |e: (Seq<char>, Result<Option<RunState>, Seq<char>>)| failing_line(e);
    if st.len() > 0 {
        let d = st.drop_last();
        law_check_reports_failing_runs(d);
        assert(d.filter(p) == st.drop_last().filter(p));
        if failing_outcome(st.last()) {
            assert(st.filter(p) == d.filter(p).push(st.last()));
            assert(st.filter(p).map_values(f) =~= d.filter(p).map_values(f).push(failing_line(st.last())));
            assert(failing_outcome(st[st.len() - 1]));
        } else {
            assert(st.filter(p) == d.filter(p));
            assert forall|i: int| 0 <= i < st.len() && #[trigger] failing_outcome(st[i]) implies 0 <= i < d.len()
                && failing_outcome(d[i]) by {
                if i == st.len() - 1 {
                    assert(st[i] == st.last());
                } else {
                    assert(d[i] == st[i]);
                }
            }
        }
        if failing_lines(d).len() > 0 {
            let i = choose|i: int| 0 <= i < d.len() && #[trigger] failing_outcome(d[i]);
            assert(st[i] == d[i]);
        }
    } else {
        assert(st.filter(p).map_values(f) =~= seq![]);
    }
}

/// `ghs check`: the report lines, and the error message when some project's
/// newest run is failing (`None` when all are green).
pub fn check_report(states: &Vec<(String, Result<Option<RunState>, String>)>) -> (r: (
    Vec<String>,
    Option<String>,
))
    ensures
        ({
            let fl = failing_lines(outcome_views(states@));
            if fl.len() == 0 {
                string_views(r.0@) == seq![
                    "✓ All "@ + decimal(states@.len()) + " project(s) green."@,
                ] && r.1 is None
            } else {
                string_views(r.0@) == fl && (r.1 matches Some(m) && m@ == decimal(fl.len())
                    + " project(s) failing"@)
            }
        }),
        r.1 is Some <==> exists|i: int|
            0 <= i < states@.len() && #[trigger] failing_outcome(outcome_views(states@)[i]),
{
    proof {
        law_check_reports_failing_runs(outcome_views(states@));
    }
    let ghost ov = outcome_views(states@);
    let mut lines: Vec<String> = Vec::new();
    let mut i: usize = 0;
    while i < states.len()
        invariant
            i <= states@.len(),
            ov == outcome_views(states@),
            string_views(lines@) == failing_lines(ov.take(i as int)),
            lines@.len() <= i,
        decreases states@.len() - i,
    {
        let ghost before = string_views(lines@);
        assert(ov.take(i + 1).drop_last() =~= ov.take(i as int));
        assert(ov.take(i + 1).last() == ov[i as int]);
        let (slug, res) = &states[i];
        match res {
            Ok(Some(s)) => {
                if s.is_failure() {
                    let mut l = String::new();
                    push_str(&mut l, "✗ ");
                    push_str(&mut l, slug.as_str());
                    push_str(&mut l, ": ");
                    push_str(&mut l, s.label());
                    lines.push(l);
                    assert(string_views(lines@) =~= before.push(l@));
                }
            },
            _ => {},
        }
        i = i + 1;
    }
    assert(ov.take(i as int) =~= ov);
    if lines.len() == 0 {
        let mut l = String::new();
        push_str(&mut l, "✓ All ");
        push_decimal(&mut l, states.len() as u64);
        push_str(&mut l, " project(s) green.");
        let mut out: Vec<String> = Vec::new();
        out.push(l);
        assert(string_views(out@) =~= seq![l@]);
        (out, None)
    } else {
        let mut m = String::new();
        push_decimal(&mut m, lines.len() as u64);
        push_str(&mut m, " project(s) failing");
        (lines, Some(m))
    }
}

// --- doctor ------------------------------------------------------------------

/// How a diagnosis line is marked.
#[derive(Debug, Clone, Copy, PartialEq, Eq, Structural)]
pub enum NoteKind {
    Good,
    Warn,
    Info,
    Hint,
}

/// One line of the `doctor` diagnosis.
#[derive(Debug)]
pub struct Note {
    pub kind: NoteKind,
    pub text: String,
}

/// Mathematical view of a [`Note`].
pub struct NoteView {
    pub kind: NoteKind,
    pub text: Seq<char>,
}

impl View for Note {
    type V = NoteView;

    open spec fn view(&self) -> NoteView {
        NoteView { kind: self.kind, text: self.text@ }
    }
}

/// Views of a list of notes.
pub open spec fn note_views(s: Seq<Note>) -> Seq<NoteView> {
    s.map_values(|n: Note| n@)
}

fn note(kind: NoteKind, text: &str) -> (n: Note)
    ensures
        n@ == (NoteView { kind, text: text@ }),
{
    let mut t = String::new();
    push_str(&mut t, text);
    Note { kind, text: t }
}

/// The terminal line for a note: a colored mark (green tick, yellow bang,
/// dim dot) or an indented dim arrow for hints.
pub open spec fn note_line_text(n: NoteView) -> Seq<char> {
    match n.kind {
        NoteKind::Good => "  \u{1b}[32m✓\u{1b}[0m "@ + n.text,
        NoteKind::Warn => "  \u{1b}[33m!\u{1b}[0m "@ + n.text,
        NoteKind::Info => "  \u{1b}[2m·\u{1b}[0m "@ + n.text,
        NoteKind::Hint => "      \u{1b}[2m↳ "@ + n.text + "\u{1b}[0m"@,
    }
}

/// The terminal line for a note.
pub fn note_line(n: &Note) -> (r: String)
    ensures
        r@ == note_line_text(n@),
{
    let mut r = String::new();
    match n.kind {
        NoteKind::Good => {
            push_str(&mut r, "  \u{1b}[32m✓\u{1b}[0m ");
            push_str(&mut r, n.text.as_str());
        },
        NoteKind::Warn => {
            push_str(&mut r, "  \u{1b}[33m!\u{1b}[0m ");
            push_str(&mut r, n.text.as_str());
        },
        NoteKind::Info => {
            push_str(&mut r, "  \u{1b}[2m·\u{1b}[0m ");
            push_str(&mut r, n.text.as_str());
        },
        NoteKind::Hint => {
            push_str(&mut r, "      \u{1b}[2m↳ ");
            push_str(&mut r, n.text.as_str());
            push_str(&mut r, "\u{1b}[0m");
        },
    }
    r
}

/// The config check: how many projects the file at `path` holds, or that
/// there is none.
pub open spec fn config_notes_text(loaded: Option<usize>, path: Seq<char>) -> Seq<NoteView> {
    match loaded {
        Some(n) => seq![
            NoteView {
                kind: NoteKind::Good,
                text: "config found at "@ + path + " ("@ + decimal(n as nat) + " project"@ + (if n
                    == 1 {
                    ""@
                } else {
                    "s"@
                }) + ")"@,
            },
        ],
        None => seq![
            NoteView { kind: NoteKind::Warn, text: "no config at "@ + path },
            NoteView {
                kind: NoteKind::Hint,
                text: "create one with `ghs init`, or just `ghs add owner/repo`"@,
            },
        ],
    }
}

/// The config check's notes.
pub fn config_notes(loaded: Option<usize>, path: &str) -> (r: Vec<Note>)
    ensures
        note_views(r@) == config_notes_text(loaded, path@),
{
    let mut r: Vec<Note> = Vec::new();
    match loaded {
        Some(n) => {
            let mut t = String::new();
            push_str(&mut t, "config found at ");
            push_str(&mut t, path);
            push_str(&mut t, " (");
            push_decimal(&mut t, n as u64);
            push_str(&mut t, " project");
            if n != 1 {
                push_str(&mut t, "s");
            } else {
                assert(t@ =~= t@ + ""@) by {
                    reveal_strlit("");
                }
            }
            push_str(&mut t, ")");
            r.push(Note { kind: NoteKind::Good, text: t });
        },
        None => {
            let mut t = String::new();
            push_str(&mut t, "no config at ");
            push_str(&mut t, path);
            r.push(Note { kind: NoteKind::Warn, text: t });
            r.push(note(NoteKind::Hint, "create one with `ghs init`, or just `ghs add owner/repo`"));
        },
    }
    assert(note_views(r@) =~= config_notes_text(loaded, path@));
    r
}

/// The GitHub CLI check.
pub open spec fn gh_notes_text(installed: bool) -> Seq<NoteView> {
    if installed {
        seq![NoteView { kind: NoteKind::Good, text: "GitHub CLI (`gh`) is installed"@ }]
    } else {
        seq![
            NoteView {
                kind: NoteKind::Info,
                text: "GitHub CLI (`gh`) not found (optional — only used for auto-auth)"@,
            },
        ]
    }
}

/// The GitHub CLI check's notes.
pub fn gh_notes(installed: bool) -> (r: Vec<Note>)
    ensures
        note_views(r@) == gh_notes_text(installed),
{
    let mut r: Vec<Note> = Vec::new();
    if installed {
        r.push(note(NoteKind::Good, "GitHub CLI (`gh`) is installed"));
    } else {
        r.push(note(NoteKind::Info, "GitHub CLI (`gh`) not found (optional — only used for auto-auth)"));
    }
    assert(note_views(r@) =~= gh_notes_text(installed));
    r
}

/// The token check.
pub open spec fn token_notes_text(source: Option<TokenSource>) -> Seq<NoteView> {
    match source {
        Some(s) => seq![NoteView { kind: NoteKind::Good, text: "token detected via "@ + s.spec_describe() }],
        None => seq![
            NoteView { kind: NoteKind::Warn, text: "no GitHub token found"@ },
            NoteView { kind: NoteKind::Hint, text: "public repos still work but with low rate limits"@ },
            NoteView { kind: NoteKind::Hint, text: "set GITHUB_TOKEN, or run `gh auth login`"@ },
        ],
    }
}

/// The token check's notes.
pub fn token_notes(source: Option<TokenSource>) -> (r: Vec<Note>)
    ensures
        note_views(r@) == token_notes_text(source),
{
    let mut r: Vec<Note> = Vec::new();
    match source {
        Some(s) => {
            let mut t = String::new();
            push_str(&mut t, "token detected via ");
            push_str(&mut t, s.describe());
            r.push(Note { kind: NoteKind::Good, text: t });
        },
        None => {
            r.push(note(NoteKind::Warn, "no GitHub token found"));
            r.push(note(NoteKind::Hint, "public repos still work but with low rate limits"));
            r.push(note(NoteKind::Hint, "set GITHUB_TOKEN, or run `gh auth login`"));
        },
    }
    assert(note_views(r@) =~= token_notes_text(source));
    r
}

/// How the connectivity probe went.
#[derive(Debug)]
pub enum ProbeOutcome {
    /// No project is configured, so nothing was probed.
    NoProjects,
    /// The GitHub client could not be built.
    ClientFailed(String),
    /// Fetching the project with this slug succeeded.
    Reached(String),
    /// Fetching the project with this slug failed with this message.
    Failed { slug: String, message: String },
}

/// The connectivity check.
pub open spec fn probe_notes_text(p: ProbeOutcome) -> Seq<NoteView> {
    match p {
        ProbeOutcome::NoProjects => seq![
            NoteView { kind: NoteKind::Info, text: "no projects configured yet — skipping API probe"@ },
            NoteView { kind: NoteKind::Hint, text: "add one with `ghs add owner/repo` or `ghs import`"@ },
        ],
        ProbeOutcome::ClientFailed(m) => seq![
            NoteView { kind: NoteKind::Warn, text: "could not build GitHub client: "@ + m@ },
        ],
        ProbeOutcome::Reached(slug) => seq![
            NoteView { kind: NoteKind::Good, text: "GitHub API reachable (probed "@ + slug@ + ")"@ },
        ],
        ProbeOutcome::Failed { slug, message } => seq![
            NoteView {
                kind: NoteKind::Warn,
                text: "API probe failed for "@ + slug@ + ": "@ + message@,
            },
            NoteView { kind: NoteKind::Hint, text: "check your token scopes and network connection"@ },
        ],
    }
}

/// The connectivity check's notes.
pub fn probe_notes(p: &ProbeOutcome) -> (r: Vec<Note>)
    ensures
        note_views(r@) == probe_notes_text(*p),
{
    let mut r: Vec<Note> = Vec::new();
    match p {
        ProbeOutcome::NoProjects => {
            r.push(note(NoteKind::Info, "no projects configured yet — skipping API probe"));
            r.push(note(NoteKind::Hint, "add one with `ghs add owner/repo` or `ghs import`"));
        },
        ProbeOutcome::ClientFailed(m) => {
            let mut t = String::new();
            push_str(&mut t, "could not build GitHub client: ");
            push_str(&mut t, m.as_str());
            r.push(Note { kind: NoteKind::Warn, text: t });
        },
        ProbeOutcome::Reached(slug) => {
            let mut t = String::new();
            push_str(&mut t, "GitHub API reachable (probed ");
            push_str(&mut t, slug.as_str());
            push_str(&mut t, ")");
            r.push(Note { kind: NoteKind::Good, text: t });
        },
        ProbeOutcome::Failed { slug, message } => {
            let mut t = String::new();
            push_str(&mut t, "API probe failed for ");
            push_str(&mut t, slug.as_str());
            push_str(&mut t, ": ");
            push_str(&mut t, message.as_str());
            r.push(Note { kind: NoteKind::Warn, text: t });
            r.push(note(NoteKind::Hint, "check your token scopes and network connection"));
        },
    }
    assert(note_views(r@) =~= probe_notes_text(*p));
    r
}

} // verus!
