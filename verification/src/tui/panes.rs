//! The two panes: the project list (one row per *visible* project with its
//! headline badge, branch and last CI activity) and the detail pane (the
//! selected project's recent runs).

use vstd::prelude::*;
use super::format::{ago_text, duration_text, humanize_duration, relative_time_at};
use super::spans::{
    fitted, line_view, lines_view, pad_name, push_line, push_span, span, span_of, sv, truncate,
    truncated, Span, SpanView,
};
use super::theme::{spinner_glyph, StyleSpec, Theme, SPINNER_FRAMES};
use crate::domain::poll::PollTier;
use crate::domain::project_status::{LoadState, LoadView, ProjectStatus, ProjectStatusView};
use crate::domain::run::{clamp_i64, WorkflowRun};
use crate::domain::status::RunState;
use crate::text::{decimal, push_decimal, push_signed, push_str, signed_decimal};

verus! {

/// Width of the name column in a list row.
pub const NAME_WIDTH: usize = 26;

/// Longest failure message shown in a list row.
pub const MESSAGE_WIDTH: usize = 40;

/// The list pane's title: the visible and total counts while a filter is
/// active.
pub open spec fn list_title_text(visible: nat, total: nat, filtering: bool) -> Seq<char> {
    if filtering {
        " Projects ("@ + decimal(visible) + "/"@ + decimal(total) + ") "@
    } else {
        " Projects "@
    }
}

/// The list pane's title.
pub fn list_title(visible: usize, total: usize, filtering: bool) -> (r: String)
    ensures
        r@ == list_title_text(visible as nat, total as nat, filtering),
{
    let mut r = String::new();
    if filtering {
        push_str(&mut r, " Projects (");
        push_decimal(&mut r, visible as u64);
        push_str(&mut r, "/");
        push_decimal(&mut r, total as u64);
        push_str(&mut r, ") ");
    } else {
        push_str(&mut r, " Projects ");
    }
    r
}

/// The empty state when no project is tracked at all.
pub open spec fn no_projects_lines(th: Theme) -> Seq<Seq<SpanView>> {
    seq![
        seq![],
        seq![sv("  No projects yet."@, th.spec_dim())],
        seq![],
        seq![sv("  Add repositories from your shell:"@, th.spec_muted())],
        seq![],
        seq![sv("    ghs add "@, th.spec_key_hint()), sv("owner/repo"@, th.spec_dim())],
        seq![sv("    ghs import --local"@, th.spec_key_hint()), sv("   scan git clones"@, th.spec_muted())],
        seq![sv("    ghs import --me"@, th.spec_key_hint()), sv("      your GitHub repos"@, th.spec_muted())],
    ]
}

/// The empty state when no project is tracked at all.
pub fn empty_no_projects(theme: &Theme) -> (r: Vec<Vec<Span>>)
    ensures
        lines_view(r@) == no_projects_lines(*theme),
{
    let mut r: Vec<Vec<Span>> = Vec::new();
    push_line(&mut r, Vec::new());
    let mut l = Vec::new();
    push_span(&mut l, span("  No projects yet.", theme.dim()));
    push_line(&mut r, l);
    push_line(&mut r, Vec::new());
    let mut l = Vec::new();
    push_span(&mut l, span("  Add repositories from your shell:", theme.muted()));
    push_line(&mut r, l);
    push_line(&mut r, Vec::new());
    let mut l = Vec::new();
    push_span(&mut l, span("    ghs add ", theme.key_hint()));
    push_span(&mut l, span("owner/repo", theme.dim()));
    push_line(&mut r, l);
    let mut l = Vec::new();
    push_span(&mut l, span("    ghs import --local", theme.key_hint()));
    push_span(&mut l, span("   scan git clones", theme.muted()));
    push_line(&mut r, l);
    let mut l = Vec::new();
    push_span(&mut l, span("    ghs import --me", theme.key_hint()));
    push_span(&mut l, span("      your GitHub repos", theme.muted()));
    push_line(&mut r, l);
    assert(lines_view(r@) =~~= no_projects_lines(*theme));
    r
}

/// The empty state when the filters hide every project.
pub open spec fn no_matches_lines(th: Theme) -> Seq<Seq<SpanView>> {
    seq![
        seq![],
        seq![sv("  No projects match the filter."@, th.spec_dim())],
        seq![],
        seq![
            sv("  Press "@, th.spec_muted()),
            sv("c"@, th.spec_key_hint()),
            sv(" to clear filters."@, th.spec_muted()),
        ],
    ]
}

/// The empty state when the filters hide every project.
pub fn empty_no_matches(theme: &Theme) -> (r: Vec<Vec<Span>>)
    ensures
        lines_view(r@) == no_matches_lines(*theme),
{
    let mut r: Vec<Vec<Span>> = Vec::new();
    push_line(&mut r, Vec::new());
    let mut l = Vec::new();
    push_span(&mut l, span("  No projects match the filter.", theme.dim()));
    push_line(&mut r, l);
    push_line(&mut r, Vec::new());
    let mut l = Vec::new();
    push_span(&mut l, span("  Press ", theme.muted()));
    push_span(&mut l, span("c", theme.key_hint()));
    push_span(&mut l, span(" to clear filters.", theme.muted()));
    push_line(&mut r, l);
    assert(lines_view(r@) =~~= no_matches_lines(*theme));
    r
}

/// The badge and trailing spans of a list row.
pub open spec fn row_parts(p: ProjectStatusView, th: Theme, spinner: usize, now: i64) -> (
    SpanView,
    Seq<SpanView>,
) {
    match p.load {
        LoadView::Idle => (sv("  · "@, th.spec_muted()), seq![sv("idle"@, th.spec_muted())]),
        LoadView::Loading => (
            sv(
                " "@ + spinner_glyph((spinner % SPINNER_FRAMES) as nat) + " "@,
                th.spec_state_style(RunState::InProgress),
            ),
            seq![sv("loading…"@, th.spec_dim())],
        ),
        LoadView::Failed { message } => (
            sv(" ✗ "@, th.spec_state_style(RunState::Failed)),
            seq![sv(truncated(message, MESSAGE_WIDTH as nat), th.spec_state_style(RunState::Failed))],
        ),
        LoadView::Loaded { runs, .. } => if runs.len() > 0 {
            let run = runs[0];
            let style = th.spec_state_style(run.state);
            (
                sv(" "@ + run.state.spec_glyph() + " "@, style),
                seq![
                    sv(run.state.spec_label(), style),
                    sv("  ⎇ "@ + run.branch@, th.spec_dim()),
                    sv("  · "@ + ago_text(clamp_i64(now - run.updated_at), "ago"@), th.spec_muted()),
                ],
            )
        } else {
            (sv("  – "@, th.spec_muted()), seq![sv("no runs"@, th.spec_muted())])
        },
    }
}

/// A list row: badge, fixed-width name, then the state-specific details.
pub open spec fn row_spans(p: ProjectStatusView, th: Theme, spinner: usize, now: i64) -> Seq<
    SpanView,
> {
    let (badge, trailing) = row_parts(p, th, spinner, now);
    seq![
        badge,
        sv(
            fitted(p.project.spec_display_name(), NAME_WIDTH as nat),
            StyleSpec { fg: Some(th.text), ..th.spec_base() },
        ),
    ] + trailing
}

/// Render a single project row as styled spans, with "time ago" measured
/// at `now`.
pub fn row(p: &ProjectStatus, theme: &Theme, spinner: usize, now: i64) -> (r: Vec<Span>)
    ensures
        line_view(r@) == row_spans(p@, *theme, spinner, now),
{
    let name = p.project.display_name();
    let mut r: Vec<Span> = Vec::new();
    let mut trailing: Vec<Span> = Vec::new();
    let badge = match &p.load {
        LoadState::Idle => {
            push_span(&mut trailing, span("idle", theme.muted()));
            span("  · ", theme.muted())
        },
        LoadState::Loading => {
            push_span(&mut trailing, span("loading…", theme.dim()));
            let mut t = String::new();
            push_str(&mut t, " ");
            push_str(&mut t, theme.spinner_frame(spinner));
            push_str(&mut t, " ");
            span_of(t, theme.state_style(RunState::InProgress))
        },
        LoadState::Failed { message } => {
            push_span(
                &mut trailing,
                span_of(truncate(message.as_str(), MESSAGE_WIDTH), theme.state_style(RunState::Failed)),
            );
            span(" ✗ ", theme.state_style(RunState::Failed))
        },
        LoadState::Loaded { runs, .. } => {
            if runs.len() > 0 {
                let run = &runs[0];
                let style = theme.state_style(run.state);
                push_span(&mut trailing, span(run.state.label(), style));
                let mut b = String::new();
                push_str(&mut b, "  ⎇ ");
                push_str(&mut b, run.branch.as_str());
                push_span(&mut trailing, span_of(b, theme.dim()));
                let mut a = String::new();
                push_str(&mut a, "  · ");
                push_str(&mut a, relative_time_at(run.updated_at, now).as_str());
                push_span(&mut trailing, span_of(a, theme.muted()));
                let mut g = String::new();
                push_str(&mut g, " ");
                push_str(&mut g, run.state.glyph());
                push_str(&mut g, " ");
                span_of(g, style)
            } else {
                push_span(&mut trailing, span("no runs", theme.muted()));
                span("  – ", theme.muted())
            }
        },
    };
    let ghost bv = badge@;
    push_span(&mut r, badge);
    push_span(&mut r, span_of(pad_name(name.as_str(), NAME_WIDTH), theme.base().with_fg(theme.text)));
    let ghost head = line_view(r@);
    let ghost tail = line_view(trailing@);
    r.append(&mut trailing);
    assert(line_view(r@) =~= head + tail);
    proof {
        let (b0, t0) = row_parts(p@, *theme, spinner, now);
        assert(bv == b0);
        assert(tail =~= t0);
    }
    assert(line_view(r@) =~= row_spans(p@, *theme, spinner, now));
    r
}

/// The detail pane's title: the selected project's slug.
pub open spec fn detail_title_text(selected: Option<ProjectStatusView>) -> Seq<char> {
    match selected {
        Some(s) => " "@ + s.project.spec_slug() + " "@,
        None => " Details "@,
    }
}

/// The detail pane's title.
pub fn detail_title(selected: Option<&ProjectStatus>) -> (r: String)
    ensures
        r@ == detail_title_text(
            match selected {
                Some(s) => Some(s@),
                None => None,
            },
        ),
{
    let mut r = String::new();
    match selected {
        Some(s) => {
            push_str(&mut r, " ");
            push_str(&mut r, s.project.slug().as_str());
            push_str(&mut r, " ");
        },
        None => push_str(&mut r, " Details "),
    }
    r
}

/// The three lines describing one run, with ages measured at `now`.
pub open spec fn run_block_lines(run: WorkflowRun, th: Theme, now: i64) -> Seq<Seq<SpanView>> {
    let style = th.spec_state_style(run.state);
    seq![
        seq![
            sv(run.state.spec_glyph() + " "@, style),
            sv(run.state.spec_label(), style),
            sv("  "@ + run.name@, StyleSpec { fg: Some(th.text), ..th.spec_base() }),
            sv("  #"@ + signed_decimal(run.run_number as int), th.spec_muted()),
        ],
        seq![
            sv("    ⎇ "@, th.spec_muted()),
            sv(run.branch@, th.spec_dim()),
            sv("  ◦ "@ + run.short_sha@, th.spec_muted()),
            sv("  ⚡ "@ + run.event@, th.spec_muted()),
        ],
        seq![
            sv("    "@, th.spec_muted()),
            sv(duration_text(clamp_i64(now - run.created_at)) + " ago"@, th.spec_muted()),
            sv(
                "  ⏱ "@ + duration_text(clamp_i64(run.updated_at - run.created_at)),
                th.spec_muted(),
            ),
        ],
    ]
}

/// The lines describing one run.
pub fn run_block(run: &WorkflowRun, theme: &Theme, now: i64) -> (r: Vec<Vec<Span>>)
    ensures
        lines_view(r@) == run_block_lines(*run, *theme, now),
{
    let style = theme.state_style(run.state);
    let mut r: Vec<Vec<Span>> = Vec::new();

    let mut l = Vec::new();
    let mut g = String::new();
    push_str(&mut g, run.state.glyph());
    push_str(&mut g, " ");
    push_span(&mut l, span_of(g, style));
    push_span(&mut l, span(run.state.label(), style));
    let mut n = String::new();
    push_str(&mut n, "  ");
    push_str(&mut n, run.name.as_str());
    push_span(&mut l, span_of(n, theme.base().with_fg(theme.text)));
    let mut num = String::new();
    push_str(&mut num, "  #");
    push_signed(&mut num, run.run_number);
    push_span(&mut l, span_of(num, theme.muted()));
    push_line(&mut r, l);

    let mut l = Vec::new();
    push_span(&mut l, span("    ⎇ ", theme.muted()));
    push_span(&mut l, span(run.branch.as_str(), theme.dim()));
    let mut sha = String::new();
    push_str(&mut sha, "  ◦ ");
    push_str(&mut sha, run.short_sha.as_str());
    push_span(&mut l, span_of(sha, theme.muted()));
    let mut ev = String::new();
    push_str(&mut ev, "  ⚡ ");
    push_str(&mut ev, run.event.as_str());
    push_span(&mut l, span_of(ev, theme.muted()));
    push_line(&mut r, l);

    let age: i64 = match now.checked_sub(run.created_at) {
        Some(d) => d,
        None => if now > run.created_at {
            i64::MAX
        } else {
            i64::MIN
        },
    };
    let mut l = Vec::new();
    push_span(&mut l, span("    ", theme.muted()));
    let mut a = humanize_duration(age);
    push_str(&mut a, " ago");
    push_span(&mut l, span_of(a, theme.muted()));
    let mut d = String::new();
    push_str(&mut d, "  ⏱ ");
    push_str(&mut d, humanize_duration(run.duration()).as_str());
    push_span(&mut l, span_of(d, theme.muted()));
    push_line(&mut r, l);

    assert(lines_view(r@) =~~= run_block_lines(*run, *theme, now));
    r
}

/// A dimmed one-line hint.
pub open spec fn hint_line(th: Theme, text: Seq<char>) -> Seq<SpanView> {
    seq![sv(text, th.spec_dim())]
}

fn hint(theme: &Theme, text: &str) -> (r: Vec<Span>)
    ensures
        line_view(r@) == hint_line(*theme, text@),
{
    let mut l = Vec::new();
    push_span(&mut l, span(text, theme.dim()));
    assert(line_view(l@) =~= hint_line(*theme, text@));
    l
}

/// The run blocks of `runs`, each followed by a blank line.
pub open spec fn run_blocks(runs: Seq<WorkflowRun>, th: Theme, now: i64) -> Seq<Seq<SpanView>>
    decreases runs.len(),
{
    if runs.len() == 0 {
        seq![]
    } else {
        run_blocks(runs.drop_last(), th, now) + run_block_lines(runs.last(), th, now) + seq![
            seq![],
        ]
    }
}

/// What the detail pane shows for a project, at `now`.
pub open spec fn detail_text(p: ProjectStatusView, th: Theme, now: i64) -> Seq<Seq<SpanView>> {
    match p.load {
        LoadView::Idle => seq![hint_line(th, "Press 'r' to load this project."@)],
        LoadView::Loading => seq![hint_line(th, "Loading…"@)],
        LoadView::Failed { message } => seq![
            seq![sv("Failed to fetch:"@, th.spec_state_style(RunState::Failed))],
            seq![],
            seq![sv(message, th.spec_dim())],
        ],
        LoadView::Loaded { runs, fetched_at } => if runs.len() == 0 {
            seq![hint_line(th, "No workflow runs found for this project."@)]
        } else {
            seq![
                seq![
                    sv("Recent runs"@, th.spec_title()),
                    sv(
                        "   fetched "@ + ago_text(clamp_i64(now - fetched_at), "ago"@),
                        th.spec_muted(),
                    ),
                ],
                seq![
                    sv("polling: "@, th.spec_muted()),
                    sv(p.spec_poll_tier(now).spec_label(), th.spec_dim()),
                ],
                seq![],
            ] + run_blocks(runs, th, now)
        },
    }
}

/// The detail pane's lines for the selected project, at `now`.
pub fn detail_lines(status: &ProjectStatus, theme: &Theme, now: i64) -> (r: Vec<Vec<Span>>)
    ensures
        lines_view(r@) == detail_text(status@, *theme, now),
{
    let mut r: Vec<Vec<Span>> = Vec::new();
    match &status.load {
        LoadState::Idle => {
            push_line(&mut r, hint(theme, "Press 'r' to load this project."));
        },
        LoadState::Loading => {
            push_line(&mut r, hint(theme, "Loading…"));
        },
        LoadState::Failed { message } => {
            let mut l = Vec::new();
            push_span(&mut l, span("Failed to fetch:", theme.state_style(RunState::Failed)));
            push_line(&mut r, l);
            push_line(&mut r, Vec::new());
            let mut l = Vec::new();
            push_span(&mut l, span(message.as_str(), theme.dim()));
            push_line(&mut r, l);
        },
        LoadState::Loaded { runs, fetched_at } => {
            if runs.len() == 0 {
                push_line(&mut r, hint(theme, "No workflow runs found for this project."));
            } else {
                let tier = status.poll_tier(now);
                let mut l = Vec::new();
                push_span(&mut l, span("Recent runs", theme.title()));
                let mut f = String::new();
                push_str(&mut f, "   fetched ");
                push_str(&mut f, relative_time_at(*fetched_at, now).as_str());
                push_span(&mut l, span_of(f, theme.muted()));
                push_line(&mut r, l);
                let mut l = Vec::new();
                push_span(&mut l, span("polling: ", theme.muted()));
                push_span(&mut l, span(tier.label(), theme.dim()));
                push_line(&mut r, l);
                push_line(&mut r, Vec::new());
                let ghost head = lines_view(r@);
                let mut i: usize = 0;
                while i < runs.len()
                    invariant
                        i <= runs@.len(),
                        lines_view(r@) == head + run_blocks(runs@.take(i as int), *theme, now),
                    decreases runs@.len() - i,
                {
                    let ghost before = lines_view(r@);
                    let block = run_block(&runs[i], theme, now);
                    let ghost bv = lines_view(block@);
                    let mut block = block;
                    r.append(&mut block);
                    assert(lines_view(r@) =~= before + bv);
                    push_line(&mut r, Vec::new());
                    assert(runs@.take(i + 1).drop_last() =~= runs@.take(i as int));
                    assert(lines_view(r@) =~~= head + run_blocks(runs@.take(i + 1), *theme, now));
                    i = i + 1;
                }
                assert(runs@.take(i as int) =~= runs@);
            }
        },
    }
    assert(lines_view(r@) =~~= detail_text(status@, *theme, now));
    r
}

} // verus!
