//! The header and footer bars and the overlays (help, delete confirmation,
//! toast): what each shows, as styled spans.

use vstd::prelude::*;
use super::keymap::{help_bindings, help_rows};
use super::spans::{line_view, lines_view, push_line, push_span, span, span_of, sv, Rect, Span, SpanView};
use super::theme::{spinner_glyph, StyleSpec, Theme, SPINNER_FRAMES};
use crate::app::state::{AppState, AppView, PendingDelete};
use crate::app::toast::{Toast, ToastView};
use crate::domain::status::RunState;
use crate::ports::Clock;
use crate::text::{decimal, pad_right, push_decimal, push_padded, push_str, trim_ws};

verus! {

/// A `key:value` filter chip.
pub open spec fn chip_span(th: Theme, key: Seq<char>, value: Seq<char>) -> SpanView {
    sv(" "@ + key + ":"@ + value + " "@, th.spec_chip())
}

fn chip(theme: &Theme, key: &str, value: &str) -> (s: Span)
    ensures
        s@ == chip_span(*theme, key@, value@),
{
    let mut t = String::new();
    push_str(&mut t, " ");
    push_str(&mut t, key);
    push_str(&mut t, ":");
    push_str(&mut t, value);
    push_str(&mut t, " ");
    span_of(t, theme.chip())
}

/// The unstyled default.
pub open spec fn plain() -> StyleSpec {
    StyleSpec { fg: None, bg: None, bold: false }
}

/// The header bar: title, counts, active-filter chips and the activity
/// spinner.
pub open spec fn header_text(s: AppView, th: Theme) -> Seq<SpanView> {
    let total = s.projects.len();
    let count = if s.has_active_filter() {
        sv("  ·  "@ + decimal(s.visible_count()) + " / "@ + decimal(total) + " shown"@, th.spec_dim())
    } else {
        sv(
            "  ·  "@ + decimal(total) + " project"@ + (if total == 1 {
                ""@
            } else {
                "s"@
            }),
            th.spec_dim(),
        )
    };
    let owner = match s.owner_filter {
        Some(o) => seq![sv("  "@, plain()), chip_span(th, "owner"@, o)],
        None => seq![],
    };
    let q = trim_ws(s.query);
    let search = if q.len() > 0 {
        seq![sv("  "@, plain()), chip_span(th, "search"@, q)]
    } else {
        seq![]
    };
    let spin = if s.inflight > 0 {
        seq![
            sv("  "@, plain()),
            sv(
                spinner_glyph((s.spinner_frame % SPINNER_FRAMES) as nat),
                th.spec_state_style(RunState::InProgress),
            ),
            sv(" refreshing "@ + decimal(s.inflight as nat) + " …"@, th.spec_dim()),
        ]
    } else {
        seq![]
    };
    seq![sv(" ⬡ "@, th.spec_title()), sv("GitHub Actions Status"@, th.spec_title()), count] + owner
        + search + spin
}

/// The header bar's spans.
pub fn header_spans<C: Clock>(state: &AppState<C>, theme: &Theme) -> (r: Vec<Span>)
    ensures
        line_view(r@) == header_text(state@, *theme),
{
    let total = state.projects.len();
    let visible = state.visible_count();
    let mut r: Vec<Span> = Vec::new();
    push_span(&mut r, span(" ⬡ ", theme.title()));
    push_span(&mut r, span("GitHub Actions Status", theme.title()));
    let mut c = String::new();
    push_str(&mut c, "  ·  ");
    let filtering = state.has_active_filter();
    if filtering {
        push_decimal(&mut c, visible as u64);
        push_str(&mut c, " / ");
        push_decimal(&mut c, total as u64);
        push_str(&mut c, " shown");
    } else {
        push_decimal(&mut c, total as u64);
        push_str(&mut c, " project");
        if total != 1 {
            push_str(&mut c, "s");
        } else {
            assert(c@ =~= c@ + ""@) by {
                reveal_strlit("");
            }
        }
    }
    let ghost cv = c@;
    push_span(&mut r, span_of(c, theme.dim()));
    let ghost after_count = line_view(r@);
    let ghost th = *theme;
    let ghost sv0 = state@;
    assert(sv0.projects.len() == total);
    assert(sv0.visible_count() == visible);
    assert(cv =~= if sv0.has_active_filter() {
        "  ·  "@ + decimal(sv0.visible_count()) + " / "@ + decimal(total as nat) + " shown"@
    } else {
        "  ·  "@ + decimal(total as nat) + " project"@ + (if total == 1 {
            ""@
        } else {
            "s"@
        })
    });
    assert(after_count =~= seq![sv(" ⬡ "@, th.spec_title()), sv("GitHub Actions Status"@, th.spec_title()), sv(cv, th.spec_dim())]);
    if let Some(owner) = &state.filter.owner {
        push_span(&mut r, span("  ", StyleSpec::plain()));
        push_span(&mut r, chip(theme, "owner", owner.as_str()));
    }
    let ghost after_owner = line_view(r@);
    assert(after_owner =~= after_count + match sv0.owner_filter {
        Some(o) => seq![sv("  "@, plain()), chip_span(th, "owner"@, o)],
        None => Seq::<SpanView>::empty(),
    });
    if let Some(q) = state.filter.query_text() {
        push_span(&mut r, span("  ", StyleSpec::plain()));
        push_span(&mut r, chip(theme, "search", q));
    }
    let ghost after_search = line_view(r@);
    assert(after_search =~= after_owner + if trim_ws(sv0.query).len() > 0 {
        seq![sv("  "@, plain()), chip_span(th, "search"@, trim_ws(sv0.query))]
    } else {
        Seq::<SpanView>::empty()
    });
    if state.is_loading() {
        push_span(&mut r, span("  ", StyleSpec::plain()));
        push_span(&mut r, span(theme.spinner_frame(state.spinner_frame), theme.state_style(RunState::InProgress)));
        let mut t = String::new();
        push_str(&mut t, " refreshing ");
        push_decimal(&mut t, state.inflight as u64);
        push_str(&mut t, " …");
        push_span(&mut r, span_of(t, theme.dim()));
    }
    assert(line_view(r@) =~= after_search + if sv0.inflight > 0 {
        seq![
            sv("  "@, plain()),
            sv(
                spinner_glyph((sv0.spinner_frame % SPINNER_FRAMES) as nat),
                th.spec_state_style(RunState::InProgress),
            ),
            sv(" refreshing "@ + decimal(sv0.inflight as nat) + " …"@, th.spec_dim()),
        ]
    } else {
        Seq::<SpanView>::empty()
    });
    assert(line_view(r@) =~= header_text(state@, *theme));
    r
}

/// The search prompt shown in the footer while typing a query.
pub open spec fn search_prompt_text(s: AppView, th: Theme) -> Seq<SpanView> {
    seq![
        sv(" / "@, th.spec_key_hint()),
        sv(s.query, th.spec_search_text()),
        sv("▏"@, th.spec_title()),
        sv("    "@ + decimal(s.visible_count()) + " match(es)"@, th.spec_muted()),
        sv("    Enter "@, th.spec_key_hint()),
        sv("apply"@, th.spec_dim()),
        sv("  Esc "@, th.spec_key_hint()),
        sv("cancel"@, th.spec_dim()),
    ]
}

/// The footer's search prompt.
pub fn search_prompt<C: Clock>(state: &AppState<C>, theme: &Theme) -> (r: Vec<Span>)
    ensures
        line_view(r@) == search_prompt_text(state@, *theme),
{
    let mut r: Vec<Span> = Vec::new();
    push_span(&mut r, span(" / ", theme.key_hint()));
    push_span(&mut r, span(state.filter.query.as_str(), theme.search_text()));
    push_span(&mut r, span("▏", theme.title()));
    let mut m = String::new();
    push_str(&mut m, "    ");
    push_decimal(&mut m, state.visible_count() as u64);
    push_str(&mut m, " match(es)");
    push_span(&mut r, span_of(m, theme.muted()));
    push_span(&mut r, span("    Enter ", theme.key_hint()));
    push_span(&mut r, span("apply", theme.dim()));
    push_span(&mut r, span("  Esc ", theme.key_hint()));
    push_span(&mut r, span("cancel", theme.dim()));
    assert(line_view(r@) =~= search_prompt_text(state@, *theme));
    r
}

/// The footer's key hints in normal mode; "clear" only while a filter is
/// active.
pub open spec fn footer_hints(filtering: bool) -> Seq<(Seq<char>, Seq<char>)> {
    seq![
        ("↑↓"@, "navigate"@),
        ("/"@, "search"@),
        ("f"@, "owner"@),
        ("r"@, "refresh"@),
        ("o"@, "open"@),
    ] + (if filtering {
        seq![("c"@, "clear"@)]
    } else {
        seq![]
    }) + seq![("?"@, "help"@), ("q"@, "quit"@)]
}

/// Hint spans: each key then its description, separated by dots.
pub open spec fn hint_spans(h: Seq<(Seq<char>, Seq<char>)>, th: Theme) -> Seq<SpanView>
    decreases h.len(),
{
    if h.len() == 0 {
        seq![]
    } else {
        hint_spans(h.drop_last(), th) + (if h.len() > 1 {
            seq![sv("  ·  "@, th.spec_muted())]
        } else {
            seq![]
        }) + seq![sv(h.last().0, th.spec_key_hint()), sv(" "@ + h.last().1, th.spec_dim())]
    }
}

/// The footer's hint bar in normal mode.
pub open spec fn normal_hints_text(s: AppView, th: Theme) -> Seq<SpanView> {
    seq![sv(" "@, plain())] + hint_spans(footer_hints(s.has_active_filter()), th)
}

/// The footer's hint bar in normal mode.
pub fn normal_hints<C: Clock>(state: &AppState<C>, theme: &Theme) -> (r: Vec<Span>)
    ensures
        line_view(r@) == normal_hints_text(state@, *theme),
{
    let mut hints: Vec<(&str, &str)> = vec![
        ("↑↓", "navigate"),
        ("/", "search"),
        ("f", "owner"),
        ("r", "refresh"),
        ("o", "open"),
    ];
    let filtering = state.has_active_filter();
    if filtering {
        hints.push(("c", "clear"));
    }
    hints.push(("?", "help"));
    hints.push(("q", "quit"));
    let ghost hv = hints@.map_values(|b: (&str, &str)| (b.0@, b.1@));
    assert(hv =~= footer_hints(filtering));
    let mut r: Vec<Span> = Vec::new();
    push_span(&mut r, span(" ", StyleSpec::plain()));
    let mut i: usize = 0;
    while i < hints.len()
        invariant
            i <= hints@.len(),
            hv == hints@.map_values(|b: (&str, &str)| (b.0@, b.1@)),
            line_view(r@) == seq![sv(" "@, plain())] + hint_spans(hv.take(i as int), *theme),
        decreases hints@.len() - i,
    {
        let (key, desc) = hints[i];
        if i > 0 {
            push_span(&mut r, span("  ·  ", theme.muted()));
        }
        push_span(&mut r, span(key, theme.key_hint()));
        let mut d = String::new();
        push_str(&mut d, " ");
        push_str(&mut d, desc);
        push_span(&mut r, span_of(d, theme.dim()));
        assert(hv.take(i + 1).drop_last() =~= hv.take(i as int));
        assert(line_view(r@) =~= seq![sv(" "@, plain())] + hint_spans(hv.take(i + 1), *theme));
        i = i + 1;
    }
    assert(hv.take(i as int) =~= hv);
    r
}

/// The states explained in the help overlay's legend.
pub open spec fn legend() -> Seq<RunState> {
    seq![
        RunState::Success,
        RunState::Failed,
        RunState::InProgress,
        RunState::Queued,
        RunState::Cancelled,
    ]
}

/// One key-binding line of the help overlay.
pub open spec fn binding_line(row: (Seq<char>, Seq<char>), th: Theme) -> Seq<SpanView> {
    seq![sv("  "@ + pad_right(row.0, 18), th.spec_key_hint()), sv(row.1, th.spec_dim())]
}

/// One legend line of the help overlay.
pub open spec fn legend_line(s: RunState, th: Theme) -> Seq<SpanView> {
    seq![
        sv("  "@ + s.spec_glyph() + "  "@, th.spec_state_style(s)),
        sv(s.spec_label(), th.spec_state_style(s)),
    ]
}

/// The help overlay: every key binding, then a legend of status glyphs.
pub open spec fn help_text(th: Theme) -> Seq<Seq<SpanView>> {
    seq![seq![sv("Key bindings"@, th.spec_title())], seq![]] + help_rows().map_values(
        |r: (Seq<char>, Seq<char>)| binding_line(r, th),
    ) + seq![seq![], seq![sv("Status legend"@, th.spec_title())], seq![]] + legend().map_values(
        |s: RunState| legend_line(s, th),
    )
}

/// The help overlay's lines.
pub fn help_lines(theme: &Theme) -> (r: Vec<Vec<Span>>)
    ensures
        lines_view(r@) =~~= help_text(*theme),
{
    let mut r: Vec<Vec<Span>> = Vec::new();
    let mut l = Vec::new();
    push_span(&mut l, span("Key bindings", theme.title()));
    push_line(&mut r, l);
    push_line(&mut r, Vec::new());
    let bindings = help_bindings();
    let ghost rows = help_rows();
    let ghost head = lines_view(r@);
    let mut i: usize = 0;
    while i < bindings.len()
        invariant
            i <= bindings@.len(),
            rows == help_rows(),
            bindings@.map_values(|b: (&'static str, &'static str)| (b.0@, b.1@)) == rows,
            lines_view(r@) =~~= head + rows.take(i as int).map_values(
                |x: (Seq<char>, Seq<char>)| binding_line(x, *theme),
            ),
        decreases bindings@.len() - i,
    {
        let (keys, desc) = bindings[i];
        assert((keys@, desc@) == rows[i as int]);
        let mut l = Vec::new();
        let mut k = String::new();
        push_str(&mut k, "  ");
        push_padded(&mut k, keys, 18);
        push_span(&mut l, span_of(k, theme.key_hint()));
        push_span(&mut l, span(desc, theme.dim()));
        push_line(&mut r, l);
        assert(rows.take(i + 1).map_values(|x: (Seq<char>, Seq<char>)| binding_line(x, *theme))
            =~~= rows.take(i as int).map_values(|x: (Seq<char>, Seq<char>)| binding_line(x, *theme)).push(
            binding_line(rows[i as int], *theme),
        ));
        i = i + 1;
    }
    assert(rows.take(i as int) =~= rows);
    push_line(&mut r, Vec::new());
    let mut l = Vec::new();
    push_span(&mut l, span("Status legend", theme.title()));
    push_line(&mut r, l);
    push_line(&mut r, Vec::new());
    let states = [
        RunState::Success,
        RunState::Failed,
        RunState::InProgress,
        RunState::Queued,
        RunState::Cancelled,
    ];
    let ghost mid = lines_view(r@);
    let mut j: usize = 0;
    while j < 5
        invariant
            j <= 5,
            states@ == legend(),
            lines_view(r@) =~~= mid + legend().take(j as int).map_values(
                |s: RunState| legend_line(s, *theme),
            ),
        decreases 5 - j,
    {
        let st = states[j];
        let style = theme.state_style(st);
        let mut l = Vec::new();
        let mut g = String::new();
        push_str(&mut g, "  ");
        push_str(&mut g, st.glyph());
        push_str(&mut g, "  ");
        push_span(&mut l, span_of(g, style));
        push_span(&mut l, span(st.label(), style));
        push_line(&mut r, l);
        assert(legend().take(j + 1).map_values(|s: RunState| legend_line(s, *theme)) =~~= legend().take(
            j as int,
        ).map_values(|s: RunState| legend_line(s, *theme)).push(legend_line(st, *theme)));
        j = j + 1;
    }
    assert(legend().take(5) =~= legend());
    r
}

/// The delete confirmation modal.
pub open spec fn confirm_text(pending: PendingDelete, th: Theme) -> Seq<Seq<SpanView>> {
    seq![
        seq![sv(pending.spec_prompt(), StyleSpec { fg: Some(th.text), ..th.spec_base() })],
        seq![],
        seq![
            sv(
                "This only removes it from your dashboard — your GitHub repo is untouched."@,
                th.spec_muted(),
            ),
        ],
        seq![],
        seq![
            sv("  y / Enter "@, th.spec_confirm_yes()),
            sv("confirm"@, th.spec_dim()),
            sv("      n / Esc "@, th.spec_key_hint()),
            sv("cancel"@, th.spec_dim()),
        ],
    ]
}

/// The delete confirmation modal's lines.
pub fn confirm_lines(pending: &PendingDelete, theme: &Theme) -> (r: Vec<Vec<Span>>)
    ensures
        lines_view(r@) =~~= confirm_text(*pending, *theme),
{
    let mut r: Vec<Vec<Span>> = Vec::new();
    let mut l = Vec::new();
    push_span(&mut l, span_of(pending.prompt(), theme.base().with_fg(theme.text)));
    push_line(&mut r, l);
    push_line(&mut r, Vec::new());
    let mut l = Vec::new();
    push_span(
        &mut l,
        span(
            "This only removes it from your dashboard — your GitHub repo is untouched.",
            theme.muted(),
        ),
    );
    push_line(&mut r, l);
    push_line(&mut r, Vec::new());
    let mut l = Vec::new();
    push_span(&mut l, span("  y / Enter ", theme.confirm_yes()));
    push_span(&mut l, span("confirm", theme.dim()));
    push_span(&mut l, span("      n / Esc ", theme.key_hint()));
    push_span(&mut l, span("cancel", theme.dim()));
    push_line(&mut r, l);
    r
}

/// A toast's text: its kind's glyph, then the message.
pub open spec fn toast_text_of(t: ToastView) -> Seq<char> {
    Theme::spec_toast_glyph(t.kind) + "  "@ + t.message
}

/// A toast's text.
pub fn toast_text(toast: &Toast, theme: &Theme) -> (r: String)
    ensures
        r@ == toast_text_of(toast@),
{
    let mut t = String::new();
    push_str(&mut t, theme.toast_glyph(toast.kind));
    push_str(&mut t, "  ");
    push_str(&mut t, toast.message.as_str());
    t
}

/// Where a toast of `text_len` characters floats within `area`: a box sized
/// to the text (clamped to the area's width), anchored bottom-right.
pub open spec fn toast_box(area: Rect, text_len: nat) -> Rect {
    let avail: int = if area.width >= 6 { area.width - 6 } else { 0 };
    let tl: int = (text_len as u16) as int;
    let inner: int = if tl <= avail { tl } else { avail };
    let w: int = inner + 4;
    let h: int = 3;
    Rect {
        x: (area.x + (if area.width >= w + 1 { area.width - (w + 1) } else { 0 })) as u16,
        y: (area.y + (if area.height >= h + 1 { area.height - (h + 1) } else { 0 })) as u16,
        width: w as u16,
        height: h as u16,
    }
}

/// The rectangle a toast of `text_len` characters occupies within `area`.
pub fn toast_rect(area: Rect, text_len: usize) -> (r: Rect)
    requires
        area.x + area.width <= u16::MAX,
        area.y + area.height <= u16::MAX,
    ensures
        r == toast_box(area, text_len as nat),
{
    let avail = area.width.saturating_sub(6);
    let tl = text_len as u16;
    let inner_w = if tl <= avail {
        tl
    } else {
        avail
    };
    let box_w = inner_w + 4;
    let box_h: u16 = 3;
    let x = area.x + area.width.saturating_sub(box_w + 1);
    let y = area.y + area.height.saturating_sub(box_h + 1);
    Rect { x, y, width: box_w, height: box_h }
}

} // verus!
