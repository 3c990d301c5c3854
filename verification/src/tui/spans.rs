//! Styled text: what a widget shows, as spans of text with a style, before
//! it is drawn. Also the text-fitting helpers the widgets share.

use vstd::prelude::*;
use super::theme::StyleSpec;
use crate::text::{chars_of, push_str, spaces, string_of};

verus! {

/// A run of text in one style.
#[derive(Debug)]
pub struct Span {
    pub text: String,
    pub style: StyleSpec,
}

/// Mathematical view of a [`Span`].
pub struct SpanView {
    pub text: Seq<char>,
    pub style: StyleSpec,
}

impl View for Span {
    type V = SpanView;

    open spec fn view(&self) -> SpanView {
        SpanView { text: self.text@, style: self.style }
    }
}

/// A span with this text and style.
pub open spec fn sv(text: Seq<char>, style: StyleSpec) -> SpanView {
    SpanView { text, style }
}

/// Views of a line of spans.
pub open spec fn line_view(l: Seq<Span>) -> Seq<SpanView> {
    l.map_values(|s: Span| s@)
}

/// Views of a list of lines.
pub open spec fn lines_view(ls: Seq<Vec<Span>>) -> Seq<Seq<SpanView>> {
    ls.map_values(|l: Vec<Span>| line_view(l@))
}

/// A span holding a copy of `text`.
pub fn span(text: &str, style: StyleSpec) -> (s: Span)
    ensures
        s@ == sv(text@, style),
{
    let mut t = String::new();
    push_str(&mut t, text);
    Span { text: t, style }
}

/// A span holding `text`.
pub fn span_of(text: String, style: StyleSpec) -> (s: Span)
    ensures
        s@ == sv(text@, style),
{
    Span { text, style }
}

/// Append a span to a line.
pub fn push_span(line: &mut Vec<Span>, s: Span)
    ensures
        line_view(final(line)@) == line_view(old(line)@).push(s@),
{
    let ghost before = line_view(line@);
    line.push(s);
    assert(line_view(line@) =~= before.push(s@));
}

/// Append a line to a list of lines.
pub fn push_line(lines: &mut Vec<Vec<Span>>, l: Vec<Span>)
    ensures
        lines_view(final(lines)@) == lines_view(old(lines)@).push(line_view(l@)),
{
    let ghost before = lines_view(lines@);
    let ghost lv = line_view(l@);
    lines.push(l);
    assert(lines_view(lines@) =~= before.push(lv));
}

/// `s` cut to at most `max` characters, marking a cut with a trailing `…`.
pub open spec fn truncated(s: Seq<char>, max: nat) -> Seq<char> {
    if s.len() <= max {
        s
    } else {
        s.take(if max >= 1 { max - 1 } else { 0 }) + "…"@
    }
}

/// Cut `s` to at most `max` characters, ending a cut text with `…`.
pub fn truncate(s: &str, max: usize) -> (r: String)
    ensures
        r@ == truncated(s@, max as nat),
{
    let v = chars_of(s);
    if v.len() <= max {
        let r = string_of(v.as_slice(), 0, v.len());
        assert(v@.subrange(0, v@.len() as int) =~= s@);
        r
    } else {
        let keep = if max >= 1 {
            max - 1
        } else {
            0
        };
        let mut r = string_of(v.as_slice(), 0, keep);
        push_str(&mut r, "…");
        assert(v@.subrange(0, keep as int) =~= s@.take(keep as int));
        r
    }
}

/// `s` fitted to exactly `width` columns: cut if longer, padded with
/// spaces if shorter.
pub open spec fn fitted(s: Seq<char>, width: nat) -> Seq<char> {
    crate::text::pad_right(truncated(s, width), width)
}

/// Fit a name into a fixed-width column.
pub fn pad_name(s: &str, width: usize) -> (r: String)
    ensures
        r@ == fitted(s@, width as nat),
{
    let t = truncate(s, width);
    let mut r = String::new();
    crate::text::push_padded(&mut r, t.as_str(), width);
    assert(r@ =~= fitted(s@, width as nat));
    r
}

/// A screen rectangle in terminal cells.
#[derive(Debug, Clone, Copy, PartialEq, Eq, Structural)]
pub struct Rect {
    pub x: u16,
    pub y: u16,
    pub width: u16,
    pub height: u16,
}

/// `a - b`, or zero when `b > a`.
pub open spec fn sat_sub16(a: u16, b: int) -> int {
    if a >= b { a - b } else { 0 }
}

/// A single-row bar with one column of left padding.
pub fn pad(area: Rect) -> (r: Rect)
    requires
        area.x < u16::MAX,
    ensures
        r == (Rect { x: (area.x + 1) as u16, width: sat_sub16(area.width, 1) as u16, ..area }),
{
    Rect { x: area.x + 1, width: area.width.saturating_sub(1), ..area }
}

} // verus!
