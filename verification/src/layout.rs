//! Terminal layout of the visualizations: where bars go, which block glyph
//! each cell of a bar shows, and where the settings overlay sits.

use vstd::prelude::*;

verus! {

/// The block glyph showing `k` eighths of a cell, filled from the bottom.
pub open spec fn eighth_block(k: int) -> char {
    if k <= 0 {
        ' '
    } else if k == 1 {
        '\u{2581}'
    } else if k == 2 {
        '\u{2582}'
    } else if k == 3 {
        '\u{2583}'
    } else if k == 4 {
        '\u{2584}'
    } else if k == 5 {
        '\u{2585}'
    } else if k == 6 {
        '\u{2586}'
    } else if k == 7 {
        '\u{2587}'
    } else {
        '\u{2588}'
    }
}

fn eighth_block_char(k: usize) -> (c: char)
    ensures
        c == eighth_block(k as int),
{
    if k == 0 {
        ' '
    } else if k == 1 {
        '\u{2581}'
    } else if k == 2 {
        '\u{2582}'
    } else if k == 3 {
        '\u{2583}'
    } else if k == 4 {
        '\u{2584}'
    } else if k == 5 {
        '\u{2585}'
    } else if k == 6 {
        '\u{2586}'
    } else if k == 7 {
        '\u{2587}'
    } else {
        '\u{2588}'
    }
}

/// The glyph in row `row` (counted from the bar's base) of a bar that is
/// `eighths` eighths of a cell tall: full blocks below the top, a partial
/// block at the top, blanks above.
pub open spec fn bar_glyph(eighths: nat, row: nat) -> char {
    if row < eighths / 8 {
        eighth_block(8)
    } else if row == eighths / 8 && eighths % 8 > 0 {
        eighth_block((eighths % 8) as int)
    } else {
        ' '
    }
}

/// The glyph of a bar growing upward at a given row.
pub fn bar_cell(eighths: usize, row: usize) -> (c: char)
    ensures
        c == bar_glyph(eighths as nat, row as nat),
{
    let full_cells = eighths / 8;
    let remainder = eighths % 8;
    if row < full_cells {
        eighth_block_char(8)
    } else if row == full_cells && remainder > 0 {
        eighth_block_char(remainder)
    } else {
        ' '
    }
}

/// The glyph in row `row` below the center line of a bar growing downward
/// that is `halves` half cells tall: full blocks, then an upper half block
/// for an odd count; nothing below.
pub open spec fn lower_glyph(halves: nat, row: nat) -> Option<char> {
    if row < halves / 2 {
        Some('\u{2588}')
    } else if row == halves / 2 && halves % 2 == 1 {
        Some('\u{2580}')
    } else {
        None
    }
}

/// The glyph of a bar growing downward at a given row, if the bar reaches it.
pub fn lower_cell(halves: usize, row: usize) -> (c: Option<char>)
    ensures
        c == lower_glyph(halves as nat, row as nat),
{
    let full_cells = halves / 2;
    if row < full_cells {
        Some('\u{2588}')
    } else if row == full_cells && halves % 2 == 1 {
        Some('\u{2580}')
    } else {
        None
    }
}

/// Growing a bar by one eighth of a cell changes exactly one cell, the one
/// at its top; the glyph for `k` eighths (1–8) is the block element
/// U+2580 + `k`; a bar of whole cells shows full blocks up to its height and
/// blanks above.
pub proof fn lemma_bar_grows_one_cell(eighths: nat, row: nat, k: nat, cells: nat)
    ensures
        row != eighths / 8 ==> bar_glyph(eighths + 1, row) == bar_glyph(eighths, row),
        bar_glyph(eighths + 1, eighths / 8) != bar_glyph(eighths, eighths / 8),
        1 <= k <= 8 ==> bar_glyph(k, 0) as int == 0x2580 + k,
        row < cells ==> bar_glyph(8 * cells, row) == '\u{2588}',
        row >= cells ==> bar_glyph(8 * cells, row) == ' ',
{
    assert((8 * cells) / 8 == cells && (8 * cells) % 8 == 0);
}

/// Growing a downward bar by one half cell changes exactly one cell, the one
/// at its end; a bar of whole cells shows full blocks down to its length and
/// nothing below.
pub proof fn lemma_lower_bar_grows_one_cell(halves: nat, row: nat, cells: nat)
    ensures
        row != halves / 2 ==> lower_glyph(halves + 1, row) == lower_glyph(halves, row),
        lower_glyph(halves + 1, halves / 2) != lower_glyph(halves, halves / 2),
        row < cells ==> lower_glyph(2 * cells, row) == Some('\u{2588}'),
        row >= cells ==> lower_glyph(2 * cells, row) is None,
{
    assert((2 * cells) / 2 == cells && (2 * cells) % 2 == 0);
}

/// Columns that `n` bars of width `w` separated by gaps of `s` take.
pub open spec fn bars_width(n: int, w: int, s: int) -> int {
    if n > 0 { n * w + (n - 1) * s } else { 0 }
}

/// The column where the first bar starts so that the bars sit centered in
/// the inner area.
pub open spec fn bars_origin(inner_x: u16, inner_width: u16, n: int, w: int, s: int) -> int {
    let total = bars_width(n, w, s);
    let free: int = if inner_width > total { inner_width - total } else { 0 };
    inner_x + free / 2
}

/// The column of the first bar: the bars are centered in the inner area.
pub fn bar_origin(inner_x: u16, inner_width: u16, num_bars: usize, bar_width: usize, bar_spacing: usize) -> (x:
    u16)
    requires
        bars_width(num_bars as int, bar_width as int, bar_spacing as int) <= usize::MAX,
        num_bars > 0 ==> num_bars * bar_width <= usize::MAX,
        num_bars > 0 ==> (num_bars - 1) * bar_spacing <= usize::MAX,
        inner_x + inner_width / 2 <= u16::MAX,
    ensures
        x == bars_origin(inner_x, inner_width, num_bars as int, bar_width as int, bar_spacing as int),
{
    let total_w: usize = if num_bars > 0 {
        num_bars * bar_width + (num_bars - 1) * bar_spacing
    } else {
        0
    };
    let w = inner_width as usize;
    let free: usize = if w > total_w { w - total_w } else { 0 };
    let half: usize = free / 2;
    assert(half <= inner_width / 2);
    inner_x + (half as u16)
}

/// The columns `[start, end)` of bar `i`: bars are `bar_width` wide,
/// `bar_spacing` apart, and clipped at the right edge of the inner area.
pub open spec fn bar_columns(x_offset: u16, i: int, w: int, s: int, inner_x: u16, inner_width: u16) -> (int, int) {
    let start = x_offset + i * (w + s);
    let end = if start + w < inner_x + inner_width { start + w } else { inner_x + inner_width };
    (start, end)
}

/// The columns of bar `i`.
pub fn bar_span(
    x_offset: u16,
    i: usize,
    bar_width: usize,
    bar_spacing: usize,
    inner_x: u16,
    inner_width: u16,
) -> (span: (u16, u16))
    requires
        bar_width + bar_spacing <= usize::MAX,
        x_offset + i * (bar_width + bar_spacing) + bar_width <= u16::MAX,
        inner_x + inner_width <= u16::MAX,
    ensures
        (span.0 as int, span.1 as int) == bar_columns(x_offset, i as int, bar_width as int, bar_spacing as int, inner_x, inner_width),
{
    assert(i * (bar_width + bar_spacing) <= u16::MAX) by (nonlinear_arith)
        requires
            x_offset + i * (bar_width + bar_spacing) + bar_width <= u16::MAX,
            x_offset >= 0,
            bar_width >= 0,
    ;
    let stride = bar_width + bar_spacing;
    let offset = i * stride;
    let x_start: u16 = x_offset + (offset as u16);
    let edge: u16 = inner_x + inner_width;
    let x_end: u16 = if x_start + (bar_width as u16) < edge { x_start + (bar_width as u16) } else { edge };
    (x_start, x_end)
}

/// Neighbouring bars never share a column.
pub proof fn lemma_bar_columns_disjoint(x_offset: u16, i: int, w: int, s: int, inner_x: u16, inner_width: u16)
    requires
        i >= 0,
        w >= 0,
        s >= 0,
    ensures
        bar_columns(x_offset, i, w, s, inner_x, inner_width).1 <= bar_columns(x_offset, i + 1, w, s, inner_x, inner_width).0,
{
    assert((i + 1) * (w + s) == i * (w + s) + w + s) by (nonlinear_arith);
}

/// The rectangle `(x, y, width, height)` of the settings overlay in a
/// terminal of the given size: 80% of the width but at least 40 columns
/// (never more than the terminal), half the height, centered horizontally,
/// a quarter of the height from the top.
pub open spec fn overlay_rect(width: u16, height: u16) -> (int, int, int, int) {
    let wide: int = width * 4 / 5;
    let w0: int = if wide > 40 { wide } else { 40 };
    let w: int = if w0 < width { w0 } else { width as int };
    ((width - w) / 2, (height / 4) as int, w, (height / 2) as int)
}

/// Place the settings overlay.
pub fn settings_rect(width: u16, height: u16) -> (r: (u16, u16, u16, u16))
    requires
        width * 4 <= u16::MAX,
    ensures
        (r.0 as int, r.1 as int, r.2 as int, r.3 as int) == overlay_rect(width, height),
{
    let wide: u16 = width * 4 / 5;
    let w0: u16 = if wide > 40 { wide } else { 40 };
    let w: u16 = if w0 < width { w0 } else { width };
    ((width - w) / 2, height / 4, w, height / 2)
}

/// The settings overlay fits the terminal and is centered: its left and
/// right margins differ by at most one column; it is at least 40 columns
/// wide unless the terminal is narrower, and at least 80% of the width.
pub proof fn lemma_overlay_centered(width: u16, height: u16)
    ensures
        overlay_rect(width, height).0 >= 0,
        overlay_rect(width, height).0 + overlay_rect(width, height).2 <= width,
        0 <= (width - (overlay_rect(width, height).0 + overlay_rect(width, height).2))
            - overlay_rect(width, height).0 <= 1,
        overlay_rect(width, height).2 >= 40 || overlay_rect(width, height).2 == width,
        5 * overlay_rect(width, height).2 >= 4 * width - 4,
        overlay_rect(width, height).1 + overlay_rect(width, height).3 <= height,
        0 <= height - 2 * overlay_rect(width, height).1 - overlay_rect(width, height).3 <= 3,
{
}

/// The stereo view's split of the inner rows `(half, center_y, lower)`: the
/// left channel gets the upper half, the center line sits below it, the
/// right channel gets the rows under the line.
pub fn stereo_rows(inner_y: u16, inner_height: u16) -> (r: (u16, u16, u16))
    requires
        inner_height >= 1,
        inner_y + inner_height / 2 <= u16::MAX,
    ensures
        r.0 == inner_height / 2,
        r.1 == inner_y + inner_height / 2,
        r.2 == inner_height - inner_height / 2 - 1,
        r.0 + 1 + r.2 == inner_height,
{
    let half_h = inner_height / 2;
    (half_h, inner_y + half_h, inner_height - half_h - 1)
}

/// The theme shown for a theme index: the index, or the last theme past the
/// end.
pub fn visible_theme(theme_idx: usize, num_themes: usize) -> (i: usize)
    requires
        num_themes > 0,
    ensures
        i == if theme_idx < num_themes { theme_idx as int } else { num_themes - 1 },
        i < num_themes,
{
    if theme_idx < num_themes - 1 { theme_idx } else { num_themes - 1 }
}

/// A slider of `width` cells with the first `filled` full, in brackets.
pub open spec fn slider(filled: nat, width: nat) -> Seq<char> {
    seq!['['] + Seq::new(filled, |i: int| '\u{2588}') + Seq::new((width - filled) as nat, |i: int| '\u{2591}')
        + seq![']']
}

proof fn lemma_slider_literals()
    ensures
        "\u{2588}"@ == seq!['\u{2588}'],
        "\u{2591}"@ == seq!['\u{2591}'],
        "["@ == seq!['['],
        "]"@ == seq![']'],
{
    reveal_strlit("[");
    reveal_strlit("]");
    reveal_strlit("\u{2588}");
    reveal_strlit("\u{2591}");
    assert("\u{2588}"@ =~= seq!['\u{2588}']);
    assert("\u{2591}"@ =~= seq!['\u{2591}']);
    assert("["@ =~= seq!['[']);
    assert("]"@ =~= seq![']']);
}

/// Draw a text slider with `filled` of its `width` cells full.
pub fn slider_text(filled: usize, width: usize) -> (s: String)
    requires
        filled <= width,
    ensures
        s@ == slider(filled as nat, width as nat),
        // `width` cells between brackets: full blocks, then light shade
        s@.len() == width + 2,
        s@[0] == '[' && s@[width + 1] == ']',
        forall|i: int| 1 <= i <= filled ==> s@[i] == '\u{2588}',
        forall|i: int| filled < i <= width ==> s@[i] == '\u{2591}',
{
    proof {
        lemma_slider_literals();
    }
    let mut s = "[".to_owned();
    let mut i: usize = 0;
    while i < filled
        invariant
            i <= filled <= width,
            s@ == seq!['['] + Seq::new(i as nat, |k: int| '\u{2588}'),
        decreases filled - i,
    {
        s.append("\u{2588}");
        proof {
            lemma_slider_literals();
        }
        i += 1;
        assert(s@ =~= seq!['['] + Seq::new(i as nat, |k: int| '\u{2588}'));
    }
    let mut j: usize = 0;
    while j < width - filled
        invariant
            i == filled <= width,
            j <= width - filled,
            s@ == seq!['['] + Seq::new(filled as nat, |k: int| '\u{2588}') + Seq::new(j as nat, |k: int| '\u{2591}'),
        decreases width - filled - j,
    {
        s.append("\u{2591}");
        proof {
            lemma_slider_literals();
        }
        j += 1;
        assert(s@ =~= seq!['['] + Seq::new(filled as nat, |k: int| '\u{2588}') + Seq::new(j as nat, |k: int| '\u{2591}'));
    }
    s.append("]");
    assert(s@ =~= slider(filled as nat, width as nat));
    s
}

} // verus!
