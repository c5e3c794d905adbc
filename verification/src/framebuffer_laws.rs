use vstd::prelude::*;
use crate::font::{glyph_image, solid_cell, FONT_BASELINE, FONT_HEIGHT, FONT_WIDTH, GLYPH_PIXELS};
use crate::framebuffer::{
    glyph_color, lemma_draw_glyph_len, lemma_draw_pixel_len, lemma_pixel_in_buffer,
    lemma_row_bytes, spec_draw_glyph, spec_draw_pixel, spec_scroll, Color, ConsoleState,
    FrameBufferInfo, PixelFormat,
};
use vstd::arithmetic::div_mod::{
    lemma_fundamental_div_mod, lemma_fundamental_div_mod_converse, lemma_mod_pos_bound,
};

verus! {

/// Moving to the next row keeps a console well formed.
pub proof fn lemma_advance_row_wf(s: ConsoleState)
    requires
        s.wf(),
    ensures
        s.advance_row().wf(),
        s.advance_row().on_frame_of(s),
        s.advance_row().show_caret == s.show_caret,
{
    lemma_row_bytes(s.info, s.buffer.len() as int);
}

/// Drawing a cell at the cursor changes nothing but bytes of the buffer.
pub proof fn lemma_draw_cell_wf(s: ConsoleState, image: Seq<u8>)
    requires
        s.frame_ok(),
    ensures
        s.draw_cell(image).frame_ok(),
        s.draw_cell(image).wf() == s.wf(),
        s.draw_cell(image).on_frame_of(s),
{
    lemma_draw_glyph_len(
        s.buffer,
        s.info,
        image,
        s.x,
        s.y - FONT_BASELINE,
        GLYPH_PIXELS as nat,
    );
}

/// Writing one character keeps a console well formed.
pub proof fn lemma_put_char_wf(s: ConsoleState, c: char, color: Color, background: Color)
    requires
        s.wf(),
    ensures
        s.put_char(c, color, background).wf(),
        s.put_char(c, color, background).on_frame_of(s),
        s.put_char(c, color, background).show_caret == s.show_caret,
{
    lemma_advance_row_wf(s);
    if c != '\n' {
        lemma_draw_cell_wf(s.wrapped(), glyph_image(c, color, background));
    }
}

/// Writing the first characters of a text keeps a console well formed.
pub proof fn lemma_print_first_wf(
    s: ConsoleState,
    text: Seq<char>,
    n: nat,
    color: Color,
    background: Color,
)
    requires
        s.wf(),
    ensures
        s.print_first(text, n, color, background).wf(),
        s.print_first(text, n, color, background).on_frame_of(s),
        s.print_first(text, n, color, background).show_caret == s.show_caret,
    decreases n,
{
    if n > 0 {
        lemma_print_first_wf(s, text, (n - 1) as nat, color, background);
        lemma_put_char_wf(
            s.print_first(text, (n - 1) as nat, color, background),
            text[n - 1],
            color,
            background,
        );
    }
}

/// Writing a text keeps a console well formed.
pub proof fn lemma_print_wf(s: ConsoleState, text: Seq<char>, color: Color, background: Color)
    requires
        s.wf(),
    ensures
        s.print(text, color, background).wf(),
        s.print(text, color, background).on_frame_of(s),
        s.print(text, color, background).show_caret == s.show_caret,
{
    lemma_print_first_wf(s, text, text.len(), color, background);
}

/// Two texts that agree in their first `n` characters, and in which of them
/// are passed over, are written alike that far.
pub proof fn lemma_print_first_agrees(
    s: ConsoleState,
    one: Seq<char>,
    other: Seq<char>,
    n: nat,
    color: Color,
    background: Color,
)
    requires
        n <= one.len(),
        n <= other.len(),
        forall|i: int|
            0 <= i < n ==> one[i] == other[i] && ConsoleState::passed_over(one, i)
                == ConsoleState::passed_over(other, i),
    ensures
        s.print_first(one, n, color, background) == s.print_first(other, n, color, background),
        s.row_advances_first(one, n, color, background) == s.row_advances_first(
            other,
            n,
            color,
            background,
        ),
        s.scrolls_first(one, n, color, background) == s.scrolls_first(other, n, color, background),
    decreases n,
{
    if n > 0 {
        lemma_print_first_agrees(s, one, other, (n - 1) as nat, color, background);
    }
}

/// The step of `lemma_print_concat`: the first `m` characters of the second
/// text.
proof fn lemma_print_concat_first(
    s: ConsoleState,
    first: Seq<char>,
    second: Seq<char>,
    m: nat,
    color: Color,
    background: Color,
)
    requires
        m <= second.len(),
        first.len() > 0 && first.last() == '\r' ==> second.len() == 0 || second[0] == '\n',
    ensures
        s.print_first(first + second, first.len() + m, color, background) == s.print(
            first,
            color,
            background,
        ).print_first(second, m, color, background),
        s.row_advances_first(first + second, first.len() + m, color, background)
            == s.row_advances(first, color, background) + s.print(
            first,
            color,
            background,
        ).row_advances_first(second, m, color, background),
        s.scrolls_first(first + second, first.len() + m, color, background) == s.scrolls(
            first,
            color,
            background,
        ) + s.print(first, color, background).scrolls_first(second, m, color, background),
    decreases m,
{
    let both = first + second;
    if m == 0 {
        assert forall|i: int| 0 <= i < first.len() implies both[i] == first[i]
            && ConsoleState::passed_over(both, i) == ConsoleState::passed_over(first, i) by {
            if i + 1 < first.len() {
                assert(both[i + 1] == first[i + 1]);
            } else if second.len() > 0 {
                assert(both[i + 1] == second[0]);
            }
        }
        lemma_print_first_agrees(s, both, first, first.len(), color, background);
    } else {
        let j = m - 1;
        lemma_print_concat_first(s, first, second, j as nat, color, background);
        assert(both[first.len() + j] == second[j]);
        if j + 1 < second.len() {
            assert(both[first.len() + j + 1] == second[j + 1]);
        }
        assert(ConsoleState::passed_over(both, first.len() + j) == ConsoleState::passed_over(
            second,
            j,
        ));
    }
}

/// Two writes in a row show what one write of the joined text shows, unless
/// the first text ends in a carriage return that the joined text would draw.
pub proof fn lemma_print_concat(
    s: ConsoleState,
    first: Seq<char>,
    second: Seq<char>,
    color: Color,
    background: Color,
)
    requires
        first.len() > 0 && first.last() == '\r' ==> second.len() == 0 || second[0] == '\n',
    ensures
        s.print(first + second, color, background) == s.print(first, color, background).print(
            second,
            color,
            background,
        ),
        s.row_advances(first + second, color, background) == s.row_advances(
            first,
            color,
            background,
        ) + s.print(first, color, background).row_advances(second, color, background),
        s.scrolls(first + second, color, background) == s.scrolls(first, color, background)
            + s.print(first, color, background).scrolls(second, color, background),
{
    lemma_print_concat_first(s, first, second, second.len(), color, background);
}

/// A scroll moves the frame up by exactly one character row: each byte above
/// the last character row takes the value that stood one character row
/// further down, every byte from the start of the last character row on is
/// zero, and the cursor keeps its row.
pub proof fn lemma_scroll_moves_one_row(s: ConsoleState)
    requires
        s.wf(),
        s.y + FONT_HEIGHT >= s.info.height,
    ensures
        s.advance_row().buffer == spec_scroll(s.buffer, s.info),
        s.advance_row().buffer.len() == s.buffer.len(),
        s.advance_row().y == s.y,
        s.advance_row().x == 0,
        forall|i: int|
            0 <= i < s.info.line_bytes() * (s.info.height - FONT_HEIGHT)
                ==> #[trigger] s.advance_row().buffer[i] == s.buffer[i + s.info.line_bytes()
                * FONT_HEIGHT],
        forall|i: int|
            s.info.line_bytes() * (s.info.height - FONT_HEIGHT) <= i < s.buffer.len()
                ==> #[trigger] s.advance_row().buffer[i] == 0,
{
    lemma_row_bytes(s.info, s.buffer.len() as int);
}

/// After a scroll the pixels of the last character row are blank, and every
/// pixel above it shows what the pixel one character row below it showed.
pub proof fn lemma_scroll_pixels(s: ConsoleState, x: int, y: int, channel: int)
    requires
        s.wf(),
        s.y + FONT_HEIGHT >= s.info.height,
        0 <= x < s.info.width,
        0 <= y < s.info.height,
        0 <= channel < s.info.bytes_per_pixel,
    ensures
        0 <= s.info.byte_offset(x, y) + channel < s.buffer.len(),
        y >= s.info.height - FONT_HEIGHT ==> s.advance_row().buffer[s.info.byte_offset(x, y)
            + channel] == 0,
        y < s.info.height - FONT_HEIGHT ==> s.advance_row().buffer[s.info.byte_offset(x, y)
            + channel] == s.buffer[s.info.byte_offset(x, y + FONT_HEIGHT) + channel],
{
    lemma_row_bytes(s.info, s.buffer.len() as int);
    let stride = s.info.stride as int;
    let bpp = s.info.bytes_per_pixel as int;
    let height = s.info.height as int;
    let line = s.info.line_bytes();
    let pixel = y * stride + x;
    assert(0 <= y * stride <= (height - 1) * stride) by (nonlinear_arith)
        requires
            0 <= y <= height - 1,
            0 <= stride,
    ;
    assert(pixel * bpp + channel < (pixel + 1) * bpp) by (nonlinear_arith)
        requires
            0 <= channel < bpp,
    ;
    assert((height - 1) * stride + stride == height * stride) by (nonlinear_arith);
    assert((pixel + 1) * bpp <= (height * stride) * bpp) by (nonlinear_arith)
        requires
            pixel + 1 <= height * stride,
            0 <= bpp,
    ;
    assert((height * stride) * bpp == stride * bpp * height) by (nonlinear_arith);
    assert(0 <= pixel * bpp) by (nonlinear_arith)
        requires
            0 <= pixel,
            0 <= bpp,
    ;
    assert(pixel * bpp == y * line + x * bpp) by (nonlinear_arith)
        requires
            pixel == y * stride + x,
            line == stride * bpp,
    ;
    assert(((y + 20) * stride + x) * bpp == pixel * bpp + line * 20) by (nonlinear_arith)
        requires
            pixel == y * stride + x,
            line == stride * bpp,
    ;
    assert(0 <= x * bpp && x * bpp + channel < line) by (nonlinear_arith)
        requires
            0 <= x < stride,
            0 <= channel < bpp,
            line == stride * bpp,
    ;
    if y >= height - 20 {
        assert(y * line >= (height - 20) * line) by (nonlinear_arith)
            requires
                y >= height - 20,
                0 <= line,
        ;
        assert((height - 20) * line == line * (height - 20)) by (nonlinear_arith);
    } else {
        assert((y + 1) * line <= (height - 20) * line) by (nonlinear_arith)
            requires
                y + 1 <= height - 20,
                0 <= line,
        ;
        assert((y + 1) * line == y * line + line) by (nonlinear_arith);
        assert((height - 20) * line == line * (height - 20)) by (nonlinear_arith);
    }
}

/// The step of `lemma_one_scroll_per_overflow`: the first `n` characters.
proof fn lemma_one_scroll_per_overflow_first(
    s: ConsoleState,
    text: Seq<char>,
    n: nat,
    color: Color,
    background: Color,
)
    requires
        s.wf(),
    ensures
        0 <= s.row() < s.rows(),
        0 <= s.print_first(text, n, color, background).row() < s.rows(),
        s.print_first(text, n, color, background).row() == s.row() + s.row_advances_first(
            text,
            n,
            color,
            background,
        ) - s.scrolls_first(text, n, color, background),
        s.scrolls_first(text, n, color, background) == if s.row() + s.row_advances_first(
            text,
            n,
            color,
            background,
        ) > s.rows() - 1 {
            s.row() + s.row_advances_first(text, n, color, background) - (s.rows() - 1)
        } else {
            0
        },
    decreases n,
{
    if n > 0 {
        let before = s.print_first(text, (n - 1) as nat, color, background);
        lemma_one_scroll_per_overflow_first(s, text, (n - 1) as nat, color, background);
        lemma_print_first_wf(s, text, (n - 1) as nat, color, background);
        lemma_put_char_wf(before, text[n - 1], color, background);
        lemma_advance_row_wf(before);
    }
}

/// While a text is written the cursor goes down one row for each time it
/// leaves its row, until it stands on the last row; from then on each such
/// time is one scroll, so that the frame scrolls exactly once for each row
/// that the text runs past the bottom.
pub proof fn lemma_one_scroll_per_overflow(
    s: ConsoleState,
    text: Seq<char>,
    color: Color,
    background: Color,
)
    requires
        s.wf(),
    ensures
        0 <= s.row() < s.rows(),
        0 <= s.print(text, color, background).row() < s.rows(),
        s.print(text, color, background).row() == s.row() + s.row_advances(
            text,
            color,
            background,
        ) - s.scrolls(text, color, background),
        s.scrolls(text, color, background) == if s.row() + s.row_advances(text, color, background)
            > s.rows() - 1 {
            s.row() + s.row_advances(text, color, background) - (s.rows() - 1)
        } else {
            0
        },
{
    lemma_one_scroll_per_overflow_first(s, text, text.len(), color, background);
}

/// A text that ends in a line feed leaves the cursor at the left edge, in
/// column 0, of the row after the one on which the text before the line feed
/// ended: one row further down, or the same, last row of a frame that has
/// scrolled. That is where a wrap at a full row sends it.
pub proof fn lemma_print_line(s: ConsoleState, text: Seq<char>, color: Color, background: Color)
    requires
        s.wf(),
        text.len() > 0,
        text.last() == '\n',
    ensures
        s.print(text, color, background) == s.print(
            text.drop_last(),
            color,
            background,
        ).advance_row(),
        s.print(text, color, background).x == 0,
        s.print(text, color, background).column() == 0,
        s.print(text, color, background).row() == if s.print(
            text.drop_last(),
            color,
            background,
        ).row() + 1 < s.rows() {
            s.print(text.drop_last(), color, background).row() + 1
        } else {
            s.rows() - 1
        },
{
    let init = text.drop_last();
    assert forall|i: int| 0 <= i < init.len() implies text[i] == init[i]
        && ConsoleState::passed_over(text, i) == ConsoleState::passed_over(init, i) by {
        if i + 1 < init.len() {
            assert(text[i + 1] == init[i + 1]);
        }
    }
    lemma_print_first_agrees(s, text, init, init.len(), color, background);
    lemma_print_wf(s, init, color, background);
    lemma_advance_row_wf(s.print(init, color, background));
}

/// The number of cells that a text without line feeds takes: one for each
/// character but a carriage return at its end.
pub open spec fn cells(text: Seq<char>) -> nat {
    if text.len() > 0 && text.last() == '\r' {
        (text.len() - 1) as nat
    } else {
        text.len()
    }
}

/// How quotient and remainder change from `n` to `n + 1`.
proof fn lemma_next_cell(n: int, d: int)
    requires
        0 <= n,
        0 < d,
    ensures
        0 <= n % d < d,
        n % d == d - 1 ==> (n + 1) / d == n / d + 1 && (n + 1) % d == 0,
        n % d < d - 1 ==> (n + 1) / d == n / d && (n + 1) % d == n % d + 1,
{
    lemma_fundamental_div_mod(n, d);
    lemma_mod_pos_bound(n, d);
    let q = n / d;
    let r = n % d;
    if r == d - 1 {
        assert(n + 1 == (q + 1) * d + 0) by (nonlinear_arith)
            requires
                n == d * q + r,
                r == d - 1,
        ;
        lemma_fundamental_div_mod_converse(n + 1, d, q + 1, 0);
    } else {
        assert(n + 1 == q * d + (r + 1)) by (nonlinear_arith)
            requires
                n == d * q + r,
        ;
        lemma_fundamental_div_mod_converse(n + 1, d, q, r + 1);
    }
}

/// The step of `lemma_wrap_only_when_full`: the first `n` cells.
proof fn lemma_wrap_only_when_full_first(
    s: ConsoleState,
    text: Seq<char>,
    n: nat,
    color: Color,
    background: Color,
)
    requires
        s.wf(),
        0 < s.info.width,
        forall|i: int| 0 <= i < text.len() ==> text[i] != '\n',
        n <= cells(text),
    ensures
        1 <= s.columns(),
        0 <= s.column() <= s.columns(),
        n == 0 ==> s.print_first(text, n, color, background) == s && s.row_advances_first(
            text,
            n,
            color,
            background,
        ) == 0,
        n > 0 ==> s.row_advances_first(text, n, color, background) == (s.column() + n - 1)
            / s.columns() && s.print_first(text, n, color, background).column() == (s.column() + n
            - 1) % s.columns() + 1,
    decreases n,
{
    let cols = s.columns();
    let c = s.column();
    if n > 0 {
        let before = s.print_first(text, (n - 1) as nat, color, background);
        lemma_wrap_only_when_full_first(s, text, (n - 1) as nat, color, background);
        lemma_print_first_wf(s, text, (n - 1) as nat, color, background);
        lemma_advance_row_wf(before);
        assert(!ConsoleState::passed_over(text, n - 1));
        lemma_draw_cell_wf(before.wrapped(), glyph_image(text[n - 1], color, background));
        let after = before.put_char(text[n - 1], color, background);
        assert(after.column() == before.wrapped().column() + 1);
        assert(before.x >= before.info.width <==> before.column() == cols);
        if n == 1 {
            lemma_next_cell(c, cols);
            lemma_fundamental_div_mod_converse(cols, cols, 1, 0);
            if c < cols {
                lemma_fundamental_div_mod_converse(c, cols, 0, c);
            }
        } else {
            lemma_next_cell(c + n - 2, cols);
        }
    }
}

/// A text without line feeds moves the cursor off its row only where the
/// row is full, on a frame that has a width. With `k` cells to write from
/// column `c` of a row of `n` cells, the cursor leaves its row
/// `(c + k - 1) / n` times, each time for the left edge of the next row, and
/// ends in column `(c + k - 1) % n + 1`; with nothing to write it stays
/// where it is.
pub proof fn lemma_wrap_only_when_full(
    s: ConsoleState,
    text: Seq<char>,
    color: Color,
    background: Color,
)
    requires
        s.wf(),
        0 < s.info.width,
        forall|i: int| 0 <= i < text.len() ==> text[i] != '\n',
    ensures
        1 <= s.columns(),
        0 <= s.column() <= s.columns(),
        cells(text) == 0 ==> s.print(text, color, background) == s && s.row_advances(
            text,
            color,
            background,
        ) == 0,
        cells(text) > 0 ==> s.row_advances(text, color, background) == (s.column() + cells(text)
            - 1) / s.columns() && s.print(text, color, background).column() == (s.column() + cells(
            text,
        ) - 1) % s.columns() + 1,
{
    lemma_wrap_only_when_full_first(s, text, cells(text), color, background);
    if cells(text) < text.len() {
        assert(ConsoleState::passed_over(text, text.len() - 1));
    }
}

/// A second write to a pixel hides the first.
proof fn lemma_pixel_absorbs(
    buffer: Seq<u8>,
    info: FrameBufferInfo,
    x: int,
    y: int,
    first: Color,
    second: Color,
)
    requires
        info.fits(buffer.len() as int),
    ensures
        spec_draw_pixel(spec_draw_pixel(buffer, info, x, y, first), info, x, y, second)
            == spec_draw_pixel(buffer, info, x, y, second),
{
    if 0 <= x < info.width && 0 <= y < info.height {
        lemma_pixel_in_buffer(info, buffer.len() as int, x, y);
        assert(spec_draw_pixel(spec_draw_pixel(buffer, info, x, y, first), info, x, y, second)
            =~= spec_draw_pixel(buffer, info, x, y, second));
    }
}

/// Writes to two different pixels can be made in either order.
proof fn lemma_pixels_commute(
    buffer: Seq<u8>,
    info: FrameBufferInfo,
    x1: int,
    y1: int,
    c1: Color,
    x2: int,
    y2: int,
    c2: Color,
)
    requires
        info.fits(buffer.len() as int),
        x1 != x2 || y1 != y2,
    ensures
        spec_draw_pixel(spec_draw_pixel(buffer, info, x1, y1, c1), info, x2, y2, c2)
            == spec_draw_pixel(spec_draw_pixel(buffer, info, x2, y2, c2), info, x1, y1, c1),
{
    let seen1 = 0 <= x1 < info.width && 0 <= y1 < info.height;
    let seen2 = 0 <= x2 < info.width && 0 <= y2 < info.height;
    if seen1 && seen2 {
        lemma_pixel_in_buffer(info, buffer.len() as int, x1, y1);
        lemma_pixel_in_buffer(info, buffer.len() as int, x2, y2);
        let stride = info.stride as int;
        let bpp = info.bytes_per_pixel as int;
        let near = y1 * stride + x1;
        let far = y2 * stride + x2;
        if y1 < y2 {
            assert(y2 * stride >= y1 * stride + stride) by (nonlinear_arith)
                requires
                    y2 >= y1 + 1,
                    0 <= stride,
            ;
        } else if y2 < y1 {
            assert(y1 * stride >= y2 * stride + stride) by (nonlinear_arith)
                requires
                    y1 >= y2 + 1,
                    0 <= stride,
            ;
        }
        assert(near != far);
        if near < far {
            assert(far * bpp >= near * bpp + bpp) by (nonlinear_arith)
                requires
                    far >= near + 1,
                    0 <= bpp,
            ;
        } else {
            assert(near * bpp >= far * bpp + bpp) by (nonlinear_arith)
                requires
                    near >= far + 1,
                    0 <= bpp,
            ;
        }
        assert(spec_draw_pixel(spec_draw_pixel(buffer, info, x1, y1, c1), info, x2, y2, c2)
            =~= spec_draw_pixel(spec_draw_pixel(buffer, info, x2, y2, c2), info, x1, y1, c1));
    }
}

/// A write to a pixel of a cell can be moved past the drawing of the pixels
/// that come before it in the cell.
proof fn lemma_glyph_commutes(
    buffer: Seq<u8>,
    info: FrameBufferInfo,
    image: Seq<u8>,
    x: int,
    y: int,
    n: nat,
    m: int,
    color: Color,
)
    requires
        info.fits(buffer.len() as int),
        n <= m,
    ensures
        spec_draw_glyph(
            spec_draw_pixel(buffer, info, x + m % 10, y + m / 10, color),
            info,
            image,
            x,
            y,
            n,
        ) == spec_draw_pixel(
            spec_draw_glyph(buffer, info, image, x, y, n),
            info,
            x + m % 10,
            y + m / 10,
            color,
        ),
    decreases n,
{
    if n > 0 {
        let k = n - 1;
        lemma_glyph_commutes(buffer, info, image, x, y, k as nat, m, color);
        lemma_draw_glyph_len(buffer, info, image, x, y, k as nat);
        lemma_pixels_commute(
            spec_draw_glyph(buffer, info, image, x, y, k as nat),
            info,
            x + m % 10,
            y + m / 10,
            color,
            x + k % 10,
            y + k / 10,
            glyph_color(image, k),
        );
    }
}

/// A cell drawn over another cell in the same place hides it.
pub proof fn lemma_glyph_absorbs(
    buffer: Seq<u8>,
    info: FrameBufferInfo,
    under: Seq<u8>,
    over: Seq<u8>,
    x: int,
    y: int,
    n: nat,
)
    requires
        info.fits(buffer.len() as int),
    ensures
        spec_draw_glyph(spec_draw_glyph(buffer, info, under, x, y, n), info, over, x, y, n)
            == spec_draw_glyph(buffer, info, over, x, y, n),
    decreases n,
{
    if n > 0 {
        let k = n - 1;
        let below = spec_draw_glyph(buffer, info, under, x, y, k as nat);
        lemma_draw_glyph_len(buffer, info, under, x, y, k as nat);
        lemma_glyph_commutes(below, info, over, x, y, k as nat, k, glyph_color(under, k));
        lemma_draw_glyph_len(below, info, over, x, y, k as nat);
        lemma_pixel_absorbs(
            spec_draw_glyph(below, info, over, x, y, k as nat),
            info,
            x + k % 10,
            y + k / 10,
            glyph_color(under, k),
            glyph_color(over, k),
        );
        lemma_glyph_absorbs(buffer, info, under, over, x, y, k as nat);
    }
}

/// The pixel at column `x` of row `y` shows `color`: the bytes that a write
/// of the color would set hold what it would set them to.
pub open spec fn pixel_shows(buffer: Seq<u8>, info: FrameBufferInfo, x: int, y: int, color: Color) -> bool {
    let at = info.byte_offset(x, y);
    match info.pixel_format {
        PixelFormat::Rgb => buffer[at] == color.red && buffer[at + 1] == color.green && buffer[at
            + 2] == color.blue,
        PixelFormat::Bgr => buffer[at] == color.blue && buffer[at + 1] == color.green && buffer[at
            + 2] == color.red,
        PixelFormat::U8 => buffer[at] == color.gray() as u8,
        PixelFormat::Unknown { .. } => true,
    }
}

/// Every pixel of the cell at the cursor that lies inside the frame shows
/// `color`.
pub open spec fn cell_shows(s: ConsoleState, color: Color) -> bool {
    forall|k: int|
        0 <= k < GLYPH_PIXELS && 0 <= s.x + k % 10 < s.info.width && 0 <= s.y - FONT_BASELINE + k
            / 10 < s.info.height ==> #[trigger] pixel_shows(
            s.buffer,
            s.info,
            s.x + k % 10,
            s.y - FONT_BASELINE + k / 10,
            color,
        )
}

/// Drawing a solid cell over a cell that shows its color changes nothing.
pub proof fn lemma_solid_cell_unchanged(s: ConsoleState, color: Color, n: nat)
    requires
        s.frame_ok(),
        cell_shows(s, color),
        n <= GLYPH_PIXELS,
    ensures
        spec_draw_glyph(s.buffer, s.info, solid_cell(color), s.x, s.y - FONT_BASELINE, n)
            == s.buffer,
    decreases n,
{
    if n > 0 {
        let k = n - 1;
        lemma_solid_cell_unchanged(s, color, k as nat);
        let x = s.x + k % 10;
        let y = s.y - FONT_BASELINE + k / 10;
        assert(glyph_color(solid_cell(color), k) == color);
        if 0 <= x < s.info.width && 0 <= y < s.info.height {
            lemma_pixel_in_buffer(s.info, s.buffer.len() as int, x, y);
            assert(pixel_shows(s.buffer, s.info, x, y, color));
            assert(spec_draw_pixel(s.buffer, s.info, x, y, color) =~= s.buffer);
        }
    }
}

/// A cell whose bytes are all zero shows black.
pub proof fn lemma_blank_cell_shows_black(s: ConsoleState)
    requires
        s.frame_ok(),
        forall|k: int, channel: int|
            0 <= k < GLYPH_PIXELS && 0 <= s.x + k % 10 < s.info.width && 0 <= s.y - FONT_BASELINE
                + k / 10 < s.info.height && 0 <= channel < s.info.pixel_format.channels()
                ==> #[trigger] s.buffer[s.info.byte_offset(
                s.x + k % 10,
                s.y - FONT_BASELINE + k / 10,
            ) + channel] == 0,
    ensures
        cell_shows(s, Color::black()),
{
    assert forall|k: int|
        0 <= k < GLYPH_PIXELS && 0 <= s.x + k % 10 < s.info.width && 0 <= s.y - FONT_BASELINE + k
            / 10 < s.info.height implies #[trigger] pixel_shows(
        s.buffer,
        s.info,
        s.x + k % 10,
        s.y - FONT_BASELINE + k / 10,
        Color::black(),
    ) by {
        let at = s.info.byte_offset(s.x + k % 10, s.y - FONT_BASELINE + k / 10);
        assert(s.buffer[at + 0] == 0);
        if s.info.pixel_format.channels() == 3 {
            assert(s.buffer[at + 1] == 0);
            assert(s.buffer[at + 2] == 0);
        }
    }
}

/// On a blanked console two toggles of the caret, from off, give back the
/// blank console.
pub proof fn lemma_blink_caret_twice_on_blank(s: ConsoleState)
    requires
        s.wf(),
        !s.show_caret,
    ensures
        s.clear().blink_caret().blink_caret() == s.clear(),
{
    let blank = s.clear();
    assert forall|k: int, channel: int|
        0 <= k < GLYPH_PIXELS && 0 <= blank.x + k % 10 < blank.info.width && 0 <= blank.y
            - FONT_BASELINE + k / 10 < blank.info.height && 0 <= channel
            < blank.info.pixel_format.channels() implies #[trigger] blank.buffer[blank.info.byte_offset(
        blank.x + k % 10,
        blank.y - FONT_BASELINE + k / 10,
    ) + channel] == 0 by {
        lemma_pixel_in_buffer(
            blank.info,
            blank.buffer.len() as int,
            blank.x + k % 10,
            blank.y - FONT_BASELINE + k / 10,
        );
    }
    lemma_blank_cell_shows_black(blank);
    lemma_blink_caret_twice(blank);
}

/// A toggle of the caret moves nothing but the caret: the cursor, the frame
/// and the length of the buffer stay, and the caret's state flips.
pub proof fn lemma_blink_caret_keeps_cursor(s: ConsoleState)
    requires
        s.wf(),
    ensures
        s.blink_caret().wf(),
        s.blink_caret().x == s.x,
        s.blink_caret().y == s.y,
        s.blink_caret().on_frame_of(s),
        s.blink_caret().show_caret == !s.show_caret,
{
    lemma_draw_cell_wf(s, ConsoleState::caret_cell(!s.show_caret));
}

/// Two toggles of the caret leave the cursor and the caret's state as they
/// were, and in the cell at the cursor the color of that state, whatever the
/// cell showed before.
pub proof fn lemma_blink_caret_twice_repaints(s: ConsoleState)
    requires
        s.wf(),
    ensures
        s.blink_caret().blink_caret() == s.draw_cell(ConsoleState::caret_cell(s.show_caret)),
{
    lemma_draw_cell_wf(s, ConsoleState::caret_cell(!s.show_caret));
    lemma_glyph_absorbs(
        s.buffer,
        s.info,
        ConsoleState::caret_cell(!s.show_caret),
        ConsoleState::caret_cell(s.show_caret),
        s.x,
        s.y - FONT_BASELINE,
        GLYPH_PIXELS as nat,
    );
}

/// Where the cell at the cursor shows the color of the caret's state, black
/// while the caret is off and white while it is on, two toggles of the caret
/// bring the console back to the state in which it began.
pub proof fn lemma_blink_caret_twice(s: ConsoleState)
    requires
        s.wf(),
        cell_shows(s, ConsoleState::caret_color(s.show_caret)),
    ensures
        s.blink_caret().blink_caret() == s,
{
    lemma_blink_caret_twice_repaints(s);
    lemma_solid_cell_unchanged(s, ConsoleState::caret_color(s.show_caret), GLYPH_PIXELS as nat);
}

/// After one toggle every two toggles bring the console back, whatever the
/// cell at the cursor showed at first.
pub proof fn lemma_blink_caret_settles(s: ConsoleState)
    requires
        s.wf(),
    ensures
        s.blink_caret().blink_caret().blink_caret() == s.blink_caret(),
{
    lemma_blink_caret_keeps_cursor(s);
    lemma_blink_caret_twice_repaints(s.blink_caret());
    lemma_glyph_absorbs(
        s.buffer,
        s.info,
        ConsoleState::caret_cell(!s.show_caret),
        ConsoleState::caret_cell(!s.show_caret),
        s.x,
        s.y - FONT_BASELINE,
        GLYPH_PIXELS as nat,
    );
}

} // verus!
