//! The scan that turns an image into text.

use vstd::prelude::*;
use crate::ramp::{glyph_index, ramp_chars, ramp_index, ramp_index_in_range, Charset};
use crate::raster::{Grid, Raster};

verus! {

/// Where column `x` of line `y` stands in a text of `n` lines of `w` glyphs
/// and a line feed each: after all earlier lines and before all later ones.
proof fn position_bounds(x: int, y: int, w: int, n: int)
    by (nonlinear_arith)
    requires
        0 <= y < n,
        0 <= x <= w,
    ensures
        0 <= y * (w + 1) + x < n * (w + 1),
        y < n - 1 ==> y * (w + 1) + x < (n - 1) * (w + 1),
        n * (w + 1) == (n - 1) * (w + 1) + (w + 1),
{
}

impl Grid {
    /// The glyphs of pixel row `y`, left to right.
    pub open spec fn row_text(self, ramp: Seq<char>, y: int) -> Seq<char> {
        Seq::new(self.width, |x: int| self.glyph_at(ramp, x, y))
    }

    /// The text of the first `n` pixel rows: each row's glyphs and a line
    /// feed after them.
    pub open spec fn rows_text(self, ramp: Seq<char>, n: nat) -> Seq<char>
        decreases n,
    {
        if n == 0 {
            Seq::empty()
        } else {
            self.rows_text(ramp, (n - 1) as nat) + self.row_text(ramp, n - 1).push('\n')
        }
    }

    /// The whole image as text, drawn with the glyphs of `charset`.
    pub open spec fn rendered(self, charset: Charset) -> Seq<char> {
        self.rows_text(charset.glyphs(), self.height)
    }

    /// Every pixel is drawn with a glyph of the ramp: its position lies
    /// inside the ramp, a black pixel takes the first glyph and a white pixel
    /// the last.
    pub proof fn glyph_in_ramp(self, charset: Charset, x: int, y: int)
        ensures
            0 <= ramp_index(self.luma_at(x, y), charset.glyphs().len()) < charset.glyphs().len(),
            charset.glyphs().contains(self.glyph_at(charset.glyphs(), x, y)),
            self.luma_at(x, y) == 0 ==> self.glyph_at(charset.glyphs(), x, y)
                == charset.glyphs().first(),
            self.luma_at(x, y) == 255 ==> self.glyph_at(charset.glyphs(), x, y)
                == charset.glyphs().last(),
    {
        charset.glyph_count();
        ramp_index_in_range(self.luma_at(x, y), charset.glyphs().len());
    }

    /// The text of `n` rows holds `n` lines of `width` glyphs: the glyph of
    /// the pixel in column `x` of row `y` stands at `y * (width + 1) + x`, and
    /// a line feed closes each row.
    pub proof fn rows_text_layout(self, ramp: Seq<char>, n: nat)
        ensures
            self.rows_text(ramp, n).len() == n * (self.width + 1),
            forall|x: int, y: int|
                0 <= y < n && 0 <= x < self.width
                    ==> #[trigger] self.rows_text(ramp, n)[y * (self.width + 1) + x]
                    == self.glyph_at(ramp, x, y),
            forall|y: int|
                0 <= y < n
                    ==> #[trigger] self.rows_text(ramp, n)[y * (self.width + 1) + self.width]
                    == '\n',
        decreases n,
    {
        let w = self.width as int;
        if n > 0 {
            let m = (n - 1) as nat;
            self.rows_text_layout(ramp, m);
            let head = self.rows_text(ramp, m);
            let tail = self.row_text(ramp, m as int).push('\n');
            let all = self.rows_text(ramp, n);
            assert(all == head + tail);
            assert(n * (w + 1) == m * (w + 1) + (w + 1)) by (nonlinear_arith)
                requires
                    n == m + 1,
            ;
            assert forall|x: int, y: int| 0 <= y < n && 0 <= x < w implies
                #[trigger] all[y * (w + 1) + x] == self.glyph_at(ramp, x, y) by {
                let k = y * (w + 1) + x;
                position_bounds(x, y, w, n as int);
                if y < m {
                    assert(all[k] == head[k]);
                } else {
                    assert(all[k] == tail[x]);
                }
            }
            assert forall|y: int| 0 <= y < n implies #[trigger] all[y * (w + 1) + w] == '\n' by {
                let k = y * (w + 1) + w;
                position_bounds(w, y, w, n as int);
                if y < m {
                    assert(all[k] == head[k]);
                } else {
                    assert(all[k] == tail[w]);
                }
            }
        } else {
            assert(n * (w + 1) == 0) by (nonlinear_arith)
                requires
                    n == 0,
            ;
        }
    }

    /// The text of an image has as many lines as the image has pixel rows,
    /// and each line has as many glyphs as the image has pixel columns.
    pub proof fn rendered_layout(self, charset: Charset)
        ensures
            self.rendered(charset).len() == self.height * (self.width + 1),
            forall|x: int, y: int|
                0 <= y < self.height && 0 <= x < self.width
                    ==> #[trigger] self.rendered(charset)[y * (self.width + 1) + x]
                    == self.glyph_at(charset.glyphs(), x, y),
            forall|y: int|
                0 <= y < self.height
                    ==> #[trigger] self.rendered(charset)[y * (self.width + 1) + self.width]
                    == '\n',
    {
        self.rows_text_layout(charset.glyphs(), self.height);
    }

    /// The line feeds of the text are those that close its lines: a line
    /// feed stands at the end of each run of `width + 1` characters and
    /// nowhere else.
    pub proof fn rendered_line_feeds(self, charset: Charset)
        ensures
            forall|k: int|
                0 <= k < self.rendered(charset).len() ==> ((#[trigger] self.rendered(charset)[k])
                    == '\n' <==> k % (self.width as int + 1) == self.width as int),
    {
        let w = self.width as int;
        let h = self.height as int;
        let text = self.rendered(charset);
        self.rendered_layout(charset);
        charset.no_line_feed();
        assert forall|k: int| 0 <= k < text.len() implies
            ((#[trigger] text[k]) == '\n' <==> k % (w + 1) == w) by {
            let y = k / (w + 1);
            let x = k % (w + 1);
            assert(0 <= y < h && 0 <= x <= w && k == y * (w + 1) + x) by (nonlinear_arith)
                requires
                    0 <= k < h * (w + 1),
                    w >= 0,
                    y == k / (w + 1),
                    x == k % (w + 1),
            ;
            if x < w {
                self.glyph_in_ramp(charset, x, y);
                assert(text[y * (w + 1) + x] == self.glyph_at(charset.glyphs(), x, y));
            } else {
                assert(text[y * (w + 1) + w] == '\n');
            }
        }
    }
}

/// Draws an image as text: for each pixel the glyph of the chosen ramp that
/// stands for its luminance, row after row, with a line feed after each row.
pub fn convert(img: &Raster, charset: Charset) -> (text: String)
    ensures
        text@ == img@.rendered(charset),
        text@.len() == img@.height * (img@.width + 1),
{
    let ramp = ramp_chars(charset);
    let width: u32 = img.width();
    let height: u32 = img.height();
    let mut text = String::new();
    let mut y: u32 = 0;
    while y < height
        invariant
            y <= height,
            width == img@.width,
            height == img@.height,
            ramp@ == charset.glyphs(),
            ramp@.len() >= 1,
            text@ == img@.rows_text(ramp@, y as nat),
        decreases height - y,
    {
        let ghost done = text@;
        let mut x: u32 = 0;
        while x < width
            invariant
                x <= width,
                y < height,
                width == img@.width,
                height == img@.height,
                ramp@.len() >= 1,
                text@ == done + img@.row_text(ramp@, y as int).take(x as int),
            decreases width - x,
        {
            let p = img.pixel(x, y);
            let index = glyph_index(p.0, p.1, p.2, p.3, ramp.len());
            text.push(ramp[index]);
            proof {
                let row = img@.row_text(ramp@, y as int);
                assert(row.take(x + 1) == row.take(x as int).push(row[x as int]));
                assert(done + row.take(x as int).push(row[x as int]) == (done + row.take(
                    x as int,
                )).push(row[x as int]));
            }
            x += 1;
        }
        text.push('\n');
        proof {
            let row = img@.row_text(ramp@, y as int);
            assert(row.take(width as int) == row);
            assert((done + row).push('\n') == done + row.push('\n'));
        }
        y += 1;
    }
    proof {
        img@.rendered_layout(charset);
    }
    text
}

} // verus!
