//! Where each module of a symbol lands on a rendered canvas.

use vstd::prelude::*;
use crate::text::decimal;

verus! {

/// A symbol placed on a canvas: its modules (row by row, `true` for dark),
/// its sides in modules, the quiet zone around it and the side of one module,
/// both counted in canvas cells.
pub struct Layout {
    pub modules: Seq<bool>,
    pub width: int,
    pub height: int,
    pub margin: int,
    pub module_size: int,
}

impl Layout {
    /// The canvas width in cells.
    pub open spec fn canvas_width(self) -> int {
        (self.width + 2 * self.margin) * self.module_size
    }

    /// The canvas height in cells.
    pub open spec fn canvas_height(self) -> int {
        (self.height + 2 * self.margin) * self.module_size
    }

    /// Whether cell `(x, y)` lies on a dark module; the quiet zone is light.
    pub open spec fn is_dark(self, x: int, y: int) -> bool {
        let mx = x / self.module_size;
        let my = y / self.module_size;
        &&& self.margin <= mx < self.width + self.margin
        &&& self.margin <= my < self.height + self.margin
        &&& self.modules[(my - self.margin) * self.width + (mx - self.margin)]
    }

    /// The first `n` cells of row `y`, each written as `dark` or `light`.
    pub open spec fn text_row(self, y: int, n: nat, dark: Seq<char>, light: Seq<char>) -> Seq<char>
        decreases n,
    {
        if n == 0 {
            seq![]
        } else {
            self.text_row(y, (n - 1) as nat, dark, light) + if self.is_dark(n - 1, y) {
                dark
            } else {
                light
            }
        }
    }

    /// The first `n` rows, separated by line breaks.
    pub open spec fn text_rows(self, n: nat, dark: Seq<char>, light: Seq<char>) -> Seq<char>
        decreases n,
    {
        let w = self.canvas_width() as nat;
        if n == 0 {
            seq![]
        } else if n == 1 {
            self.text_row(0, w, dark, light)
        } else {
            self.text_rows((n - 1) as nat, dark, light) + seq!['\n'] + self.text_row(
                n - 1,
                w,
                dark,
                light,
            )
        }
    }

    /// The whole canvas as text, one string per cell, one line per row.
    pub open spec fn text_image(self, dark: Seq<char>, light: Seq<char>) -> Seq<char> {
        self.text_rows(self.canvas_height() as nat, dark, light)
    }

    /// Whether cell `(x, y)` is drawn filled in a half-block rendering where
    /// dark modules are drawn filled exactly when `dark_filled`; the cells
    /// below the canvas are blank.
    pub open spec fn filled(self, x: int, y: int, dark_filled: bool) -> bool {
        y < self.canvas_height() && (self.is_dark(x, y) == dark_filled)
    }

    /// The first `n` characters of half-block line `k`, which covers rows
    /// `2k` and `2k + 1`.
    pub open spec fn dense_line(self, k: int, n: nat, dark_filled: bool) -> Seq<char>
        decreases n,
    {
        if n == 0 {
            seq![]
        } else {
            self.dense_line(k, (n - 1) as nat, dark_filled).push(
                half_block(
                    self.filled(n - 1, 2 * k, dark_filled),
                    self.filled(n - 1, 2 * k + 1, dark_filled),
                ),
            )
        }
    }

    /// The first `n` half-block lines, separated by line breaks.
    pub open spec fn dense_lines(self, n: nat, dark_filled: bool) -> Seq<char>
        decreases n,
    {
        let w = self.canvas_width() as nat;
        if n == 0 {
            seq![]
        } else if n == 1 {
            self.dense_line(0, w, dark_filled)
        } else {
            self.dense_lines((n - 1) as nat, dark_filled) + seq!['\n'] + self.dense_line(
                n - 1,
                w,
                dark_filled,
            )
        }
    }

    /// The whole canvas in half blocks: two rows of cells per line.
    pub open spec fn dense_image(self, dark_filled: bool) -> Seq<char> {
        self.dense_lines(((self.canvas_height() + 1) / 2) as nat, dark_filled)
    }
}

/// The character for two stacked cells, each filled or blank.
pub open spec fn half_block(top: bool, bottom: bool) -> char {
    if top && bottom {
        '\u{2588}'
    } else if top {
        '\u{2580}'
    } else if bottom {
        '\u{2584}'
    } else {
        ' '
    }
}

impl Layout {
    /// The canvas column of the left edge of module `i`.
    pub open spec fn left(self, i: int) -> nat {
        ((self.margin + i % self.width) * self.module_size) as nat
    }

    /// The canvas row of the top edge of module `i`.
    pub open spec fn top(self, i: int) -> nat {
        ((self.margin + i / self.width) * self.module_size) as nat
    }

    /// The dark modules among the first `n`, in order, each written by
    /// `square` from its left edge, top edge and side.
    pub open spec fn dark_squares(self, n: nat, square: spec_fn(nat, nat, nat) -> Seq<char>) -> Seq<
        char,
    >
        decreases n,
    {
        if n == 0 {
            seq![]
        } else {
            let i = n - 1;
            let before = self.dark_squares((n - 1) as nat, square);
            if self.modules[i] {
                before + square(self.left(i), self.top(i), self.module_size as nat)
            } else {
                before
            }
        }
    }

    /// The SVG document: a background path the size of the canvas in the
    /// light color, and one path in the dark color with a square per dark
    /// module.
    pub open spec fn svg_image(self, dark: Seq<char>, light: Seq<char>) -> Seq<char> {
        let w = decimal(self.canvas_width() as nat);
        let h = decimal(self.canvas_height() as nat);
        "<?xml version=\"1.0\" encoding=\"UTF-8\" standalone=\"yes\"?><svg xmlns=\"http://www.w3.org/2000/svg\" version=\"1.1\" width=\""@
            + w + "\" height=\""@ + h + "\" viewBox=\"0 0 "@ + w + " "@ + h
            + "\" shape-rendering=\"crispEdges\"><path d=\"M0 0h"@ + w + "v"@ + h + "H0z\" fill=\""@
            + light + "\"/><path fill=\""@ + dark + "\" d=\""@ + self.dark_squares(
            (self.width * self.height) as nat,
            |l: nat, t: nat, s: nat|
                "M"@ + decimal(l) + " "@ + decimal(t) + "h"@ + decimal(s) + "v"@ + decimal(s) + "h-"@
                    + decimal(s) + "z"@,
        ) + "\"/></svg>"@
    }

    /// The PIC picture: a frame the size of the canvas and a filled box per
    /// dark module, one statement per line, without the last line break.
    pub open spec fn pic_image(self) -> Seq<char> {
        let text = "maxpswid="@ + decimal(self.canvas_width() as nat) + ";maxpsht="@ + decimal(
            self.canvas_height() as nat,
        ) + ";movewid=0;moveht=1;boxwid=1;boxht=1\ndefine p { box wid $3 ht $4 fill 1 thickness 0.1 with .nw at $1,-$2 }\nbox wid maxpswid ht maxpsht with .nw at 0,0\n"@
            + self.dark_squares(
            (self.width * self.height) as nat,
            |l: nat, t: nat, s: nat|
                "p("@ + decimal(l) + ","@ + decimal(t) + ","@ + decimal(s) + ","@ + decimal(s) + ")\n"@,
        );
        text.drop_last()
    }
}

} // verus!
