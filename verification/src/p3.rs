//! The text of a plain pixel map: a header, then one line for each pixel,
//! row by row from the top, each row from the left.

use crate::color::Color3d;
use vstd::prelude::*;

verus! {

/// ASCII `P`.
pub const LETTER_P: u8 = 80;

/// ASCII `0`; the other digits follow it.
pub const DIGIT_ZERO: u8 = 48;

/// ASCII `3`.
pub const DIGIT_THREE: u8 = 51;

/// ASCII space.
pub const SPACE: u8 = 32;

/// ASCII line feed.
pub const NEWLINE: u8 = 10;

/// The decimal digits of `n`, as ASCII, without leading zeros.
pub open spec fn decimal(n: nat) -> Seq<u8>
    decreases n,
{
    if n < 10 {
        seq![(DIGIT_ZERO + n) as u8]
    } else {
        decimal(n / 10).push((DIGIT_ZERO + n % 10) as u8)
    }
}

/// The header of an image: the line `P3`, the line of width and height, and
/// the line of the greatest channel value.
pub open spec fn header_text(width: nat, height: nat, max_value: nat) -> Seq<u8> {
    seq![LETTER_P, DIGIT_THREE, NEWLINE] + decimal(width) + seq![SPACE] + decimal(height) + seq![NEWLINE]
        + decimal(max_value) + seq![NEWLINE]
}

/// The line of one pixel: red, green and blue, a space between them.
pub open spec fn color_text(red: nat, green: nat, blue: nat) -> Seq<u8> {
    decimal(red) + seq![SPACE] + decimal(green) + seq![SPACE] + decimal(blue) + seq![NEWLINE]
}

/// The smaller of a channel's level and the greatest value that the image
/// allows.
pub open spec fn clamped(level: nat, max_value: nat) -> nat {
    if level > max_value {
        max_value
    } else {
        level
    }
}

/// How far the writing of an image has got: full rows, and pixels of the
/// row after them.
#[derive(Debug)]
struct Progress {
    width: usize,
    height: usize,
    row: usize,
    column: usize,
}

impl Progress {
    #[verifier::type_invariant]
    spec fn wf(self) -> bool {
        &&& self.row <= self.height
        &&& if self.row < self.height && self.width > 0 {
            self.column < self.width
        } else {
            self.column == 0
        }
        &&& self.width == 0 ==> self.row == 0
    }

    spec fn pixels(&self) -> nat {
        (self.row * self.width + self.column) as nat
    }

    fn new(width: usize, height: usize) -> (progress: Progress)
        ensures
            progress.width == width,
            progress.height == height,
            progress.pixels() == 0,
    {
        Progress { width, height, row: 0, column: 0 }
    }

    fn next(&self) -> (place: Option<(usize, usize)>)
        ensures
            place == if self.pixels() == self.width * self.height {
                None
            } else {
                Some(
                    (
                        (self.pixels() % (self.width as nat)) as usize,
                        (self.height - 1 - self.pixels() / (self.width as nat)) as usize,
                    ),
                )
            },
    {
        proof {
            use_type_invariant(self);
            lemma_place(self.row as nat, self.column as nat, self.width as nat, self.height as nat);
        }
        if self.width == 0 || self.row >= self.height {
            None
        } else {
            Some((self.column, self.height - 1 - self.row))
        }
    }

    fn advance(&mut self)
        ensures
            final(self).width == old(self).width,
            final(self).height == old(self).height,
            final(self).pixels() == if old(self).pixels() == old(self).width * old(self).height {
                old(self).pixels()
            } else {
                old(self).pixels() + 1
            },
    {
        proof {
            use_type_invariant(&*self);
            lemma_place(self.row as nat, self.column as nat, self.width as nat, self.height as nat);
        }
        if self.width > 0 && self.row < self.height {
            if self.column + 1 == self.width {
                assert((self.row + 1) * self.width == self.row * self.width + self.width)
                    by (nonlinear_arith);
                self.column = 0;
                self.row = self.row + 1;
            } else {
                self.column = self.column + 1;
            }
        }
    }
}

/// The text of a P3 image, built in memory. Getting it into a file is the
/// caller's. The image keeps count of the pixels written, and so knows which
/// pixel comes next.
#[derive(Debug)]
pub struct P3File {
    progress: Progress,
    max_value: usize,
    text: Vec<u8>,
}

impl P3File {
    /// The image's width in pixels.
    pub closed spec fn width(&self) -> nat {
        self.progress.width as nat
    }

    /// The image's height in pixels.
    pub closed spec fn height(&self) -> nat {
        self.progress.height as nat
    }

    /// The greatest value of a channel.
    pub closed spec fn max_value(&self) -> nat {
        self.max_value as nat
    }

    /// The text written so far.
    pub closed spec fn view(&self) -> Seq<u8> {
        self.text@
    }

    /// The number of pixels written, counted up to the size of the image.
    pub closed spec fn pixels(&self) -> nat {
        self.progress.pixels()
    }

    /// Every pixel of the image was written.
    pub open spec fn complete(&self) -> bool {
        self.pixels() == self.width() * self.height()
    }

    /// An image of the given size and depth, with nothing written yet.
    pub fn new(width: usize, height: usize, max_value: usize) -> (file: P3File)
        ensures
            file.width() == width,
            file.height() == height,
            file.max_value() == max_value,
            file@ == Seq::<u8>::empty(),
            file.pixels() == 0,
    {
        P3File { progress: Progress::new(width, height), max_value, text: Vec::new() }
    }

    /// Writes the header.
    pub fn write_header(&mut self)
        ensures
            final(self)@ == old(self)@ + header_text(
                old(self).width(),
                old(self).height(),
                old(self).max_value(),
            ),
            final(self).width() == old(self).width(),
            final(self).height() == old(self).height(),
            final(self).max_value() == old(self).max_value(),
            final(self).pixels() == old(self).pixels(),
    {
        self.text.push(LETTER_P);
        self.text.push(DIGIT_THREE);
        self.text.push(NEWLINE);
        push_decimal(&mut self.text, self.progress.width);
        self.text.push(SPACE);
        push_decimal(&mut self.text, self.progress.height);
        self.text.push(NEWLINE);
        push_decimal(&mut self.text, self.max_value);
        self.text.push(NEWLINE);
        assert(self.text@ == old(self).text@ + header_text(
            self.progress.width as nat,
            self.progress.height as nat,
            self.max_value as nat,
        ));
    }

    /// The place of the pixel whose line comes next: its column, counted
    /// from the left, and its row, counted from the bottom. Lines run from
    /// the top row to the bottom row, and within a row from left to right.
    /// There is none once every pixel was written.
    pub fn next_pixel(&self) -> (place: Option<(usize, usize)>)
        ensures
            place == if self.complete() {
                None
            } else {
                Some(
                    (
                        (self.pixels() % self.width()) as usize,
                        (self.height() - 1 - self.pixels() / self.width()) as usize,
                    ),
                )
            },
    {
        self.progress.next()
    }

    /// Writes the line of one pixel. Each channel of `level` is the channel's
    /// value on the image's scale, from 0 to the greatest value: the caller
    /// corrects the color for gamma, by the square root, and multiplies by
    /// the greatest value. The level is cut to a whole number, and one above
    /// the greatest value is written as the greatest value.
    pub fn write_color(&mut self, level: Color3d)
        ensures
            final(self)@ == old(self)@ + color_text(
                clamped(level.0.whole(), old(self).max_value()),
                clamped(level.1.whole(), old(self).max_value()),
                clamped(level.2.whole(), old(self).max_value()),
            ),
            final(self).width() == old(self).width(),
            final(self).height() == old(self).height(),
            final(self).max_value() == old(self).max_value(),
            final(self).pixels() == if old(self).complete() {
                old(self).pixels()
            } else {
                old(self).pixels() + 1
            },
    {
        let red = clamp(level.0.truncate(), self.max_value);
        let green = clamp(level.1.truncate(), self.max_value);
        let blue = clamp(level.2.truncate(), self.max_value);
        push_decimal(&mut self.text, red);
        self.text.push(SPACE);
        push_decimal(&mut self.text, green);
        self.text.push(SPACE);
        push_decimal(&mut self.text, blue);
        self.text.push(NEWLINE);
        self.progress.advance();
    }

    /// The text written so far.
    pub fn as_bytes(&self) -> (text: &Vec<u8>)
        ensures
            text@ == self@,
    {
        &self.text
    }
}

/// A count of pixels as rows and a column: `row` full rows of `width` and
/// `column` more. The count is that of the whole image exactly when every
/// row is full, and otherwise splits back into the row and the column.
proof fn lemma_place(row: nat, column: nat, width: nat, height: nat)
    requires
        row <= height,
        if row < height && width > 0 {
            column < width
        } else {
            column == 0
        },
        width == 0 ==> row == 0,
    ensures
        row * width + column == width * height <==> (width == 0 || row == height),
        width > 0 && row < height ==> (row * width + column) % width == column && (row * width
            + column) / width == row,
{
    if width > 0 {
        if row < height {
            assert(row * width + column < width * height) by (nonlinear_arith)
                requires
                    row + 1 <= height,
                    column < width,
            ;
            vstd::arithmetic::div_mod::lemma_fundamental_div_mod_converse(
                (row * width + column) as int,
                width as int,
                row as int,
                column as int,
            );
        } else {
            assert(row * width == width * height) by (nonlinear_arith)
                requires
                    row == height,
            ;
        }
    } else {
        assert(row * width + column == 0 && width * height == 0) by (nonlinear_arith)
            requires
                width == 0,
                column == 0,
        ;
    }
}

fn clamp(level: usize, max_value: usize) -> (r: usize)
    ensures
        r == clamped(level as nat, max_value as nat),
{
    if level > max_value {
        max_value
    } else {
        level
    }
}

/// Appends the decimal digits of `n` to `text`.
pub fn push_decimal(text: &mut Vec<u8>, n: usize)
    ensures
        final(text)@ == old(text)@ + decimal(n as nat),
    decreases n,
{
    if n >= 10 {
        push_decimal(text, n / 10);
    }
    text.push(DIGIT_ZERO + (n % 10) as u8);
}

} // verus!
