use vstd::prelude::*;

use super::draw::Tint;
use crate::chess::types::{Color, Role};

verus! {

/// Row of the sprite sheet: one colour scheme per row.
#[derive(Debug, Clone, Copy, PartialEq, Eq, Structural)]
pub enum SpriteRow {
    Brown,
    Yellow,
    DarkBlue,
    LightBlue,
}

impl SpriteRow {
    pub open spec fn spec_index(self) -> nat {
        match self {
            SpriteRow::Brown => 0,
            SpriteRow::Yellow => 1,
            SpriteRow::DarkBlue => 2,
            SpriteRow::LightBlue => 3,
        }
    }

    pub open spec fn for_color_spec(color: Color) -> SpriteRow {
        match color {
            Color::White => SpriteRow::LightBlue,
            Color::Black => SpriteRow::DarkBlue,
        }
    }

    /// White pieces are drawn light blue, black pieces dark blue.
    pub fn for_color(color: Color) -> (r: SpriteRow)
        ensures
            r == Self::for_color_spec(color),
    {
        match color {
            Color::White => SpriteRow::LightBlue,
            Color::Black => SpriteRow::DarkBlue,
        }
    }

    pub fn index(self) -> (i: usize)
        ensures
            i == self.spec_index(),
    {
        match self {
            SpriteRow::Brown => 0,
            SpriteRow::Yellow => 1,
            SpriteRow::DarkBlue => 2,
            SpriteRow::LightBlue => 3,
        }
    }
}

/// Column of the sprite sheet: one piece kind per column.
#[derive(Debug, Clone, Copy, PartialEq, Eq, Structural)]
pub enum SpriteColumn {
    Pawn,
    Knight,
    Bishop,
    Rook,
    Queen,
    King,
}

impl SpriteColumn {
    pub open spec fn spec_index(self) -> nat {
        match self {
            SpriteColumn::Pawn => 0,
            SpriteColumn::Knight => 1,
            SpriteColumn::Bishop => 2,
            SpriteColumn::Rook => 3,
            SpriteColumn::Queen => 4,
            SpriteColumn::King => 5,
        }
    }

    pub open spec fn from_role_spec(role: Role) -> SpriteColumn {
        match role {
            Role::Pawn => SpriteColumn::Pawn,
            Role::Knight => SpriteColumn::Knight,
            Role::Bishop => SpriteColumn::Bishop,
            Role::Rook => SpriteColumn::Rook,
            Role::Queen => SpriteColumn::Queen,
            Role::King => SpriteColumn::King,
        }
    }

    /// The column that holds a piece kind.
    pub fn from_role(role: Role) -> (c: SpriteColumn)
        ensures
            c == Self::from_role_spec(role),
    {
        match role {
            Role::Pawn => SpriteColumn::Pawn,
            Role::Knight => SpriteColumn::Knight,
            Role::Bishop => SpriteColumn::Bishop,
            Role::Rook => SpriteColumn::Rook,
            Role::Queen => SpriteColumn::Queen,
            Role::King => SpriteColumn::King,
        }
    }

    pub fn index(self) -> (i: usize)
        ensures
            i == self.spec_index(),
    {
        match self {
            SpriteColumn::Pawn => 0,
            SpriteColumn::Knight => 1,
            SpriteColumn::Bishop => 2,
            SpriteColumn::Rook => 3,
            SpriteColumn::Queen => 4,
            SpriteColumn::King => 5,
        }
    }
}


/// A colour as red, green and blue.
pub type Rgb = (u8, u8, u8);

/// The pixels of a decoded picture, row by row, with its size.
pub struct DecodedImage {
    pub width: u32,
    pub height: u32,
    pub pixels: Vec<Rgb>,
}

/// What the `image` crate decodes a file's bytes to: its width, its height
/// and its pixels as RGB, row by row; `None` when it reads no picture.
pub uninterp spec fn png_pixels(bytes: Seq<u8>) -> Option<(u32, u32, Seq<Rgb>)>;

/// Decodes a picture file.
///
/// Calls `image::load_from_memory` and `DynamicImage::to_rgb8`; the contract
/// claims that the result is a function of the bytes (`png_pixels`) and that
/// an RGB image holds one pixel per column and row, as `ImageBuffer` does.
#[verifier::external_body]
fn decode_png(bytes: &[u8]) -> (r: Option<DecodedImage>)
    ensures
        match r {
            Some(img) => png_pixels(bytes@) == Some((img.width, img.height, img.pixels@))
                && img.pixels@.len() == img.width * img.height,
            None => png_pixels(bytes@) is None,
        },
{
    let img = image::load_from_memory(bytes).ok()?.to_rgb8();
    let pixels = img.pixels().map(|p| (p[0], p[1], p[2])).collect();
    Some(DecodedImage { width: img.width(), height: img.height(), pixels })
}

/// The bytes decode to a picture of at least 60 by 40 pixels: six pieces
/// by four colour schemes.
pub open spec fn sheet_ok(bytes: Seq<u8>) -> bool {
    &&& png_pixels(bytes) is Some
    &&& png_pixels(bytes)->Some_0.0 >= 60
    &&& png_pixels(bytes)->Some_0.1 >= 40
}

/// Width and height of one piece picture in the sprite sheet.
pub const SPRITE_WIDTH: u32 = 10;

pub const SPRITE_HEIGHT: u32 = 10;

/// A small picture, row by row.
pub struct Sprite {
    pub width: usize,
    pub height: usize,
    pub pixels: Vec<Rgb>,
}

impl Sprite {
    /// It has one pixel per column and row.
    pub open spec fn wf(&self) -> bool {
        self.pixels@.len() == self.width * self.height
    }

    pub open spec fn spec_pixel(&self, x: int, y: int) -> Rgb {
        self.pixels@[y * self.width + x]
    }

    /// A black picture.
    pub fn new(width: usize, height: usize) -> (s: Sprite)
        requires
            width * height <= usize::MAX,
        ensures
            s.wf(),
            s.width == width,
            s.height == height,
            forall|i: int| 0 <= i < s.pixels@.len() ==> s.pixels@[i] == (0u8, 0u8, 0u8),
    {
        let n = width * height;
        let mut pixels: Vec<Rgb> = Vec::new();
        let mut i: usize = 0;
        while i < n
            invariant
                i <= n,
                pixels@.len() == i,
                forall|k: int| 0 <= k < i ==> pixels@[k] == (0u8, 0u8, 0u8),
            decreases n - i,
        {
            pixels.push((0, 0, 0));
            i = i + 1;
        }
        Sprite { width, height, pixels }
    }

    /// The pixel in column `x` of row `y`.
    pub fn pixel(&self, x: usize, y: usize) -> (p: Rgb)
        requires
            x < self.width,
            y < self.height,
            self.wf(),
        ensures
            p == self.spec_pixel(x as int, y as int),
    {
        let n = self.pixels.len();
        proof {
            lemma_cell_index(x as int, y as int, self.width as int, self.height as int);
        }
        self.pixels[y * self.width + x]
    }
}

/// The cell `(x, y)` of a `w` by `h` grid lies within its `w * h` cells.
proof fn lemma_cell_index(x: int, y: int, w: int, h: int)
    requires
        0 <= x < w,
        0 <= y < h,
    ensures
        0 <= y * w,
        0 <= y * w + x < w * h,
{
    assert(y * w + x < w * h) by (nonlinear_arith)
        requires
            0 <= x < w,
            0 <= y < h,
    ;
    assert(0 <= y * w) by (nonlinear_arith)
        requires
            0 <= y,
            0 <= w,
    ;
}

/// The pieces cut out of the sprite sheet: four colour schemes of six
/// pieces, row by row.
pub struct SpriteCache {
    sprites: Vec<Sprite>,
}

/// The picture at `(x0, y0)` in a decoded sheet, ten by ten pixels.
pub open spec fn cut_out(pixels: Seq<Rgb>, width: int, x0: int, y0: int) -> Seq<Rgb> {
    Seq::new(100, |i: int| pixels[(y0 + i / 10) * width + x0 + i % 10])
}

impl SpriteCache {
    /// Twenty-four ten-by-ten pictures.
    pub closed spec fn wf(&self) -> bool {
        &&& self.sprites@.len() == 24
        &&& forall|i: int| 0 <= i < 24 ==> {
            let s = #[trigger] self.sprites@[i];
            s.width == 10 && s.height == 10 && s.wf()
        }
    }

    /// The picture of a colour scheme and a piece.
    pub closed spec fn spec_get(&self, row: SpriteRow, col: SpriteColumn) -> Sprite {
        self.sprites@[(row.spec_index() * 6 + col.spec_index()) as int]
    }

    /// The pictures of the sheet a decoded file holds.
    pub closed spec fn holds(&self, img: (u32, u32, Seq<Rgb>)) -> bool {
        forall|r: int, c: int|
            0 <= r < 4 && 0 <= c < 6 ==> (#[trigger] self.sprites@[r * 6 + c]).pixels@ == cut_out(
                img.2,
                img.0 as int,
                c * 10,
                r * 10,
            )
    }

    /// Reads the sheet: the pictures of a PNG at least 60 by 40 pixels, cut
    /// into a grid of ten-by-ten squares; `None` for bytes that hold no such
    /// picture.
    pub fn load(png: &[u8]) -> (r: Option<SpriteCache>)
        ensures
            match r {
                Some(cache) => cache.wf() && sheet_ok(png@) && cache.holds(png_pixels(png@)->Some_0),
                None => !sheet_ok(png@),
            },
    {
        let img = match decode_png(png) {
            Some(img) => img,
            None => return None,
        };
        if img.width < 60 || img.height < 40 {
            return None;
        }
        let mut sprites: Vec<Sprite> = Vec::new();
        let mut row: u32 = 0;
        while row < 4
            invariant
                row <= 4,
                img.width >= 60,
                img.height >= 40,
                img.pixels@.len() == img.width * img.height,
                sprites@.len() == row * 6,
                forall|i: int| 0 <= i < sprites@.len() ==> {
                    let s = #[trigger] sprites@[i];
                    s.width == 10 && s.height == 10 && s.wf()
                },
                forall|r: int, c: int|
                    0 <= r < row && 0 <= c < 6 ==> (#[trigger] sprites@[r * 6 + c]).pixels@ == cut_out(
                        img.pixels@,
                        img.width as int,
                        c * 10,
                        r * 10,
                    ),
            decreases 4 - row,
        {
            let mut col: u32 = 0;
            while col < 6
                invariant
                    row < 4,
                    col <= 6,
                    img.width >= 60,
                    img.height >= 40,
                    img.pixels@.len() == img.width * img.height,
                    sprites@.len() == row * 6 + col,
                    forall|i: int| 0 <= i < sprites@.len() ==> {
                        let s = #[trigger] sprites@[i];
                        s.width == 10 && s.height == 10 && s.wf()
                    },
                    forall|r: int, c: int|
                        (0 <= r < row && 0 <= c < 6) || (r == row && 0 <= c < col) ==> (#[trigger] sprites@[r
                            * 6 + c]).pixels@ == cut_out(img.pixels@, img.width as int, c * 10, r * 10),
                decreases 6 - col,
            {
                let sprite = Self::extract_sprite(&img, col * SPRITE_WIDTH, row * SPRITE_HEIGHT);
                sprites.push(sprite);
                col = col + 1;
            }
            row = row + 1;
        }
        let cache = SpriteCache { sprites };
        proof {
            assert(cache.holds((img.width, img.height, img.pixels@)));
        }
        Some(cache)
    }

    /// The ten-by-ten picture whose top-left pixel is `(x_offset, y_offset)`.
    fn extract_sprite(img: &DecodedImage, x_offset: u32, y_offset: u32) -> (s: Sprite)
        requires
            img.pixels@.len() == img.width * img.height,
            x_offset + 10 <= img.width,
            y_offset + 10 <= img.height,
        ensures
            s.width == 10 && s.height == 10 && s.wf(),
            s.pixels@ == cut_out(img.pixels@, img.width as int, x_offset as int, y_offset as int),
    {
        let mut sprite = Sprite::new(10, 10);
        let w = img.width as usize;
        let mut y: usize = 0;
        while y < 10
            invariant
                y <= 10,
                img.pixels@.len() == img.width * img.height,
                x_offset + 10 <= img.width,
                y_offset + 10 <= img.height,
                w == img.width,
                sprite.width == 10 && sprite.height == 10 && sprite.wf(),
                forall|i: int|
                    0 <= i < y * 10 ==> sprite.pixels@[i] == (#[trigger] cut_out(
                        img.pixels@,
                        img.width as int,
                        x_offset as int,
                        y_offset as int,
                    ))[i],
            decreases 10 - y,
        {
            let mut x: usize = 0;
            while x < 10
                invariant
                    y < 10,
                    x <= 10,
                    img.pixels@.len() == img.width * img.height,
                    x_offset + 10 <= img.width,
                    y_offset + 10 <= img.height,
                    w == img.width,
                    sprite.width == 10 && sprite.height == 10 && sprite.wf(),
                    forall|i: int|
                        0 <= i < y * 10 + x ==> sprite.pixels@[i] == (#[trigger] cut_out(
                            img.pixels@,
                            img.width as int,
                            x_offset as int,
                            y_offset as int,
                        ))[i],
                decreases 10 - x,
            {
                let sy = y_offset as usize + y;
                let sx = x_offset as usize + x;
                let n = img.pixels.len();
                proof {
                    lemma_cell_index(sx as int, sy as int, w as int, img.height as int);
                }
                let p = img.pixels[sy * w + sx];
                let k = y * 10 + x;
                proof {
                    let ghost i = k as int;
                    assert(i / 10 == y as int && i % 10 == x as int);
                }
                sprite.pixels.set(k, p);
                x = x + 1;
            }
            y = y + 1;
        }
        proof {
            assert(sprite.pixels@ =~= cut_out(img.pixels@, img.width as int, x_offset as int, y_offset as int));
        }
        sprite
    }

    /// The picture of a colour scheme and a piece.
    pub fn get(&self, row: SpriteRow, col: SpriteColumn) -> (s: &Sprite)
        requires
            self.wf(),
        ensures
            *s == self.spec_get(row, col),
            s.width == 10 && s.height == 10 && s.wf(),
    {
        &self.sprites[row.index() * 6 + col.index()]
    }
}

/// Two caches read from one sheet show every piece in every colour scheme
/// alike: the same ten-by-ten picture, pixel for pixel. Reading the sheet
/// again therefore changes no picture.
pub proof fn lemma_same_sheet_same_pictures(
    a: SpriteCache,
    b: SpriteCache,
    img: (u32, u32, Seq<Rgb>),
    row: SpriteRow,
    col: SpriteColumn,
)
    requires
        a.wf(),
        b.wf(),
        a.holds(img),
        b.holds(img),
    ensures
        a.spec_get(row, col).pixels@ == b.spec_get(row, col).pixels@,
        a.spec_get(row, col).width == b.spec_get(row, col).width,
        a.spec_get(row, col).height == b.spec_get(row, col).height,
{
    let r = row.spec_index() as int;
    let c = col.spec_index() as int;
    assert(0 <= r < 4 && 0 <= c < 6);
    assert(a.sprites@[r * 6 + c].pixels@ == cut_out(img.2, img.0 as int, c * 10, r * 10));
    assert(b.sprites@[r * 6 + c].pixels@ == cut_out(img.2, img.0 as int, c * 10, r * 10));
    assert(0 <= r * 6 + c < 24);
    assert(a.sprites@[r * 6 + c].width == 10 && b.sprites@[r * 6 + c].width == 10);
}

/// Reads the pieces' pictures from the sprite sheet's bytes.
pub fn init_sprites(png: &[u8]) -> (r: Option<SpriteCache>)
    ensures
        match r {
            Some(cache) => cache.wf() && sheet_ok(png@) && cache.holds(png_pixels(png@)->Some_0),
            None => !sheet_ok(png@),
        },
{
    SpriteCache::load(png)
}

/// The picture of a piece: light blue for White, dark blue for Black;
/// none while no sheet has been read.
pub fn get_sprite<'a>(cache: Option<&'a SpriteCache>, color: Color, role: Role) -> (s: Option<&'a Sprite>)
    requires
        cache matches Some(c) ==> c.wf(),
    ensures
        match cache {
            Some(c) => s == Some(&c.spec_get(SpriteRow::for_color_spec(color), SpriteColumn::from_role_spec(role))),
            None => s is None,
        },
        s matches Some(p) ==> p.width == 10 && p.height == 10 && p.wf(),
{
    match cache {
        Some(c) => Some(c.get(SpriteRow::for_color(color), SpriteColumn::from_role(role))),
        None => None,
    }
}

/// A colour for the terminal.
pub fn rgb_to_ansi(r: u8, g: u8, b: u8) -> (t: Tint)
    ensures
        t == Tint::Rgb(r, g, b),
{
    Tint::Rgb(r, g, b)
}

/// One terminal cell showing two pixels, one above the other: a character
/// (a space, an upper or lower half block, or a full block) and its colours.
#[derive(Debug, Clone, Copy, PartialEq, Eq, Structural)]
pub struct HalfBlockPixel {
    pub char: char,
    pub fg: Tint,
    pub bg: Tint,
}

/// Black pixels are the background.
pub open spec fn spec_transparent(p: Rgb) -> bool {
    p.0 == 0 && p.1 == 0 && p.2 == 0
}

pub open spec fn abs_diff(a: u8, b: u8) -> int {
    if a >= b {
        a - b
    } else {
        b - a
    }
}

/// Two colours differ by less than 30 over their three channels.
pub open spec fn spec_similar(a: Rgb, b: Rgb) -> bool {
    abs_diff(a.0, b.0) + abs_diff(a.1, b.1) + abs_diff(a.2, b.2) < 30
}

pub open spec fn tint_of(p: Rgb) -> Tint {
    Tint::Rgb(p.0, p.1, p.2)
}

/// The cell for a pixel above another: blank where both are background,
/// a half block where one is, a full block where both have nearly the same
/// colour, else an upper half block over the lower colour.
pub open spec fn half_block(top: Rgb, bottom: Rgb, bg: Tint) -> HalfBlockPixel {
    if spec_transparent(top) && spec_transparent(bottom) {
        HalfBlockPixel { char: ' ', fg: bg, bg: bg }
    } else if spec_transparent(bottom) {
        HalfBlockPixel { char: '▀', fg: tint_of(top), bg: bg }
    } else if spec_transparent(top) {
        HalfBlockPixel { char: '▄', fg: tint_of(bottom), bg: bg }
    } else if spec_similar(top, bottom) {
        HalfBlockPixel { char: '█', fg: tint_of(top), bg: bg }
    } else {
        HalfBlockPixel { char: '▀', fg: tint_of(top), bg: tint_of(bottom) }
    }
}

/// The pixel below the top one of a cell row, black past the last row.
pub open spec fn lower_pixel(s: Sprite, col: int, row: int) -> Rgb {
    if 2 * row + 1 < s.height {
        s.spec_pixel(col, 2 * row + 1)
    } else {
        (0u8, 0u8, 0u8)
    }
}

/// A picture drawn with half blocks: each cell row shows two pixel rows.
pub open spec fn spec_half_blocks(s: Sprite, bg: Tint) -> Seq<Seq<HalfBlockPixel>> {
    Seq::new(
        ((s.height + 1) / 2) as nat,
        |row: int| Seq::new(s.width as nat, |col: int| half_block(s.spec_pixel(col, 2 * row), lower_pixel(s, col, row), bg)),
    )
}

/// The rows of half-block cells as plain sequences.
pub open spec fn block_rows(v: Seq<Vec<HalfBlockPixel>>) -> Seq<Seq<HalfBlockPixel>> {
    v.map_values(|r: Vec<HalfBlockPixel>| r@)
}

/// Draws a picture with half blocks over a background colour.
pub fn render_sprite_half_blocks(sprite: &Sprite, bg_color: Tint) -> (r: Vec<Vec<HalfBlockPixel>>)
    requires
        sprite.wf(),
        sprite.height < usize::MAX,
    ensures
        block_rows(r@) == spec_half_blocks(*sprite, bg_color),
{
    let rows = (sprite.height + 1) / 2;
    let mut output: Vec<Vec<HalfBlockPixel>> = Vec::new();
    let mut row: usize = 0;
    while row < rows
        invariant
            sprite.wf(),
            sprite.height < usize::MAX,
            rows == (sprite.height + 1) / 2,
            row <= rows,
            output@.len() == row,
            forall|i: int| 0 <= i < row ==> (#[trigger] output@[i])@ == spec_half_blocks(*sprite, bg_color)[i],
        decreases rows - row,
    {
        let mut cells: Vec<HalfBlockPixel> = Vec::new();
        let mut col: usize = 0;
        while col < sprite.width
            invariant
                sprite.wf(),
                row < rows,
                rows == (sprite.height + 1) / 2,
                col <= sprite.width,
                cells@.len() == col,
                forall|j: int| 0 <= j < col ==> (#[trigger] cells@[j]) == spec_half_blocks(*sprite, bg_color)[row as int][j],
            decreases sprite.width - col,
        {
            let top = sprite.pixel(col, row * 2);
            let bottom = if row * 2 + 1 < sprite.height {
                sprite.pixel(col, row * 2 + 1)
            } else {
                (0, 0, 0)
            };
            let top_clear = is_transparent(&top);
            let bottom_clear = is_transparent(&bottom);
            let cell = if top_clear && bottom_clear {
                HalfBlockPixel { char: ' ', fg: bg_color, bg: bg_color }
            } else if bottom_clear {
                HalfBlockPixel { char: '▀', fg: rgb_to_ansi(top.0, top.1, top.2), bg: bg_color }
            } else if top_clear {
                HalfBlockPixel { char: '▄', fg: rgb_to_ansi(bottom.0, bottom.1, bottom.2), bg: bg_color }
            } else if pixels_similar(&top, &bottom) {
                HalfBlockPixel { char: '█', fg: rgb_to_ansi(top.0, top.1, top.2), bg: bg_color }
            } else {
                HalfBlockPixel {
                    char: '▀',
                    fg: rgb_to_ansi(top.0, top.1, top.2),
                    bg: rgb_to_ansi(bottom.0, bottom.1, bottom.2),
                }
            };
            cells.push(cell);
            col = col + 1;
        }
        proof {
            assert(cells@ =~= spec_half_blocks(*sprite, bg_color)[row as int]);
        }
        output.push(cells);
        row = row + 1;
    }
    proof {
        assert(block_rows(output@) =~= spec_half_blocks(*sprite, bg_color));
    }
    output
}

/// Whether a pixel is black, the sheet's background.
fn is_transparent(pixel: &Rgb) -> (b: bool)
    ensures
        b == spec_transparent(*pixel),
{
    pixel.0 == 0 && pixel.1 == 0 && pixel.2 == 0
}

/// Whether two colours differ by less than 30 over their three channels.
fn pixels_similar(a: &Rgb, b: &Rgb) -> (r: bool)
    ensures
        r == spec_similar(*a, *b),
{
    let d0: u32 = if a.0 >= b.0 { (a.0 - b.0) as u32 } else { (b.0 - a.0) as u32 };
    let d1: u32 = if a.1 >= b.1 { (a.1 - b.1) as u32 } else { (b.1 - a.1) as u32 };
    let d2: u32 = if a.2 >= b.2 { (a.2 - b.2) as u32 } else { (b.2 - a.2) as u32 };
    d0 + d1 + d2 < 30
}

} // verus!
