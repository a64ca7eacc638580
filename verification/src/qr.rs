//! The picture of a ticket as a QR code.
use image::{DynamicImage, GrayImage, ImageBuffer, ImageFormat, Luma};
use qrcode::{Color, QrCode};
use std::io::Cursor;
use vstd::arithmetic::div_mod::{lemma_fundamental_div_mod, lemma_fundamental_div_mod_converse};
use vstd::prelude::*;
use vstd::string::*;
use vstd::utf8::encode_utf8;

use crate::text::{blank, blank_trims_to_nothing, trim};

verus! {

/// The light border of a QR code, in modules.
pub const QUIET_ZONE: u32 = 4;

/// The width that the picture is to reach, in pixels.
pub const TARGET_WIDTH: u32 = 240;

/// A picture in shades of grey.
#[verifier::external_body]
pub struct Raster {
    inner: GrayImage,
}

/// The width of a picture.
pub uninterp spec fn raster_width(raster: Raster) -> int;

/// The height of a picture.
pub uninterp spec fn raster_height(raster: Raster) -> int;

/// The pixels of a picture, by column and row.
pub uninterp spec fn raster_pixels(raster: Raster) -> Map<(int, int), u8>;

/// All pixels of one shade.
pub open spec fn plain(width: int, height: int, shade: u8) -> Map<(int, int), u8> {
    Map::new(|p: (int, int)| 0 <= p.0 < width && 0 <= p.1 < height, |p: (int, int)| shade)
}

/// `ImageBuffer::from_pixel`: a picture of one shade. It panics where the picture is larger than
/// a vector can be.
#[verifier::external_body]
fn new_raster(width: u32, height: u32, shade: u8) -> (r: Raster)
    requires
        width * height <= isize::MAX,
    ensures
        raster_width(r) == width,
        raster_height(r) == height,
        raster_pixels(r) == plain(width as int, height as int, shade),
{
    Raster { inner: ImageBuffer::from_pixel(width, height, Luma([shade])) }
}

/// `ImageBuffer::put_pixel`: changes one pixel. It panics outside the picture.
#[verifier::external_body]
fn put_pixel(raster: &mut Raster, x: u32, y: u32, shade: u8)
    requires
        x < raster_width(*old(raster)),
        y < raster_height(*old(raster)),
    ensures
        raster_width(*final(raster)) == raster_width(*old(raster)),
        raster_height(*final(raster)) == raster_height(*old(raster)),
        raster_pixels(*final(raster)) == raster_pixels(*old(raster)).insert(
            (x as int, y as int),
            shade,
        ),
{
    raster.inner.put_pixel(x, y, Luma([shade]));
}

/// The bytes of an optional list of bytes.
pub open spec fn opt_bytes(bytes: Option<Vec<u8>>) -> Option<Seq<u8>> {
    match bytes {
        Some(list) => Some(list@),
        None => None,
    }
}

/// What `DynamicImage::write_to` makes of a picture in shades of grey, in the PNG format.
pub uninterp spec fn png_encoding(
    width: int,
    height: int,
    pixels: Map<(int, int), u8>,
) -> Option<Seq<u8>>;

/// `DynamicImage::write_to`: the picture in the PNG format. It fails only where the picture has no
/// width or no height.
#[verifier::external_body]
fn encode_png(raster: Raster) -> (r: Option<Vec<u8>>)
    ensures
        opt_bytes(r) == png_encoding(
            raster_width(raster),
            raster_height(raster),
            raster_pixels(raster),
        ),
        0 < raster_width(raster) && 0 < raster_height(raster) ==> r is Some,
{
    let mut png = Vec::new();
    let mut cursor = Cursor::new(&mut png);
    match DynamicImage::ImageLuma8(raster.inner).write_to(&mut cursor, ImageFormat::Png) {
        Ok(_) => Some(png),
        Err(_) => None,
    }
}

/// A QR code: a square of modules, row by row, each dark or light.
#[derive(Debug, PartialEq, Eq)]
pub struct QrSymbol {
    pub side: usize,
    pub dark: Vec<bool>,
}

/// The mathematical value of a [`QrSymbol`].
pub struct SymbolView {
    pub side: int,
    pub dark: Seq<bool>,
}

/// The value of an optional QR code.
pub open spec fn opt_symbol(symbol: Option<QrSymbol>) -> Option<SymbolView> {
    match symbol {
        Some(s) => Some(SymbolView { side: s.side as int, dark: s.dark@ }),
        None => None,
    }
}

/// What `QrCode::new` makes of some bytes.
pub uninterp spec fn qr_symbol(data: Seq<u8>) -> Option<SymbolView>;

/// `QrCode::new`, with `QrCode::width` and `QrCode::to_colors`: the QR code of some bytes, or
/// nothing where there are too many. It is one of the forty normal versions, with 4 modules more
/// to a side from one version to the next, up from 21.
#[verifier::external_body]
fn encode_symbol(data: &[u8]) -> (r: Option<QrSymbol>)
    ensures
        opt_symbol(r) == qr_symbol(data@),
        r matches Some(symbol) ==> 21 <= symbol.side <= 177 && symbol.dark@.len() == symbol.side
            * symbol.side,
{
    match QrCode::new(data) {
        Ok(code) => {
            let dark = code.to_colors().into_iter().map(|color| color == Color::Dark).collect();
            Some(QrSymbol { side: code.width(), dark })
        },
        Err(_) => None,
    }
}

/// How many pixels a side of a module takes: as few as make the picture, border and all, reach
/// its width.
pub open spec fn module_scale(side: int) -> int {
    (TARGET_WIDTH + (side + 8) - 1) / (side + 8)
}

/// The width of the picture.
pub open spec fn picture_size(side: int) -> int {
    (side + 8) * module_scale(side)
}

/// The shade of a pixel: black within a dark module, else white.
pub open spec fn module_shade(side: int, dark: Seq<bool>, x: int, y: int) -> u8 {
    let column = x / module_scale(side) - QUIET_ZONE;
    let row = y / module_scale(side) - QUIET_ZONE;
    if 0 <= column < side && 0 <= row < side && dark[row * side + column] {
        0
    } else {
        255
    }
}

/// The pixels of the picture of a QR code.
pub open spec fn picture(side: int, dark: Seq<bool>) -> Map<(int, int), u8> {
    let size = picture_size(side);
    Map::new(
        |p: (int, int)| 0 <= p.0 < size && 0 <= p.1 < size,
        |p: (int, int)| module_shade(side, dark, p.0, p.1),
    )
}

/// A square of pixels is black, and the others are as they were.
spec fn block_drawn(
    before: Map<(int, int), u8>,
    after: Map<(int, int), u8>,
    x0: int,
    y0: int,
    scale: int,
) -> bool {
    &&& after.dom() == before.dom()
    &&& forall|p: (int, int)| #[trigger]
        before.contains_key(p) ==> after[p] == if x0 <= p.0 < x0 + scale && y0 <= p.1 < y0 + scale {
            0u8
        } else {
            before[p]
        }
}

/// Draws a black square.
fn draw_block(raster: &mut Raster, x0: u32, y0: u32, scale: u32)
    requires
        x0 + scale <= raster_width(*old(raster)) <= u32::MAX,
        y0 + scale <= raster_height(*old(raster)) <= u32::MAX,
        raster_pixels(*old(raster)).dom() == plain(
            raster_width(*old(raster)),
            raster_height(*old(raster)),
            0,
        ).dom(),
    ensures
        raster_width(*final(raster)) == raster_width(*old(raster)),
        raster_height(*final(raster)) == raster_height(*old(raster)),
        block_drawn(
            raster_pixels(*old(raster)),
            raster_pixels(*final(raster)),
            x0 as int,
            y0 as int,
            scale as int,
        ),
{
    let ghost before = raster_pixels(*raster);
    let ghost width = raster_width(*raster);
    let ghost height = raster_height(*raster);
    let mut dy: u32 = 0;
    while dy < scale
        invariant
            dy <= scale,
            x0 + scale <= width <= u32::MAX,
            y0 + scale <= height <= u32::MAX,
            before.dom() == plain(width, height, 0).dom(),
            raster_width(*raster) == width,
            raster_height(*raster) == height,
            raster_pixels(*raster).dom() == before.dom(),
            forall|p: (int, int)| #[trigger]
                before.contains_key(p) ==> raster_pixels(*raster)[p] == if x0 <= p.0 < x0 + scale
                    && y0 <= p.1 < y0 + dy {
                    0u8
                } else {
                    before[p]
                },
        decreases scale - dy,
    {
        let mut dx: u32 = 0;
        while dx < scale
            invariant
                dy < scale,
                dx <= scale,
                x0 + scale <= width <= u32::MAX,
                y0 + scale <= height <= u32::MAX,
                before.dom() == plain(width, height, 0).dom(),
                raster_width(*raster) == width,
                raster_height(*raster) == height,
                raster_pixels(*raster).dom() == before.dom(),
                forall|p: (int, int)| #[trigger]
                    before.contains_key(p) ==> raster_pixels(*raster)[p] == if x0 <= p.0 < x0
                        + scale && y0 <= p.1 < y0 + dy || (x0 <= p.0 < x0 + dx && p.1 == y0 + dy) {
                        0u8
                    } else {
                        before[p]
                    },
            decreases scale - dx,
        {
            put_pixel(raster, x0 + dx, y0 + dy, 0);
            assert(before.contains_key(((x0 + dx) as int, (y0 + dy) as int)));
            assert(raster_pixels(*raster).dom() =~= before.dom());
            dx = dx + 1;
        }
        dy = dy + 1;
    }
}

/// A pixel lies within the columns, or rows, of a module exactly where its place says so.
proof fn lemma_module_of(i: int, module: int, scale: int)
    requires
        scale > 0,
        i >= 0,
    ensures
        (module * scale <= i < module * scale + scale) <==> i / scale == module,
{
    if module * scale <= i < module * scale + scale {
        lemma_fundamental_div_mod_converse(i, scale, module, i - module * scale);
    }
    lemma_fundamental_div_mod(i, scale);
    assert(scale * (i / scale) == (i / scale) * scale) by (nonlinear_arith);
}

/// How far the picture of a QR code has been drawn: the modules of the rows before `row`, and
/// those of that row before `column`.
spec fn drawn(
    pixels: Map<(int, int), u8>,
    side: int,
    dark: Seq<bool>,
    row: int,
    column: int,
) -> bool {
    let size = picture_size(side);
    let scale = module_scale(side);
    &&& pixels.dom() == plain(size, size, 0).dom()
    &&& forall|p: (int, int)| #[trigger]
        pixels.contains_key(p) ==> pixels[p] == {
            let c = p.0 / scale - QUIET_ZONE;
            let r = p.1 / scale - QUIET_ZONE;
            if 0 <= c < side && 0 <= r < side && (r < row || (r == row && c < column)) && dark[r
                * side + c] {
                0u8
            } else {
                255u8
            }
        }
}

/// The scale is at least one and makes the picture reach its width, but not by a whole module
/// more.
proof fn lemma_scale(side: int)
    requires
        side >= 0,
    ensures
        module_scale(side) >= 1,
        TARGET_WIDTH <= picture_size(side) < TARGET_WIDTH + side + 8,
{
    let n = side + 8;
    let s = module_scale(side);
    lemma_fundamental_div_mod(TARGET_WIDTH + n - 1, n);
    assert(n * s == picture_size(side));
    assert(s >= 1) by (nonlinear_arith)
        requires
            n >= 8,
            n * s >= 240,
    ;
}

/// How many pixels a side of a module takes.
fn scale_for(side: u32) -> (r: u32)
    requires
        side + 248 <= u32::MAX,
    ensures
        r == module_scale(side as int),
{
    let n: u32 = side + QUIET_ZONE * 2;
    let whole: u32 = TARGET_WIDTH / n;
    let mut scale: u32 = if whole < 1 {
        1
    } else {
        whole
    };
    proof {
        lemma_scale(side as int);
        lemma_fundamental_div_mod(TARGET_WIDTH as int, n as int);
        if whole < 1 {
            assert(n > 240) by (nonlinear_arith)
                requires
                    TARGET_WIDTH == n * whole + TARGET_WIDTH as int % n as int,
                    TARGET_WIDTH == 240,
                    whole == 0,
                    0 <= TARGET_WIDTH as int % n as int,
                    (TARGET_WIDTH as int % n as int) < n,
            ;
        }
    }
    assert(n * scale <= u32::MAX) by (nonlinear_arith)
        requires
            whole >= 1 ==> n * whole <= 240,
            scale == if whole < 1 {
                1
            } else {
                whole
            },
            n <= u32::MAX,
    ;
    let ghost first = scale as int;
    if n * scale < TARGET_WIDTH {
        scale = scale + 1;
    }
    proof {
        assert(n * (first + 1) == n * first + n && n * (first - 1) == n * first - n)
            by (nonlinear_arith);
        assert(n * 0 == 0) by (nonlinear_arith);
        assert(n * scale >= 240 && n * (scale - 1) < 240);
        let r = TARGET_WIDTH + n - 1 - n * scale;
        assert(0 <= r < n) by (nonlinear_arith)
            requires
                r == 240 + n - 1 - n * scale,
                n >= 8,
                n * scale >= 240,
                n * (scale - 1) < 240,
        ;
        assert(n * scale == scale * n) by (nonlinear_arith);
        lemma_fundamental_div_mod_converse(TARGET_WIDTH + n - 1, n as int, scale as int, r);
    }
    scale
}

/// Drawing the next module goes one step further.
proof fn lemma_draw_module(
    before: Map<(int, int), u8>,
    after: Map<(int, int), u8>,
    side: int,
    dark: Seq<bool>,
    row: int,
    column: int,
)
    requires
        side > 0,
        0 <= row < side,
        0 <= column < side,
        drawn(before, side, dark, row, column),
        ({
            let scale = module_scale(side);
            if dark[row * side + column] {
                block_drawn(
                    before,
                    after,
                    (column + QUIET_ZONE) * scale,
                    (row + QUIET_ZONE) * scale,
                    scale,
                )
            } else {
                after == before
            }
        }),
    ensures
        drawn(after, side, dark, row, column + 1),
{
    let scale = module_scale(side);
    lemma_scale(side);
    assert forall|p: (int, int)| #[trigger] after.contains_key(p) implies after[p] == {
        let c = p.0 / scale - QUIET_ZONE;
        let r = p.1 / scale - QUIET_ZONE;
        if 0 <= c < side && 0 <= r < side && (r < row || (r == row && c < column + 1)) && dark[r
            * side + c] {
            0u8
        } else {
            255u8
        }
    } by {
        assert(before.contains_key(p));
        lemma_module_of(p.0, column + QUIET_ZONE, scale);
        lemma_module_of(p.1, row + QUIET_ZONE, scale);
    }
}

/// Draws a QR code of so many modules to a side, in black on white with a light border.
pub fn draw_qr(side: u32, dark: &Vec<bool>) -> (r: Raster)
    requires
        side > 0,
        dark@.len() == side * side,
        (side + 248) * (side + 248) <= isize::MAX,
    ensures
        raster_width(r) == picture_size(side as int),
        raster_height(r) == picture_size(side as int),
        raster_pixels(r) == picture(side as int, dark@),
{
    let ghost n = side as int;
    proof {
        lemma_scale(n);
        let size = picture_size(n);
        assert(side + 248 <= u32::MAX && size * size <= isize::MAX) by (nonlinear_arith)
            requires
                240 <= size < side + 248,
                (side + 248) * (side + 248) <= isize::MAX,
                isize::MAX <= 0x7fff_ffff_ffff_ffff,
        ;
    }
    let scale: u32 = scale_for(side);
    let size: u32 = (side + QUIET_ZONE * 2) * scale;
    let mut raster: Raster = new_raster(size, size, 255);
    assert(drawn(raster_pixels(raster), n, dark@, 0, 0));
    let mut y: u32 = 0;
    while y < side
        invariant
            y <= side,
            n == side,
            side > 0,
            side + 248 <= u32::MAX,
            dark@.len() == side * side,
            scale == module_scale(n),
            size == picture_size(n),
            raster_width(raster) == size,
            raster_height(raster) == size,
            drawn(raster_pixels(raster), n, dark@, y as int, 0),
        decreases side - y,
    {
        let mut x: u32 = 0;
        while x < side
            invariant
                x <= side,
                y < side,
                n == side,
                side > 0,
                side + 248 <= u32::MAX,
                dark@.len() == side * side,
                scale == module_scale(n),
                size == picture_size(n),
                raster_width(raster) == size,
                raster_height(raster) == size,
                drawn(raster_pixels(raster), n, dark@, y as int, x as int),
            decreases side - x,
        {
            proof {
                lemma_scale(n);
                assert(dark.len() == side * side);
                assert(y * side + x < side * side && 0 <= y * side) by (nonlinear_arith)
                    requires
                        x < side,
                        y < side,
                ;
                assert((x + 4) * scale + scale <= size && (y + 4) * scale + scale <= size
                    && 0 <= (x + 4) * scale && 0 <= (y + 4) * scale) by (nonlinear_arith)
                    requires
                        x < side,
                        y < side,
                        scale >= 1,
                        size == (side + 8) * scale,
                ;
            }
            let index: usize = (y as usize * side as usize) + x as usize;
            let ghost before = raster_pixels(raster);
            if dark[index] {
                let start_x: u32 = (x + QUIET_ZONE) * scale;
                let start_y: u32 = (y + QUIET_ZONE) * scale;
                draw_block(&mut raster, start_x, start_y, scale);
            }
            proof {
                lemma_draw_module(before, raster_pixels(raster), n, dark@, y as int, x as int);
            }
            x = x + 1;
        }
        y = y + 1;
    }
    assert(raster_pixels(raster) =~= picture(n, dark@));
    raster
}

/// The picture has the size that was asked for: it is at least that wide, but not by a whole module
/// more, and square.
pub proof fn picture_has_its_size(side: int, dark: Seq<bool>, x: int, y: int)
    requires
        side > 0,
    ensures
        TARGET_WIDTH <= picture_size(side) < TARGET_WIDTH + side + 2 * QUIET_ZONE,
        picture(side, dark).contains_key((x, y)) <==> 0 <= x < picture_size(side) && 0 <= y
            < picture_size(side),
{
    lemma_scale(side);
}

/// The picture shows the code: every pixel of a module is black where the module is dark and white
/// where it is light.
pub proof fn picture_shows_the_code(
    side: int,
    dark: Seq<bool>,
    row: int,
    column: int,
    dx: int,
    dy: int,
)
    requires
        0 <= row < side,
        0 <= column < side,
        dark.len() == side * side,
        0 <= dx < module_scale(side),
        0 <= dy < module_scale(side),
    ensures
        ({
            let x = (column + QUIET_ZONE) * module_scale(side) + dx;
            let y = (row + QUIET_ZONE) * module_scale(side) + dy;
            &&& picture(side, dark).contains_key((x, y))
            &&& picture(side, dark)[(x, y)] == if dark[row * side + column] {
                0u8
            } else {
                255u8
            }
        }),
{
    let scale = module_scale(side);
    let x = (column + QUIET_ZONE) * scale + dx;
    let y = (row + QUIET_ZONE) * scale + dy;
    assert(0 <= x < (side + 8) * scale && 0 <= y < (side + 8) * scale) by (nonlinear_arith)
        requires
            0 <= row < side,
            0 <= column < side,
            0 <= dx < scale,
            0 <= dy < scale,
            x == (column + 4) * scale + dx,
            y == (row + 4) * scale + dy,
    ;
    lemma_module_of(x, column + QUIET_ZONE, scale);
    lemma_module_of(y, row + QUIET_ZONE, scale);
}

/// The border is light: a pixel before the first module or behind the last one, in its row or its
/// column, is white.
pub proof fn border_is_light(side: int, dark: Seq<bool>, x: int, y: int)
    requires
        side > 0,
        picture(side, dark).contains_key((x, y)),
        ({
            let first = QUIET_ZONE * module_scale(side);
            let behind = (QUIET_ZONE + side) * module_scale(side);
            x < first || x >= behind || y < first || y >= behind
        }),
    ensures
        picture(side, dark)[(x, y)] == 255,
{
    let scale = module_scale(side);
    lemma_scale(side);
    if x < QUIET_ZONE * scale || x >= (QUIET_ZONE + side) * scale {
        lemma_outside(x, side, scale);
    } else {
        lemma_outside(y, side, scale);
    }
}

/// A place before the first module or behind the last one belongs to none.
proof fn lemma_outside(i: int, side: int, scale: int)
    requires
        scale > 0,
        i >= 0,
        i < QUIET_ZONE * scale || i >= (QUIET_ZONE + side) * scale,
    ensures
        !(0 <= i / scale - QUIET_ZONE < side),
{
    let module = i / scale;
    lemma_module_of(i, module, scale);
    assert(!(4 <= module < 4 + side)) by (nonlinear_arith)
        requires
            scale > 0,
            module * scale <= i < module * scale + scale,
            i < 4 * scale || i >= (4 + side) * scale,
    ;
}

/// The picture of a ticket: none where there is no ticket or it is too long for a QR code.
pub open spec fn ticket_picture(ticket: Seq<char>) -> Option<Seq<u8>> {
    if blank(ticket) {
        None
    } else {
        match qr_symbol(encode_utf8(ticket)) {
            Some(symbol) => png_encoding(
                picture_size(symbol.side),
                picture_size(symbol.side),
                picture(symbol.side, symbol.dark),
            ),
            None => None,
        }
    }
}

/// Makes the picture of a ticket, in the PNG format.
pub fn build_qr(ticket: &str) -> (r: Option<Vec<u8>>)
    ensures
        opt_bytes(r) == ticket_picture(ticket@),
        r is Some <==> !blank(ticket@) && qr_symbol(encode_utf8(ticket@)) is Some,
{
    let inner: &str = trim(ticket);
    proof {
        blank_trims_to_nothing(ticket@, inner@);
    }
    if inner.is_empty() {
        return None;
    }
    match encode_symbol(ticket.as_bytes()) {
        Some(symbol) => {
            assert((symbol.side + 248) * (symbol.side + 248) <= isize::MAX) by (nonlinear_arith)
                requires
                    symbol.side <= 177,
                    isize::MAX >= 0x7fff_ffff,
            ;
            proof {
                lemma_scale(symbol.side as int);
            }
            let raster: Raster = draw_qr(symbol.side as u32, &symbol.dark);
            encode_png(raster)
        },
        None => None,
    }
}

}
