//! The iTerm2 inline-image protocol: encoding a raster into one escape
//! sequence, and placing that sequence in a cell buffer, either once
//! (`Iterm2`) or re-encoded as the area changes (`StatefulIterm2`).

use crate::buffer::{buffer_cells, set_cell_skip, set_cell_symbol};
use crate::geometry::{FontSize, Rect};
use crate::raster::{ImageSource, Raster};
use crate::text::{decimal, push_decimal};
use vstd::prelude::*;

verus! {

// ---------------------------------------------------------------- placement

/// Where a payload of native size `rect` goes when drawn into `area`: clipped
/// to `area` when `overdraw`, else only when it fits entirely.
pub open spec fn spec_render_area(rect: Rect, area: Rect, overdraw: bool) -> Option<Rect> {
    if overdraw {
        Some(
            Rect {
                x: area.x,
                y: area.y,
                width: if rect.width < area.width { rect.width } else { area.width },
                height: if rect.height < area.height { rect.height } else { area.height },
            },
        )
    } else if rect.width > area.width || rect.height > area.height {
        None
    } else {
        Some(Rect { x: area.x, y: area.y, width: rect.width, height: rect.height })
    }
}

pub fn render_area(rect: Rect, area: Rect, overdraw: bool) -> (r: Option<Rect>)
    ensures
        r == spec_render_area(rect, area, overdraw),
{
    if overdraw {
        return Some(
            Rect::new(
                area.x,
                area.y,
                if rect.width < area.width { rect.width } else { area.width },
                if rect.height < area.height { rect.height } else { area.height },
            ),
        );
    }
    if rect.width > area.width || rect.height > area.height {
        return None;
    }
    Some(Rect::new(area.x, area.y, rect.width, rect.height))
}

/// Cells of `at` other than its top-left one, taken row by row, that come
/// before column `col` of row `row`.
pub open spec fn skipped_before(at: Rect, k: (u16, u16), row: int, col: int) -> bool {
    &&& at.contains(k)
    &&& k != (at.x, at.y)
    &&& (k.1 < row || (k.1 == row && k.0 < col))
}

/// A payload wider or taller than the draw area is never placed without
/// overdraw, so a fixed image that does not fit leaves the buffer untouched.
pub proof fn lemma_oversized_payload_not_placed(rect: Rect, area: Rect)
    requires
        rect.width > area.width || rect.height > area.height,
    ensures
        spec_render_area(rect, area, false) is None,
{
}

/// The cells `cells` with `symbol` in the top-left cell of `at` and the cells
/// that `skipped_before` lists marked skipped.
pub open spec fn painted_upto(
    cells: Map<(u16, u16), (Seq<char>, bool)>,
    at: Rect,
    symbol: Seq<char>,
    row: int,
    col: int,
) -> Map<(u16, u16), (Seq<char>, bool)> {
    Map::new(
        |k: (u16, u16)| cells.dom().contains(k),
        |k: (u16, u16)|
            if k == (at.x, at.y) {
                (symbol, cells[k].1)
            } else if skipped_before(at, k, row, col) {
                (cells[k].0, true)
            } else {
                cells[k]
            },
    )
}

/// The cells `cells` after drawing `symbol` at `at`: the symbol in the top-left
/// cell, every other cell of `at` marked skipped, all else as it was.
pub open spec fn painted(cells: Map<(u16, u16), (Seq<char>, bool)>, at: Rect, symbol: Seq<char>) -> Map<
    (u16, u16),
    (Seq<char>, bool),
> {
    Map::new(
        |k: (u16, u16)| cells.dom().contains(k),
        |k: (u16, u16)|
            if k == (at.x, at.y) {
                (symbol, cells[k].1)
            } else if at.contains(k) {
                (cells[k].0, true)
            } else {
                cells[k]
            },
    )
}

/// Whether a placement covers at least one cell.
pub open spec fn covers_cells(placement: Option<Rect>) -> bool {
    placement matches Some(at) && at.width > 0 && at.height > 0
}

/// Writes `data` into the buffer at `area` for a payload of native size `rect`.
/// When the payload does not fit and `overdraw` is off, or the placement is
/// empty, the buffer is left as it is.
pub fn render(rect: Rect, data: &str, area: Rect, buf: &mut ratatui::buffer::Buffer, overdraw: bool)
    ensures
        !covers_cells(spec_render_area(rect, area, overdraw)) ==> *final(buf) == *old(buf),
        covers_cells(spec_render_area(rect, area, overdraw)) ==> buffer_cells(*final(buf))
            == painted(buffer_cells(*old(buf)), spec_render_area(rect, area, overdraw)->Some_0, data@),
{
    let at = match render_area(rect, area, overdraw) {
        None => {
            // Writing outside the area would let the grid draw text over the image.
            return;
        },
        Some(r) => r,
    };
    if at.width == 0 || at.height == 0 {
        return;
    }
    let ghost cells0 = buffer_cells(*buf);
    set_cell_symbol(buf, at.x, at.y, data);
    let top = at.y;
    let bottom = at.bottom();
    let left = at.x;
    let right = at.right();
    proof {
        assert(buffer_cells(*buf) =~= painted_upto(cells0, at, data@, top as int, left as int));
    }
    let mut y: u16 = top;
    while y < bottom
        invariant
            top == at.y,
            left == at.x,
            bottom == at.spec_bottom(),
            right == at.spec_right(),
            top <= y <= bottom,
            buffer_cells(*buf) == painted_upto(cells0, at, data@, y as int, left as int),
        decreases bottom - y,
    {
        let mut x: u16 = left;
        while x < right
            invariant
                top == at.y,
                left == at.x,
                right == at.spec_right(),
                bottom == at.spec_bottom(),
                top <= y < bottom,
                left <= x,
                buffer_cells(*buf) == painted_upto(cells0, at, data@, y as int, x as int),
            decreases right - x,
        {
            if !(x == left && y == top) {
                set_cell_skip(buf, x, y);
            }
            proof {
                assert(buffer_cells(*buf) =~= painted_upto(
                    cells0,
                    at,
                    data@,
                    y as int,
                    x + 1,
                ));
            }
            x = x + 1;
        }
        proof {
            assert(painted_upto(cells0, at, data@, y as int, x as int) =~= painted_upto(
                cells0,
                at,
                data@,
                y + 1,
                left as int,
            ));
        }
        y = y + 1;
    }
    proof {
        assert(buffer_cells(*buf) =~= painted(cells0, at, data@));
    }
}

// ---------------------------------------------------------------- encoding

#[verifier::external_type_specification]
#[verifier::external_body]
pub struct ExImageError(image::ImageError);

/// The PNG file that image's encoder writes for an RGBA raster.
pub uninterp spec fn png_of(pixels: Seq<u8>, width: u32, height: u32) -> Seq<u8>;

/// The standard, padded base64 text of a byte sequence.
pub uninterp spec fn base64_of(bytes: Seq<u8>) -> Seq<char>;

/// Relies on `image::codecs::png::PngEncoder::write_image` with `Rgba8`, which
/// panics unless the buffer holds exactly four bytes per pixel. Writing into a
/// vector, png's encoder fails only on a zero width or height; otherwise the
/// vector holds the PNG file.
#[verifier::external_body]
fn png_encode(pixels: &[u8], width: u32, height: u32) -> (r: Result<Vec<u8>, image::ImageError>)
    requires
        pixels@.len() == width * height * 4,
    ensures
        (r is Ok) <==> (width > 0 && height > 0),
        r matches Ok(png) ==> png@ == png_of(pixels@, width, height),
{
    let mut png: Vec<u8> = Vec::new();
    let written = image::ImageEncoder::write_image(
        image::codecs::png::PngEncoder::new(&mut png),
        pixels,
        width,
        height,
        image::ExtendedColorType::Rgba8,
    );
    written.map(|_| png)
}

/// Relies on `Display for image::ImageError`, for the message kept with an
/// encoding failure.
#[verifier::external_body]
fn image_error_text(e: &image::ImageError) -> String {
    e.to_string()
}

/// Relies on `base64::engine::general_purpose::STANDARD.encode`.
#[verifier::external_body]
fn base64_encode(bytes: &[u8]) -> (r: String)
    ensures
        r@ == base64_of(bytes@),
{
    base64::Engine::encode(&base64::engine::general_purpose::STANDARD, bytes)
}

/// Why a raster could not be encoded.
#[derive(Clone, Debug, PartialEq, Eq)]
pub enum EncodeError {
    /// Writing the PNG file failed; the encoder's message.
    Png(String),
}

/// The opening bytes of the sequence: bare, or wrapped for tmux passthrough.
pub open spec fn frame_start(is_tmux: bool) -> Seq<char> {
    if is_tmux {
        "\x1bPtmux;\x1b\x1b"@
    } else {
        "\x1b"@
    }
}

/// The closing bytes of the sequence: none, or the end of a tmux passthrough.
pub open spec fn frame_end(is_tmux: bool) -> Seq<char> {
    if is_tmux {
        "\x1b\\"@
    } else {
        Seq::empty()
    }
}

/// The inline-image escape sequence for a PNG file of `size` bytes, of
/// `width` × `height` pixels, whose base64 text is `b64`.
pub open spec fn iterm2_sequence(size: nat, width: nat, height: nat, b64: Seq<char>, is_tmux: bool) -> Seq<
    char,
> {
    frame_start(is_tmux) + "]1337;File=inline=1;size="@ + decimal(size) + ";width="@ + decimal(width)
        + "px;height="@ + decimal(height) + "px;doNotMoveCursor=1:"@ + b64 + "\x07"@ + frame_end(
        is_tmux,
    )
}

/// The inline-image escape sequence of a raster.
pub open spec fn iterm2_payload(img: Raster, is_tmux: bool) -> Seq<char> {
    let png = png_of(img.pixels@, img.width, img.height);
    iterm2_sequence(png.len(), img.width as nat, img.height as nat, base64_of(png), is_tmux)
}

/// Frames an encoded PNG file of `size` bytes and `width` × `height` pixels,
/// given as base64 text, into one inline-image escape sequence.
pub fn frame_sequence(size: usize, width: u32, height: u32, b64: &str, is_tmux: bool) -> (r: String)
    ensures
        r@ == iterm2_sequence(size as nat, width as nat, height as nat, b64@, is_tmux),
{
    let mut s = String::new();
    if is_tmux {
        s.append("\x1bPtmux;\x1b\x1b");
    } else {
        s.append("\x1b");
    }
    s.append("]1337;File=inline=1;size=");
    push_decimal(&mut s, size as u64);
    s.append(";width=");
    push_decimal(&mut s, width as u64);
    s.append("px;height=");
    push_decimal(&mut s, height as u64);
    s.append("px;doNotMoveCursor=1:");
    s.append(b64);
    s.append("\x07");
    if is_tmux {
        s.append("\x1b\\");
    }
    proof {
        assert(s@ =~= iterm2_sequence(size as nat, width as nat, height as nat, b64@, is_tmux));
    }
    s
}

/// Encodes a raster as one inline-image escape sequence: the raster as a PNG
/// file, in base64, framed for a bare terminal or for tmux passthrough. Only
/// an empty raster, which PNG cannot hold, fails.
pub fn encode(img: &Raster, is_tmux: bool) -> (r: Result<String, EncodeError>)
    requires
        img.wf(),
    ensures
        (r is Ok) <==> (img.width > 0 && img.height > 0),
        r matches Ok(s) ==> s@ == iterm2_payload(*img, is_tmux),
{
    match png_encode(img.pixels.as_slice(), img.width, img.height) {
        Ok(png) => {
            let data = base64_encode(png.as_slice());
            Ok(frame_sequence(png.len(), img.width, img.height, data.as_str(), is_tmux))
        },
        Err(e) => Err(EncodeError::Png(image_error_text(&e))),
    }
}

// ---------------------------------------------------------------- adapters

/// An image encoded once: the escape sequence, the cell rectangle it covers,
/// and whether it is framed for tmux passthrough.
#[derive(Clone, Debug)]
pub struct Iterm2 {
    pub data: String,
    pub area: Rect,
    pub is_tmux: bool,
}

/// The raster and cell rectangle an encode starts from: the resized raster when
/// the resize policy gave one, else the source as it is.
pub open spec fn chosen_image(source: ImageSource, resized: Option<(Raster, Rect)>) -> (Raster, Rect) {
    match resized {
        Some(p) => p,
        None => (source.image, source.area),
    }
}

impl Iterm2 {
    /// Encodes `source` once. `resized` is what the resize policy made of the
    /// source for the target area, if it made anything; without it the source
    /// is encoded at its natural size.
    pub fn from_source(source: &ImageSource, resized: Option<(Raster, Rect)>, is_tmux: bool) -> (r:
        Result<Self, EncodeError>)
        requires
            source.wf(),
            resized matches Some(p) ==> p.0.wf(),
        ensures
            (r is Ok) <==> (chosen_image(*source, resized).0.width > 0 && chosen_image(
                *source,
                resized,
            ).0.height > 0),
            r matches Ok(p) ==> p.data@ == iterm2_payload(chosen_image(*source, resized).0, is_tmux)
                && p.area == chosen_image(*source, resized).1 && p.is_tmux == is_tmux,
    {
        let encoded = match &resized {
            Some((image, _)) => encode(image, is_tmux),
            None => encode(&source.image, is_tmux),
        };
        let area = match &resized {
            Some((_, desired)) => *desired,
            None => source.area,
        };
        match encoded {
            Ok(data) => Ok(Iterm2 { data, area, is_tmux }),
            Err(e) => Err(e),
        }
    }

    /// Draws the image at the top-left of `area`, only when it fits there
    /// entirely; otherwise the buffer is left untouched.
    pub fn render(&self, area: Rect, buf: &mut ratatui::buffer::Buffer)
        ensures
            !covers_cells(spec_render_area(self.area, area, false)) ==> *final(buf) == *old(buf),
            covers_cells(spec_render_area(self.area, area, false)) ==> buffer_cells(*final(buf))
                == painted(
                buffer_cells(*old(buf)),
                spec_render_area(self.area, area, false)->Some_0,
                self.data@,
            ),
    {
        render(self.area, self.data.as_str(), area, buf, false)
    }
}

/// An image that is re-encoded whenever its area or its source changes.
/// `hash` is the source fingerprint at the last successful encode (none before
/// the first), and `last_error` the failure of the last encode attempt, if it
/// failed.
#[derive(Debug)]
pub struct StatefulIterm2 {
    source: ImageSource,
    font_size: FontSize,
    current: Iterm2,
    hash: Option<u64>,
    last_error: Option<EncodeError>,
}

impl StatefulIterm2 {
    pub closed spec fn spec_source(&self) -> ImageSource {
        self.source
    }

    pub closed spec fn spec_font_size(&self) -> FontSize {
        self.font_size
    }

    pub closed spec fn spec_current(&self) -> Iterm2 {
        self.current
    }

    pub closed spec fn spec_hash(&self) -> Option<u64> {
        self.hash
    }

    pub closed spec fn spec_last_error(&self) -> Option<EncodeError> {
        self.last_error
    }

    /// Whether the next encode must happen whatever the geometry: the source
    /// has changed since the last successful encode, or there was none.
    pub open spec fn spec_force(&self) -> bool {
        self.spec_hash() != Some(self.spec_source().hash)
    }

    pub open spec fn wf(&self) -> bool {
        self.spec_source().wf()
    }

    /// An adapter that has not encoded anything yet.
    pub fn new(source: ImageSource, font_size: FontSize, is_tmux: bool) -> (r: StatefulIterm2)
        requires
            source.wf(),
        ensures
            r.wf(),
            r.spec_source() == source,
            r.spec_font_size() == font_size,
            r.spec_current().data@ == Seq::<char>::empty(),
            r.spec_current().area == (Rect { x: 0, y: 0, width: 0, height: 0 }),
            r.spec_current().is_tmux == is_tmux,
            r.spec_hash() is None,
            r.spec_last_error() is None,
    {
        StatefulIterm2 {
            source,
            font_size,
            current: Iterm2 { data: String::new(), area: Rect::zero(), is_tmux },
            hash: None,
            last_error: None,
        }
    }

    pub fn source(&self) -> (r: &ImageSource)
        ensures
            *r == self.spec_source(),
    {
        &self.source
    }

    pub fn font_size(&self) -> (r: FontSize)
        ensures
            r == self.spec_font_size(),
    {
        self.font_size
    }

    /// The cell rectangle of the payload shown now.
    pub fn current_area(&self) -> (r: Rect)
        ensures
            r == self.spec_current().area,
    {
        self.current.area
    }

    /// The force flag to hand to the resize policy (see `spec_force`).
    pub fn force(&self) -> (r: bool)
        ensures
            r == self.spec_force(),
    {
        match self.hash {
            Some(h) => h != self.source.hash,
            None => true,
        }
    }

    /// The failure of the last encode attempt, if it failed.
    pub fn last_error(&self) -> (r: &Option<EncodeError>)
        ensures
            *r == self.spec_last_error(),
    {
        &self.last_error
    }

    /// Re-encodes for `area`. `resized` is what the resize policy returned for
    /// this area, the current rectangle and the force flag: a new raster and
    /// its rectangle, or nothing when no new encode is warranted. A zero-sized
    /// area changes nothing; a failed encode keeps the payload shown before and
    /// records the failure.
    pub fn resize_encode(&mut self, area: Rect, resized: Option<(Raster, Rect)>)
        requires
            resized matches Some(p) ==> p.0.wf(),
        ensures
            resize_encode_post(*old(self), *final(self), area, resized),
    {
        if area.width == 0 || area.height == 0 {
            return;
        }
        match resized {
            Some((img, rect)) => {
                let is_tmux = self.current.is_tmux;
                match encode(&img, is_tmux) {
                    Ok(data) => {
                        self.current = Iterm2 { data, area: rect, is_tmux };
                        self.hash = Some(self.source.hash);
                        self.last_error = None;
                    },
                    Err(e) => {
                        self.last_error = Some(e);
                    },
                }
            },
            None => {},
        }
    }

    /// Draws the current payload at the top-left of `area`, clipped to it; an
    /// empty placement leaves the buffer as it is.
    pub fn render(&self, area: Rect, buf: &mut ratatui::buffer::Buffer)
        ensures
            !covers_cells(spec_render_area(self.spec_current().area, area, true)) ==> *final(buf)
                == *old(buf),
            covers_cells(spec_render_area(self.spec_current().area, area, true)) ==> buffer_cells(
                *final(buf),
            ) == painted(
                buffer_cells(*old(buf)),
                spec_render_area(self.spec_current().area, area, true)->Some_0,
                self.spec_current().data@,
            ),
    {
        render(self.current.area, self.current.data.as_str(), area, buf, true)
    }
}

/// One encode attempt of `img` for rectangle `rect` moved the adapter from
/// `pre` to `post`: a raster with pixels encodes and `post` shows the new
/// payload; an empty one fails, and `post` still shows what `pre` showed, with
/// the failure recorded.
pub open spec fn re_encoded(pre: StatefulIterm2, post: StatefulIterm2, img: Raster, rect: Rect) -> bool {
    &&& post.spec_source() == pre.spec_source()
    &&& post.spec_font_size() == pre.spec_font_size()
    &&& post.spec_current().is_tmux == pre.spec_current().is_tmux
    &&& if img.width > 0 && img.height > 0 {
        &&& post.spec_current().data@ == iterm2_payload(img, pre.spec_current().is_tmux)
        &&& post.spec_current().area == rect
        &&& post.spec_hash() == Some(pre.spec_source().hash)
        &&& post.spec_last_error() is None
    } else {
        &&& post.spec_current() == pre.spec_current()
        &&& post.spec_hash() == pre.spec_hash()
        &&& post.spec_last_error() is Some
    }
}

/// What `resize_encode(area, resized)` does to an adapter: nothing for a
/// zero-sized area or when the resize policy returned nothing, else one encode
/// attempt.
pub open spec fn resize_encode_post(
    pre: StatefulIterm2,
    post: StatefulIterm2,
    area: Rect,
    resized: Option<(Raster, Rect)>,
) -> bool {
    if area.width == 0 || area.height == 0 || resized is None {
        post == pre
    } else {
        re_encoded(pre, post, resized->Some_0.0, resized->Some_0.1)
    }
}

/// Two `resize_encode` calls in a row over an unchanged source: after the
/// first has encoded a raster with pixels the source is no longer forced, so the
/// resize policy is asked without force and the same area and rectangle, and
/// when it then returns nothing the second call leaves the adapter exactly as
/// the first left it, with no encode.
pub proof fn lemma_unchanged_source_not_re_encoded(
    s0: StatefulIterm2,
    s1: StatefulIterm2,
    s2: StatefulIterm2,
    area: Rect,
    img: Raster,
    rect: Rect,
)
    requires
        resize_encode_post(s0, s1, area, Some((img, rect))),
        area.width != 0 && area.height != 0,
        img.width > 0 && img.height > 0,
        resize_encode_post(s1, s2, area, None),
    ensures
        !s1.spec_force(),
        s1.spec_last_error() is None,
        s1.spec_current().area == rect,
        s1.spec_source() == s0.spec_source(),
        s2 == s1,
{
}

/// A zero-sized area never discards what an adapter has encoded, whatever the
/// resize policy returned.
pub proof fn lemma_collapsed_area_keeps_state(
    pre: StatefulIterm2,
    post: StatefulIterm2,
    area: Rect,
    resized: Option<(Raster, Rect)>,
)
    requires
        area.width == 0 || area.height == 0,
        resize_encode_post(pre, post, area, resized),
    ensures
        post == pre,
        post.spec_current() == pre.spec_current(),
        post.spec_hash() == pre.spec_hash(),
{
}

} // verus!
