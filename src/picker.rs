//! Choosing a graphics protocol for the terminal, and building image
//! bindings for it.

use crate::geometry::{FontSize, Rect};
use crate::raster::{ImageSource, Raster};
use crate::text::{seq_contains, str_contains, str_equal};
use vstd::prelude::*;

verus! {

/// The graphics protocols an image can be shown with.
#[derive(PartialEq, Eq, Structural, Clone, Debug, Copy)]
pub enum BackendType {
    Halfblocks,
    Sixel,
    Kitty,
}

/// Manual cycling order: Halfblocks, Sixel, Kitty, then Halfblocks again.
pub open spec fn next_backend(b: BackendType) -> BackendType {
    match b {
        BackendType::Halfblocks => BackendType::Sixel,
        BackendType::Sixel => BackendType::Kitty,
        BackendType::Kitty => BackendType::Halfblocks,
    }
}

impl BackendType {
    pub fn next(&self) -> (r: BackendType)
        ensures
            r == next_backend(*self),
    {
        match self {
            BackendType::Halfblocks => BackendType::Sixel,
            BackendType::Sixel => BackendType::Kitty,
            BackendType::Kitty => BackendType::Halfblocks,
        }
    }
}

/// `c` is `b`, or is reached from it in one or two steps of the cycle.
pub open spec fn within_two_steps(b: BackendType, c: BackendType) -> bool {
    c == b || c == next_backend(b) || c == next_backend(next_backend(b))
}

/// Cycling from any backend visits the other two, each once, in the declared
/// order, and is back at the start after three steps.
pub proof fn lemma_cycle_visits_each_once(b: BackendType)
    ensures
        next_backend(next_backend(next_backend(b))) == b,
        b != next_backend(b),
        b != next_backend(next_backend(b)),
        next_backend(b) != next_backend(next_backend(b)),
        forall|c: BackendType| #[trigger] within_two_steps(b, c),
{
    assert forall|c: BackendType| #[trigger] within_two_steps(b, c) by {
        match c {
            BackendType::Halfblocks => {},
            BackendType::Sixel => {},
            BackendType::Kitty => {},
        }
    }
}

/// Why a picker or a binding could not be made.
#[derive(PartialEq, Eq, Structural, Clone, Debug, Copy)]
pub enum PickerError {
    /// A pixel dimension, the number of columns or rows, or a dimension of the
    /// cell size is zero.
    FontSizeZero,
    /// Every image identifier of this session has been handed out.
    ImageIdsExhausted,
}

/// Pixel and character dimensions of the terminal window.
#[derive(PartialEq, Eq, Structural, Clone, Debug, Copy)]
pub struct Winsize {
    pub ws_row: u16,
    pub ws_col: u16,
    pub ws_xpixel: u16,
    pub ws_ypixel: u16,
}

/// The cell size of a terminal window: its pixel size divided by its number of
/// columns and rows.
pub fn font_size(winsize: Winsize) -> (r: Result<FontSize, PickerError>)
    ensures
        r == (if winsize.ws_xpixel == 0 || winsize.ws_ypixel == 0 || winsize.ws_col == 0
            || winsize.ws_row == 0 {
            Err::<FontSize, PickerError>(PickerError::FontSizeZero)
        } else {
            Ok(((winsize.ws_xpixel / winsize.ws_col) as u16, (winsize.ws_ypixel / winsize.ws_row) as u16))
        }),
{
    let x = winsize.ws_xpixel;
    let y = winsize.ws_ypixel;
    let cols = winsize.ws_col;
    let rows = winsize.ws_row;
    if x == 0 || y == 0 || cols == 0 || rows == 0 {
        return Err(PickerError::FontSizeZero);
    }
    Ok((x / cols, y / rows))
}

/// Terminal types known to show sixel graphics.
pub open spec fn is_sixel_term(t: Seq<char>) -> bool {
    t == "mlterm"@ || t == "yaft-256color"@ || t == "foot"@ || t == "foot-extra"@ || t
        == "alacritty"@
}

/// Terminal types that may or may not show sixel graphics: the terminal has to
/// be asked.
pub open spec fn is_ambiguous_term(t: Seq<char>) -> bool {
    t == "st-256color"@ || t == "xterm"@ || t == "xterm-256color"@
}

/// The terminal types known to show sixel graphics get sixel whatever the
/// terminal program and whatever the device attributes exchange gave.
pub proof fn lemma_known_sixel_terms_ignore_reply(
    term: Seq<char>,
    program: Option<Seq<char>>,
    device_attrs: Option<Seq<char>>,
)
    requires
        is_sixel_term(term),
    ensures
        guessed_backend(Some(term), program, device_attrs) == BackendType::Sixel,
        guessed_backend(Some("alacritty"@), program, device_attrs) == BackendType::Sixel,
{
}

/// `xterm-256color` leaves sixel support to the device attributes exchange:
/// without a reply the lowest-fidelity backend is chosen.
pub proof fn lemma_xterm_without_reply_is_halfblocks(program: Option<Seq<char>>)
    ensures
        guessed_backend(Some("xterm-256color"@), program, None) == BackendType::Halfblocks,
{
    reveal_strlit("xterm-256color");
    reveal_strlit("mlterm");
    reveal_strlit("yaft-256color");
    reveal_strlit("foot");
    reveal_strlit("foot-extra");
    reveal_strlit("alacritty");
    assert(!is_sixel_term("xterm-256color"@)) by {
        assert("xterm-256color"@.len() == 14);
        assert("yaft-256color"@.len() == 13);
        assert("mlterm"@.len() == 6);
        assert("foot"@.len() == 4);
        assert("foot-extra"@.len() == 10);
        assert("alacritty"@.len() == 9);
    }
}

/// Whether a primary device attributes reply lists sixel graphics (attribute 4).
pub open spec fn attrs_list_sixel(response: Seq<char>) -> bool {
    seq_contains(response, ";4;"@) || seq_contains(response, ";4c"@)
}

/// The backend chosen for the terminal type `term`, the terminal program
/// `program`, and the terminal's reply to a device attributes query, if one was
/// received.
pub open spec fn guessed_backend(
    term: Option<Seq<char>>,
    program: Option<Seq<char>>,
    device_attrs: Option<Seq<char>>,
) -> BackendType {
    match term {
        None => BackendType::Halfblocks,
        Some(t) => if is_sixel_term(t) {
            BackendType::Sixel
        } else if is_ambiguous_term(t) {
            match device_attrs {
                Some(r) => if attrs_list_sixel(r) {
                    BackendType::Sixel
                } else {
                    BackendType::Halfblocks
                },
                None => BackendType::Halfblocks,
            }
        } else if seq_contains(t, "kitty"@) {
            BackendType::Kitty
        } else if program == Some("MacTerm"@) {
            BackendType::Sixel
        } else {
            BackendType::Halfblocks
        },
    }
}

pub open spec fn opt_view(s: Option<&str>) -> Option<Seq<char>> {
    match s {
        Some(v) => Some(v@),
        None => None,
    }
}

/// Whether the terminal type is one whose sixel support has to be asked of the
/// terminal itself.
pub fn needs_device_attrs(term: &str) -> (r: bool)
    ensures
        r == is_ambiguous_term(term@),
{
    str_equal(term, "st-256color") || str_equal(term, "xterm") || str_equal(term, "xterm-256color")
}

/// Reads a primary device attributes reply: sixel when it lists attribute 4,
/// nothing when it does not.
pub fn check_device_attrs(response: &str) -> (r: Option<BackendType>)
    ensures
        r == (if attrs_list_sixel(response@) {
            Some(BackendType::Sixel)
        } else {
            None
        }),
{
    if str_contains(response, ";4;") || str_contains(response, ";4c") {
        Some(BackendType::Sixel)
    } else {
        None
    }
}

fn is_sixel_terminal(t: &str) -> (r: bool)
    ensures
        r == is_sixel_term(t@),
{
    str_equal(t, "mlterm") || str_equal(t, "yaft-256color") || str_equal(t, "foot") || str_equal(
        t,
        "foot-extra",
    ) || str_equal(t, "alacritty")
}

/// Chooses a backend from the terminal's identity: `term` and `term_program`
/// as the environment gives them, and `device_attrs` the reply to a device
/// attributes query when one was made and answered in time.
pub fn guess_backend(
    term: Option<&str>,
    term_program: Option<&str>,
    device_attrs: Option<&str>,
) -> (r: BackendType)
    ensures
        r == guessed_backend(opt_view(term), opt_view(term_program), opt_view(device_attrs)),
{
    match term {
        None => BackendType::Halfblocks,
        Some(t) => {
            if is_sixel_terminal(t) {
                BackendType::Sixel
            } else if needs_device_attrs(t) {
                match device_attrs {
                    Some(response) => match check_device_attrs(response) {
                        Some(b) => b,
                        None => BackendType::Halfblocks,
                    },
                    None => BackendType::Halfblocks,
                }
            } else if str_contains(t, "kitty") {
                BackendType::Kitty
            } else {
                match term_program {
                    Some(p) => if str_equal(p, "MacTerm") {
                        BackendType::Sixel
                    } else {
                        BackendType::Halfblocks
                    },
                    None => BackendType::Halfblocks,
                }
            }
        },
    }
}

/// Everything a fixed backend needs to encode an image once: the backend, the
/// image, the area to fit it in, the background fill and, for backends that
/// need one, the image identifier allocated for it.
#[derive(Debug)]
pub struct FixedBinding {
    pub backend_type: BackendType,
    pub source: ImageSource,
    pub size: Rect,
    pub background_color: Option<[u8; 3]>,
    pub image_id: Option<u8>,
}

/// Everything a resizing backend needs: the backend and, for backends that
/// need one, the image identifier allocated for it.
#[derive(PartialEq, Eq, Structural, Clone, Debug, Copy)]
pub struct StatefulBinding {
    pub backend_type: BackendType,
    pub image_id: Option<u8>,
}

/// Whether a backend addresses images by a session-unique identifier.
pub open spec fn uses_image_ids(b: BackendType) -> bool {
    b == BackendType::Kitty
}

/// Session state for building image bindings: the terminal's cell size, an
/// optional background fill, the active backend, and the last image
/// identifier handed out.
#[derive(Clone, Copy, Debug)]
pub struct Picker {
    font_size: FontSize,
    background_color: Option<[u8; 3]>,
    backend_type: BackendType,
    image_counter: u8,
}

impl Picker {
    pub closed spec fn spec_font_size(&self) -> FontSize {
        self.font_size
    }

    pub closed spec fn spec_background_color(&self) -> Option<[u8; 3]> {
        self.background_color
    }

    pub closed spec fn spec_backend_type(&self) -> BackendType {
        self.backend_type
    }

    /// The last image identifier handed out; zero before the first.
    pub closed spec fn spec_image_counter(&self) -> u8 {
        self.image_counter
    }

    /// A picker for cells of `font_size` pixels, with no image identifier
    /// handed out yet.
    pub fn new(
        font_size: FontSize,
        backend_type: BackendType,
        background_color: Option<[u8; 3]>,
    ) -> (r: Result<Picker, PickerError>)
        ensures
            r matches Ok(p) && p.spec_font_size() == font_size && p.spec_backend_type()
                == backend_type && p.spec_background_color() == background_color
                && p.spec_image_counter() == 0,
    {
        Ok(Picker { font_size, background_color, backend_type, image_counter: 0 })
    }

    /// Chooses the backend from the terminal's identity (see [`guess_backend`])
    /// and makes it the active one.
    pub fn guess(
        &mut self,
        term: Option<&str>,
        term_program: Option<&str>,
        device_attrs: Option<&str>,
    ) -> (r: BackendType)
        ensures
            r == guessed_backend(opt_view(term), opt_view(term_program), opt_view(device_attrs)),
            final(self).spec_backend_type() == r,
            keeps_session(*old(self), *final(self)),
    {
        self.backend_type = guess_backend(term, term_program, device_attrs);
        self.backend_type
    }

    /// Makes `backend_type` the active backend.
    pub fn set(&mut self, backend_type: BackendType)
        ensures
            final(self).spec_backend_type() == backend_type,
            keeps_session(*old(self), *final(self)),
    {
        self.backend_type = backend_type;
    }

    /// Makes the next backend in the cycling order the active one.
    pub fn cycle_backends(&mut self) -> (r: BackendType)
        ensures
            r == next_backend(old(self).spec_backend_type()),
            final(self).spec_backend_type() == r,
            keeps_session(*old(self), *final(self)),
    {
        self.backend_type = self.backend_type.next();
        self.backend_type
    }

    /// Takes the next image identifier when the active backend needs one.
    fn allocate_id(&mut self) -> (r: Result<Option<u8>, PickerError>)
        ensures
            allocated(*old(self), *final(self), r),
    {
        if self.backend_type == BackendType::Kitty {
            if self.image_counter == 255 {
                return Err(PickerError::ImageIdsExhausted);
            }
            self.image_counter = self.image_counter + 1;
            Ok(Some(self.image_counter))
        } else {
            Ok(None)
        }
    }

    /// A fixed binding of `image` for the active backend, to fit into `size`.
    /// A cell size with a zero dimension cannot measure the image, and is
    /// refused before any identifier is taken.
    pub fn new_static_fit(&mut self, image: Raster, size: Rect) -> (r: Result<
        FixedBinding,
        PickerError,
    >)
        requires
            image.wf(),
        ensures
            old(self).spec_font_size().0 == 0 || old(self).spec_font_size().1 == 0 ==> r
                == Err::<FixedBinding, PickerError>(PickerError::FontSizeZero) && *final(self)
                == *old(self),
            old(self).spec_font_size().0 > 0 && old(self).spec_font_size().1 > 0 ==> allocated(
                *old(self),
                *final(self),
                id_of_fixed(r),
            ),
            r matches Ok(b) ==> b.backend_type == old(self).spec_backend_type() && b.source.wf()
                && b.source.image == image && b.source.font_size == old(self).spec_font_size()
                && b.size == size && b.background_color == old(self).spec_background_color(),
    {
        if self.font_size.0 == 0 || self.font_size.1 == 0 {
            return Err(PickerError::FontSizeZero);
        }
        let id = self.allocate_id();
        match id {
            Ok(image_id) => {
                let source = ImageSource::new(image, self.font_size);
                Ok(
                    FixedBinding {
                        backend_type: self.backend_type,
                        source,
                        size,
                        background_color: self.background_color,
                        image_id,
                    },
                )
            },
            Err(e) => Err(e),
        }
    }

    /// A resizing binding for the active backend.
    pub fn new_state(&mut self) -> (r: Result<StatefulBinding, PickerError>)
        ensures
            allocated(*old(self), *final(self), id_of_stateful(r)),
            r matches Ok(b) ==> b.backend_type == old(self).spec_backend_type(),
    {
        let id = self.allocate_id();
        match id {
            Ok(image_id) => Ok(StatefulBinding { backend_type: self.backend_type, image_id }),
            Err(e) => Err(e),
        }
    }

    pub fn backend_type(&self) -> (r: &BackendType)
        ensures
            *r == self.spec_backend_type(),
    {
        &self.backend_type
    }

    pub fn font_size(&self) -> (r: FontSize)
        ensures
            r == self.spec_font_size(),
    {
        self.font_size
    }

    pub fn background_color(&self) -> (r: Option<[u8; 3]>)
        ensures
            r == self.spec_background_color(),
    {
        self.background_color
    }
}

/// `post` has the cell size, background fill and identifier counter of `pre`.
pub open spec fn keeps_session(pre: Picker, post: Picker) -> bool {
    &&& post.spec_font_size() == pre.spec_font_size()
    &&& post.spec_background_color() == pre.spec_background_color()
    &&& post.spec_image_counter() == pre.spec_image_counter()
}

pub open spec fn id_of_fixed(r: Result<FixedBinding, PickerError>) -> Result<Option<u8>, PickerError> {
    match r {
        Ok(b) => Ok(b.image_id),
        Err(e) => Err(e),
    }
}

pub open spec fn id_of_stateful(r: Result<StatefulBinding, PickerError>) -> Result<
    Option<u8>,
    PickerError,
> {
    match r {
        Ok(b) => Ok(b.image_id),
        Err(e) => Err(e),
    }
}

/// How building a binding moves a picker from `pre` to `post` and which
/// identifier it yields: backends with identifiers take the next one, fails
/// once all are used, and the others leave the counter alone.
pub open spec fn allocated(pre: Picker, post: Picker, id: Result<Option<u8>, PickerError>) -> bool {
    &&& post.spec_font_size() == pre.spec_font_size()
    &&& post.spec_background_color() == pre.spec_background_color()
    &&& post.spec_backend_type() == pre.spec_backend_type()
    &&& if !uses_image_ids(pre.spec_backend_type()) {
        id == Ok::<Option<u8>, PickerError>(None) && post.spec_image_counter()
            == pre.spec_image_counter()
    } else if pre.spec_image_counter() == u8::MAX {
        id == Err::<Option<u8>, PickerError>(PickerError::ImageIdsExhausted)
            && post.spec_image_counter() == pre.spec_image_counter()
    } else {
        post.spec_image_counter() == pre.spec_image_counter() + 1 && id == Ok::<
            Option<u8>,
            PickerError,
        >(Some(post.spec_image_counter()))
    }
}

/// Image identifiers never repeat within a session: any number of bindings
/// built in a row leave the counter no lower, and each identifier handed out
/// is above every earlier one.
pub proof fn lemma_ids_increase(pre: Picker, post: Picker, id: Result<Option<u8>, PickerError>)
    requires
        allocated(pre, post, id),
    ensures
        post.spec_image_counter() >= pre.spec_image_counter(),
        id matches Ok(Some(n)) ==> n > pre.spec_image_counter() && n == post.spec_image_counter(),
{
}

} // verus!
