//! The decisions of the OpenGL painter that draws egui's output: texture sampling codes,
//! scissor rectangles and the names of OpenGL errors.
use crate::geometry::{fits_i32, WindowRect};
use crate::window::clamp_spec;
use vstd::prelude::*;
use vstd::string::StrSliceExecFns;

verus! {

pub const GL_NEAREST: u32 = 0x2600;

pub const GL_LINEAR: u32 = 0x2601;

pub const GL_NEAREST_MIPMAP_NEAREST: u32 = 0x2700;

pub const GL_LINEAR_MIPMAP_NEAREST: u32 = 0x2701;

pub const GL_NEAREST_MIPMAP_LINEAR: u32 = 0x2702;

pub const GL_LINEAR_MIPMAP_LINEAR: u32 = 0x2703;

pub const GL_REPEAT: u32 = 0x2901;

pub const GL_CLAMP_TO_EDGE: u32 = 0x812F;

pub const GL_MIRRORED_REPEAT: u32 = 0x8370;

/// How egui asks a texture to be sampled.
#[derive(Debug, Clone, Copy, PartialEq, Eq, Hash, Structural)]
pub enum TextureFilter {
    Nearest,
    Linear,
}

/// How egui asks a texture to be wrapped at its edges.
#[derive(Debug, Clone, Copy, PartialEq, Eq, Hash, Structural)]
pub enum TextureWrapMode {
    ClampToEdge,
    Repeat,
    MirroredRepeat,
}

/// The OpenGL filter for sampling with `filter`, between mipmap levels with `mipmap` if
/// mipmaps are used.
pub open spec fn filter_code(filter: TextureFilter, mipmap: Option<TextureFilter>) -> u32 {
    match (filter, mipmap) {
        (TextureFilter::Linear, None) => GL_LINEAR,
        (TextureFilter::Nearest, None) => GL_NEAREST,
        (TextureFilter::Linear, Some(TextureFilter::Linear)) => GL_LINEAR_MIPMAP_LINEAR,
        (TextureFilter::Nearest, Some(TextureFilter::Linear)) => GL_NEAREST_MIPMAP_LINEAR,
        (TextureFilter::Linear, Some(TextureFilter::Nearest)) => GL_LINEAR_MIPMAP_NEAREST,
        (TextureFilter::Nearest, Some(TextureFilter::Nearest)) => GL_NEAREST_MIPMAP_NEAREST,
    }
}

impl TextureFilter {
    /// The OpenGL filter code (see `filter_code`).
    pub fn glow_code(&self, mipmap: Option<TextureFilter>) -> (code: u32)
        ensures
            code == filter_code(*self, mipmap),
    {
        match (self, mipmap) {
            (TextureFilter::Linear, None) => GL_LINEAR,
            (TextureFilter::Nearest, None) => GL_NEAREST,
            (TextureFilter::Linear, Some(TextureFilter::Linear)) => GL_LINEAR_MIPMAP_LINEAR,
            (TextureFilter::Nearest, Some(TextureFilter::Linear)) => GL_NEAREST_MIPMAP_LINEAR,
            (TextureFilter::Linear, Some(TextureFilter::Nearest)) => GL_LINEAR_MIPMAP_NEAREST,
            (TextureFilter::Nearest, Some(TextureFilter::Nearest)) => GL_NEAREST_MIPMAP_NEAREST,
        }
    }
}

/// Each combination of filters has its own OpenGL code, and the filters without mipmaps are
/// exactly the ones that OpenGL accepts as a magnification filter.
pub proof fn lemma_filter_code_injective(
    a: TextureFilter,
    am: Option<TextureFilter>,
    b: TextureFilter,
    bm: Option<TextureFilter>,
)
    ensures
        filter_code(a, am) == filter_code(b, bm) <==> (a == b && am == bm),
        (filter_code(a, am) == GL_LINEAR || filter_code(a, am) == GL_NEAREST) <==> am is None,
{
}

impl TextureWrapMode {
    /// The OpenGL wrap code of this mode.
    pub open spec fn glow_code_spec(self) -> u32 {
        match self {
            TextureWrapMode::ClampToEdge => GL_CLAMP_TO_EDGE,
            TextureWrapMode::Repeat => GL_REPEAT,
            TextureWrapMode::MirroredRepeat => GL_MIRRORED_REPEAT,
        }
    }

    /// The OpenGL wrap code of this mode.
    pub fn glow_code(&self) -> (code: u32)
        ensures
            code == self.glow_code_spec(),
    {
        match self {
            TextureWrapMode::ClampToEdge => GL_CLAMP_TO_EDGE,
            TextureWrapMode::Repeat => GL_REPEAT,
            TextureWrapMode::MirroredRepeat => GL_MIRRORED_REPEAT,
        }
    }
}

/// The name of an OpenGL error code, or `None` for `GL_NO_ERROR` (code 0).
pub open spec fn gl_error_name_spec(code: u32) -> Option<&'static str> {
    if code == 0 {
        None
    } else if code == 0x0500 {
        Some("GL_INVALID_ENUM")
    } else if code == 0x0501 {
        Some("GL_INVALID_VALUE")
    } else if code == 0x0502 {
        Some("GL_INVALID_OPERATION")
    } else if code == 0x0503 {
        Some("GL_STACK_OVERFLOW")
    } else if code == 0x0504 {
        Some("GL_STACK_UNDERFLOW")
    } else if code == 0x0505 {
        Some("GL_OUT_OF_MEMORY")
    } else if code == 0x0506 {
        Some("GL_INVALID_FRAMEBUFFER_OPERATION")
    } else if code == 0x0507 {
        Some("GL_CONTEXT_LOST")
    } else if code == 0x8031 {
        Some("GL_TABLE_TOO_LARGE1")
    } else if code == 0x9242 {
        Some("CONTEXT_LOST_WEBGL")
    } else {
        Some("<unknown>")
    }
}

/// The name under which an OpenGL error is reported (see `gl_error_name_spec`); no error
/// is reported for `GL_NO_ERROR`.
pub fn gl_error_name(code: u32) -> (name: Option<&'static str>)
    ensures
        name == gl_error_name_spec(code),
{
    if code == 0 {
        None
    } else if code == 0x0500 {
        Some("GL_INVALID_ENUM")
    } else if code == 0x0501 {
        Some("GL_INVALID_VALUE")
    } else if code == 0x0502 {
        Some("GL_INVALID_OPERATION")
    } else if code == 0x0503 {
        Some("GL_STACK_OVERFLOW")
    } else if code == 0x0504 {
        Some("GL_STACK_UNDERFLOW")
    } else if code == 0x0505 {
        Some("GL_OUT_OF_MEMORY")
    } else if code == 0x0506 {
        Some("GL_INVALID_FRAMEBUFFER_OPERATION")
    } else if code == 0x0507 {
        Some("GL_CONTEXT_LOST")
    } else if code == 0x8031 {
        Some("GL_TABLE_TOO_LARGE1")
    } else if code == 0x9242 {
        Some("CONTEXT_LOST_WEBGL")
    } else {
        Some("<unknown>")
    }
}

/// A scissor box as `glScissor` takes it: lower left corner and size.
#[derive(Debug, Clone, Copy, PartialEq, Eq, Structural)]
pub struct Scissor {
    pub x: i32,
    pub y: i32,
    pub width: i32,
    pub height: i32,
}

/// The edges of the clip rectangle before clamping: egui's rectangle, whose top left corner
/// is `(min_x, min_y)` pixels from the viewport's top left corner with the vertical axis
/// pointing down, placed in window space.
pub open spec fn clip_edges(viewport: WindowRect, min_x: i32, min_y: i32, width: i32, height: i32) -> (
    int,
    int,
    int,
    int,
) {
    let left = viewport.left_spec() + min_x;
    let right = left + width;
    let top = viewport.top_spec() - min_y;
    let bottom = top - height;
    (left, right, top, bottom)
}

/// The scissor box for an egui clip rectangle (see `clip_edges`), each edge clamped to the
/// viewport; the width and height are measured between the clamped edges.
pub open spec fn clip_scissor_spec(
    viewport: WindowRect,
    min_x: i32,
    min_y: i32,
    width: i32,
    height: i32,
) -> (int, int, int, int) {
    let e = clip_edges(viewport, min_x, min_y, width, height);
    let left = clamp_spec(e.0, viewport.left_spec(), viewport.right_spec());
    let right = clamp_spec(e.1, viewport.left_spec(), viewport.right_spec());
    let top = clamp_spec(e.2, viewport.bottom_spec(), viewport.top_spec());
    let bottom = clamp_spec(e.3, viewport.bottom_spec(), viewport.top_spec());
    (left, bottom, right - left, top - bottom)
}

/// The computation of `clip_scissor` stays in the range of `i32`.
pub open spec fn clip_fits(viewport: WindowRect, min_x: i32, min_y: i32, width: i32, height: i32) -> bool {
    let e = clip_edges(viewport, min_x, min_y, width, height);
    &&& viewport.edges_fit()
    &&& 0 <= viewport.size.width
    &&& 0 <= viewport.size.height
    &&& fits_i32(e.0)
    &&& fits_i32(e.1)
    &&& fits_i32(e.2)
    &&& fits_i32(e.3)
}

fn clamp_i32(v: i32, lo: i32, hi: i32) -> (r: i32)
    requires
        lo <= hi,
    ensures
        r == clamp_spec(v as int, lo as int, hi as int),
{
    if v < lo {
        lo
    } else if v > hi {
        hi
    } else {
        v
    }
}

/// Places an egui clip rectangle, rounded to whole pixels, in the viewport and clamps it to
/// the viewport (see `clip_scissor_spec`).
pub fn clip_scissor(viewport: &WindowRect, min_x: i32, min_y: i32, width: i32, height: i32) -> (s:
    Scissor)
    requires
        clip_fits(*viewport, min_x, min_y, width, height),
    ensures
        (s.x as int, s.y as int, s.width as int, s.height as int) == clip_scissor_spec(
            *viewport,
            min_x,
            min_y,
            width,
            height,
        ),
{
    let left = viewport.left() + min_x;
    let right = left + width;
    let top = viewport.top() - min_y;
    let bottom = top - height;

    let left = clamp_i32(left, viewport.left(), viewport.right());
    let right = clamp_i32(right, viewport.left(), viewport.right());
    let top = clamp_i32(top, viewport.bottom(), viewport.top());
    let bottom = clamp_i32(bottom, viewport.bottom(), viewport.top());
    Scissor { x: left, y: bottom, width: right - left, height: top - bottom }
}

/// The scissor box never reaches outside the viewport: its corner lies in the viewport, and
/// when egui's rectangle has no negative size, neither has the box, which then ends inside
/// the viewport too.
pub proof fn lemma_clip_scissor_inside_viewport(
    viewport: WindowRect,
    min_x: i32,
    min_y: i32,
    width: i32,
    height: i32,
)
    requires
        clip_fits(viewport, min_x, min_y, width, height),
    ensures
        ({
            let s = clip_scissor_spec(viewport, min_x, min_y, width, height);
            &&& viewport.left_spec() <= s.0 <= viewport.right_spec()
            &&& viewport.bottom_spec() <= s.1 <= viewport.top_spec()
            &&& width >= 0 ==> 0 <= s.2 && s.0 + s.2 <= viewport.right_spec()
            &&& height >= 0 ==> 0 <= s.3 && s.1 + s.3 <= viewport.top_spec()
        }),
{
}

/// The scissor box is the part of egui's clip rectangle that lies in the viewport. For a
/// clip rectangle of non-negative size, with columns from `L = viewport.left + min_x` to
/// `R = L + width` and rows from `B = T - height` to `T = viewport.top - min_y`: when the
/// columns overlap the viewport's, the box runs from the larger left edge to the smaller
/// right edge, and otherwise it has no width; the same holds of the rows.
pub proof fn lemma_clip_scissor_is_intersection(
    viewport: WindowRect,
    min_x: i32,
    min_y: i32,
    width: i32,
    height: i32,
)
    requires
        clip_fits(viewport, min_x, min_y, width, height),
        width >= 0,
        height >= 0,
    ensures
        ({
            let s = clip_scissor_spec(viewport, min_x, min_y, width, height);
            let vl = viewport.origin.x as int;
            let vr = viewport.origin.x + viewport.size.width;
            let vb = viewport.origin.y as int;
            let vt = viewport.origin.y + viewport.size.height;
            let l = vl + min_x;
            let r = l + width;
            let t = vt - min_y;
            let b = t - height;
            &&& (l < vr && r > vl) ==> s.0 == (if l > vl {
                l
            } else {
                vl
            }) && s.0 + s.2 == (if r < vr {
                r
            } else {
                vr
            })
            &&& !(l < vr && r > vl) ==> s.2 == 0
            &&& (b < vt && t > vb) ==> s.1 == (if b > vb {
                b
            } else {
                vb
            }) && s.1 + s.3 == (if t < vt {
                t
            } else {
                vt
            })
            &&& !(b < vt && t > vb) ==> s.3 == 0
        }),
{
}

/// `ends_with` compares every character of the suffix: `s` ends with `suffix` exactly when
/// it is at least as long and each character of `suffix` equals the character of `s` at
/// the same distance from the end.
pub proof fn lemma_ends_with_compares_every_char(s: Seq<char>, suffix: Seq<char>)
    ensures
        ends_with(s, suffix) <==> (s.len() >= suffix.len() && forall|k: int|
            0 <= k < suffix.len() ==> #[trigger] s[s.len() - suffix.len() + k] == suffix[k]),
{
    if s.len() >= suffix.len() && forall|k: int|
        0 <= k < suffix.len() ==> #[trigger] s[s.len() - suffix.len() + k] == suffix[k] {
        let start = s.len() - suffix.len();
        assert forall|j: int| 0 <= j < suffix.len() implies s.subrange(start, s.len() as int)[j]
            == suffix[j] by {
            assert(s[s.len() - suffix.len() + j] == suffix[j]);
        }
        assert(s.subrange(start, s.len() as int) =~= suffix);
    }
    if ends_with(s, suffix) {
        assert forall|k: int| 0 <= k < suffix.len() implies #[trigger] s[s.len() - suffix.len()
            + k] == suffix[k] by {
            assert(s.subrange(s.len() - suffix.len(), s.len() as int)[k] == suffix[k]);
        }
    }
}

/// How egui asks a texture to be sampled and wrapped.
#[derive(Debug, Clone, Copy, PartialEq, Eq, Hash, Structural)]
pub struct TextureOptions {
    /// The filter when the texture is drawn larger than it is
    pub magnification: TextureFilter,
    /// The filter when the texture is drawn smaller than it is
    pub minification: TextureFilter,
    /// How the texture is wrapped at its edges
    pub wrap_mode: TextureWrapMode,
    /// The filter between mipmap levels, when mipmaps are used
    pub mipmap_mode: Option<TextureFilter>,
}

/// The OpenGL texture parameters for a set of texture options.
#[derive(Debug, Clone, Copy, PartialEq, Eq, Hash, Structural)]
pub struct TextureParameters {
    pub mag_filter: u32,
    pub min_filter: u32,
    pub wrap_s: u32,
    pub wrap_t: u32,
    /// Whether mipmaps are generated after the upload
    pub generate_mipmap: bool,
}

/// The texture parameters for `options`: magnification never uses mipmaps, minification uses
/// them as the options say, both directions wrap alike, and mipmaps are generated exactly when
/// they are used.
pub fn texture_parameters(options: &TextureOptions) -> (p: TextureParameters)
    ensures
        p.mag_filter == filter_code(options.magnification, None),
        p.min_filter == filter_code(options.minification, options.mipmap_mode),
        p.wrap_s == p.wrap_t,
        p.wrap_s == options.wrap_mode.glow_code_spec(),
        p.generate_mipmap == options.mipmap_mode is Some,
{
    let wrap = options.wrap_mode.glow_code();
    TextureParameters {
        mag_filter: options.magnification.glow_code(None),
        min_filter: options.minification.glow_code(options.mipmap_mode),
        wrap_s: wrap,
        wrap_t: wrap,
        generate_mipmap: options.mipmap_mode.is_some(),
    }
}

/// How texture pixels reach OpenGL: into a part of the texture at `(x, y)`, or as the whole
/// texture.
#[derive(Debug, Clone, Copy, PartialEq, Eq, Hash, Structural)]
pub enum TextureUpload {
    Partial { x: i32, y: i32, width: i32, height: i32 },
    Whole { width: i32, height: i32 },
}

/// The upload of an egui texture delta of size `width` by `height`: at `pos` when egui gives
/// one, as the whole texture otherwise. OpenGL takes the positions and sizes as `i32`, to
/// which they are cast.
pub fn texture_upload(pos: Option<(usize, usize)>, width: usize, height: usize) -> (u:
    TextureUpload)
    ensures
        match pos {
            Some((x, y)) => u == TextureUpload::Partial {
                x: x as i32,
                y: y as i32,
                width: width as i32,
                height: height as i32,
            },
            None => u == TextureUpload::Whole { width: width as i32, height: height as i32 },
        },
{
    match pos {
        Some((x, y)) => TextureUpload::Partial {
            x: x as i32,
            y: y as i32,
            width: width as i32,
            height: height as i32,
        },
        None => TextureUpload::Whole { width: width as i32, height: height as i32 },
    }
}

/// Whether `s` ends with `suffix`.
pub open spec fn ends_with(s: Seq<char>, suffix: Seq<char>) -> bool {
    s.len() >= suffix.len() && s.subrange(s.len() - suffix.len(), s.len() as int) == suffix
}

/// Whether `s` ends with `suffix`, compared character by character from where the suffix
/// would start.
fn str_ends_with(s: &str, suffix: &str) -> (b: bool)
    ensures
        b == ends_with(s@, suffix@),
{
    let n = s.unicode_len();
    let m = suffix.unicode_len();
    if m > n {
        return false;
    }
    let start = n - m;
    let mut i: usize = 0;
    while i < m
        invariant
            n == s@.len(),
            m == suffix@.len(),
            start == n - m,
            i <= m,
            forall|k: int| 0 <= k < i ==> s@[start + k] == suffix@[k],
        decreases m - i,
    {
        if s.get_char(start + i) != suffix.get_char(i) {
            assert(s@.subrange(start as int, n as int)[i as int] != suffix@[i as int]);
            return false;
        }
        i = i + 1;
    }
    assert(s@.subrange(start as int, n as int) =~= suffix@);
    true
}

/// Whether the OpenGL context supports sRGB framebuffers: one of its extensions is an
/// `ARB_framebuffer_sRGB` extension (of GL, GLX or WGL).
pub fn supports_srgb_framebuffer(extensions: &Vec<String>) -> (b: bool)
    ensures
        b == exists|i: int|
            0 <= i < extensions@.len() && ends_with(
                #[trigger] extensions@[i]@,
                "ARB_framebuffer_sRGB"@,
            ),
{
    let mut i: usize = 0;
    while i < extensions.len()
        invariant
            i <= extensions@.len(),
            forall|k: int| 0 <= k < i ==> !ends_with(#[trigger] extensions@[k]@, "ARB_framebuffer_sRGB"@),
        decreases extensions@.len() - i,
    {
        if str_ends_with(extensions[i].as_str(), "ARB_framebuffer_sRGB") {
            return true;
        }
        i = i + 1;
    }
    false
}

} // verus!
