//! Textures: one device image each, with its format, size, filtering and
//! wrapping.

use crate::device::{
    view_bytes, view_calls, Call, DeviceCall, DeviceCallView, TextureParameter, TextureStorage,
};
use crate::glconst;
use vstd::arithmetic::div_mod::lemma_fundamental_div_mod;
use vstd::arithmetic::div_mod::lemma_fundamental_div_mod_converse;
use vstd::arithmetic::div_mod::lemma_mod_bound;
use vstd::prelude::*;

verus! {

/// How a texture is sampled between texels.
#[derive(Clone, Copy, Debug, PartialEq, Eq, Structural)]
pub enum FilteringMode {
    Linear,
    Nearest,
}

impl FilteringMode {
    /// The device's enumerant for this mode.
    pub open spec fn spec_gl_enum(self) -> u32 {
        match self {
            FilteringMode::Linear => 0x2601,
            FilteringMode::Nearest => 0x2600,
        }
    }

    /// The device's enumerant for this mode.
    pub fn gl_enum(&self) -> (r: u32)
        ensures
            r == self.spec_gl_enum(),
    {
        match self {
            FilteringMode::Linear => glconst::linear(),
            FilteringMode::Nearest => glconst::nearest(),
        }
    }
}

/// How a texture is sampled outside the unit square.
#[derive(Clone, Copy, Debug, PartialEq, Eq, Structural)]
pub enum WrapMode {
    Clamp,
    Mirrored,
    Repeat,
}

impl WrapMode {
    /// The device's enumerant for this mode.
    pub open spec fn spec_gl_enum(self) -> u32 {
        match self {
            WrapMode::Clamp => 0x812F,
            WrapMode::Mirrored => 0x8370,
            WrapMode::Repeat => 0x2901,
        }
    }

    /// The device's enumerant for this mode.
    pub fn gl_enum(&self) -> (r: u32)
        ensures
            r == self.spec_gl_enum(),
    {
        match self {
            WrapMode::Clamp => glconst::clamp_to_edge(),
            WrapMode::Mirrored => glconst::mirrored_repeat(),
            WrapMode::Repeat => glconst::repeat(),
        }
    }
}

/// What a texture's image holds. Fixed when the texture is created.
#[derive(Clone, Copy, Debug, PartialEq, Eq, Structural)]
pub enum TextureFormat {
    Rgba,
    Depth,
    DepthStencil,
}

impl TextureFormat {
    /// The storage that the device allocates for an image of this format.
    pub open spec fn spec_storage(self) -> TextureStorage {
        match self {
            TextureFormat::Rgba => TextureStorage::Rgba8,
            TextureFormat::Depth => TextureStorage::Depth32,
            TextureFormat::DepthStencil => TextureStorage::Depth24Stencil8,
        }
    }

    /// The storage that the device allocates for an image of this format.
    pub fn storage(&self) -> (r: TextureStorage)
        ensures
            r == self.spec_storage(),
    {
        match self {
            TextureFormat::Rgba => TextureStorage::Rgba8,
            TextureFormat::Depth => TextureStorage::Depth32,
            TextureFormat::DepthStencil => TextureStorage::Depth24Stencil8,
        }
    }
}

/// The first texture unit; unit `i` is `TEXTURE_UNIT_BASE + i`.
pub const TEXTURE_UNIT_BASE: u32 = 0x84C0;

/// Index in `pixels` of the byte that a vertical flip moves to index `i`, for
/// an image of `width` pixels per row, `height` rows and four bytes per pixel.
pub open spec fn spec_flip_source(width: nat, height: nat, i: int) -> int {
    let row_len = 4 * width;
    (height - 1 - i / (row_len as int)) * row_len + i % (row_len as int)
}

/// The image `pixels` with its rows in reverse order: row `y` of the result
/// is row `height - 1 - y` of `pixels`.
pub open spec fn spec_flip_vertical(width: nat, height: nat, pixels: Seq<u8>) -> Seq<u8> {
    Seq::new(pixels.len(), |i: int| pixels[spec_flip_source(width, height, i)])
}

/// `image::imageops::flip_vertical` on an image of four 8-bit channels that
/// is given by its size and its bytes, row by row from the top.
///
/// Not verified. The contract says that the function returns a buffer of the
/// same length in which every pixel `(x, y)` of the input stands at
/// `(x, height - 1 - y)`, which is what its loop over `get_pixel` and
/// `put_pixel` does.
///
/// The image must not be empty. `ImageBuffer::from_raw` and
/// `ImageBuffer::new` compute the length of the buffer as four times the
/// width, times the height, and give up when one of the two products does
/// not fit the machine word. Of an image that has a byte both products are
/// at most the number of its bytes; of an image without rows the first one
/// can be anything.
#[verifier::external_body]
fn flip_vertical(width: u32, height: u32, pixels: &[u8]) -> (out: Vec<u8>)
    requires
        pixels@.len() == 4 * width * height,
        pixels@.len() > 0,
    ensures
        out@ == spec_flip_vertical(width as nat, height as nat, pixels@),
{
    let source: image::ImageBuffer<image::Rgba<u8>, &[u8]> =
        image::ImageBuffer::from_raw(width, height, pixels).unwrap();
    image::imageops::flip_vertical(&source).into_raw()
}

/// An image in memory: `height` rows of `width` pixels from the top row down,
/// each pixel four bytes (red, green, blue, alpha).
#[derive(Debug, PartialEq, Eq)]
pub struct RgbaImage {
    width: u32,
    height: u32,
    data: Vec<u8>,
}

/// What an [`RgbaImage`] holds.
pub struct RgbaImageView {
    pub width: u32,
    pub height: u32,
    pub data: Seq<u8>,
}

impl View for RgbaImage {
    type V = RgbaImageView;

    closed spec fn view(&self) -> RgbaImageView {
        RgbaImageView { width: self.width, height: self.height, data: self.data@ }
    }
}

impl RgbaImage {
    #[verifier::type_invariant]
    spec fn well_sized(&self) -> bool {
        self.data@.len() == 4 * self.width * self.height
    }

    /// An image of the given size over `data`, or nothing if `data` is not
    /// exactly four bytes per pixel long.
    pub fn new(width: u32, height: u32, data: Vec<u8>) -> (r: Option<RgbaImage>)
        ensures
            r is Some <==> data@.len() == 4 * width * height,
            r matches Some(img) ==> img@ == (RgbaImageView { width, height, data: data@ }),
    {
        if is_image_len(width, height, data.len()) {
            Some(RgbaImage { width, height, data })
        } else {
            None
        }
    }

    /// Pixels per row.
    pub fn width(&self) -> (r: u32)
        ensures
            r == self@.width,
    {
        self.width
    }

    /// Number of rows.
    pub fn height(&self) -> (r: u32)
        ensures
            r == self@.height,
    {
        self.height
    }

    /// The bytes of the image.
    pub fn data(&self) -> (r: &[u8])
        ensures
            r@ == self@.data,
            r@.len() == 4 * self@.width * self@.height,
    {
        proof {
            use_type_invariant(self);
        }
        self.data.as_slice()
    }

    /// The bytes of the image with its rows in reverse order, as a device
    /// whose origin is the bottom-left corner expects them.
    pub fn flipped(&self) -> (r: Vec<u8>)
        ensures
            r@ == spec_flip_vertical(self@.width as nat, self@.height as nat, self@.data),
            r@.len() == self@.data.len(),
    {
        proof {
            use_type_invariant(self);
        }
        if self.data.len() == 0 {
            let empty: Vec<u8> = Vec::new();
            assert(empty@ =~= spec_flip_vertical(
                self.width as nat,
                self.height as nat,
                self.data@,
            ));
            empty
        } else {
            flip_vertical(self.width, self.height, self.data.as_slice())
        }
    }
}

/// Whether `len` bytes are four bytes for each pixel of an image.
fn is_image_len(width: u32, height: u32, len: usize) -> (r: bool)
    ensures
        r == (len == 4 * width * height),
{
    let ghost area = width * height;
    assert(0 <= area <= 0xFFFF_FFFF * 0xFFFF_FFFF && 4 * width * height == 4 * area)
        by (nonlinear_arith)
        requires
            area == width * height,
            0 <= width <= 0xFFFF_FFFF,
            0 <= height <= 0xFFFF_FFFF,
    ;
    let pixels: u64 = (width as u64) * (height as u64);
    len % 4 == 0 && (len / 4) as u64 == pixels
}

/// One device image with its cached configuration.
#[derive(Debug, PartialEq, Eq)]
pub struct Texture {
    /// Device handle of the image.
    pub id: u32,
    pub width: usize,
    pub height: usize,
    pub filtering_mode: FilteringMode,
    pub wrap_mode: WrapMode,
    pub format: TextureFormat,
}

/// The calls that set the filtering of texture `id`.
pub open spec fn spec_filtering_calls(id: u32, mode: FilteringMode) -> Seq<DeviceCallView> {
    seq![
        Call::BindTexture { texture: id },
        Call::TexParameter { parameter: TextureParameter::MinFilter, setting: mode.spec_gl_enum() },
        Call::TexParameter { parameter: TextureParameter::MagFilter, setting: mode.spec_gl_enum() },
    ]
}

/// The calls that set the wrapping of texture `id`.
pub open spec fn spec_wrap_calls(id: u32, mode: WrapMode) -> Seq<DeviceCallView> {
    seq![
        Call::BindTexture { texture: id },
        Call::TexParameter { parameter: TextureParameter::WrapS, setting: mode.spec_gl_enum() },
        Call::TexParameter { parameter: TextureParameter::WrapT, setting: mode.spec_gl_enum() },
    ]
}

/// The calls that configure a new texture: nearest filtering, then repeat
/// wrapping.
pub open spec fn spec_configure_calls(id: u32) -> Seq<DeviceCallView> {
    spec_filtering_calls(id, FilteringMode::Nearest) + spec_wrap_calls(id, WrapMode::Repeat)
}

/// The calls that allocate the image of texture `id`.
pub open spec fn spec_image_calls(
    id: u32,
    storage: TextureStorage,
    width: usize,
    height: usize,
    pixels: Option<Seq<u8>>,
) -> Seq<DeviceCallView> {
    seq![
        Call::BindTexture { texture: id },
        Call::TexImage2D { storage, width, height, pixels },
    ]
}

/// The calls that create a texture: configuration, then image.
pub open spec fn spec_create_calls(
    id: u32,
    format: TextureFormat,
    width: usize,
    height: usize,
    pixels: Option<Seq<u8>>,
) -> Seq<DeviceCallView> {
    spec_configure_calls(id) + spec_image_calls(id, format.spec_storage(), width, height, pixels)
}

/// The call that destroys texture `id`.
pub open spec fn spec_release_calls(id: u32) -> Seq<DeviceCallView> {
    seq![Call::DeleteTexture { texture: id }]
}

/// The calls that bind texture `id` to texture unit `index`.
pub open spec fn spec_bind_calls(id: u32, index: int) -> Seq<DeviceCallView> {
    seq![
        Call::ActiveTexture { unit: (TEXTURE_UNIT_BASE + index) as u32 },
        Call::BindTexture { texture: id },
    ]
}

impl Texture {
    /// A texture of the given size and format on the fresh device handle
    /// `id`, with nearest filtering and repeat wrapping, and the calls that
    /// configure it and allocate its image.
    fn new(
        id: u32,
        width: usize,
        height: usize,
        format: TextureFormat,
        pixels: Option<Vec<u8>>,
    ) -> (r: (Texture, Vec<DeviceCall>))
        ensures
            r.0 == (Texture {
                id,
                width,
                height,
                filtering_mode: FilteringMode::Nearest,
                wrap_mode: WrapMode::Repeat,
                format,
            }),
            view_calls(r.1@) == spec_create_calls(id, format, width, height, view_bytes(pixels)),
    {
        let mut texture = Texture {
            id,
            width,
            height,
            filtering_mode: FilteringMode::Nearest,
            wrap_mode: WrapMode::Clamp,
            format,
        };
        let ghost image = view_bytes(pixels);
        let mut calls = texture.set_filtering_mode(FilteringMode::Nearest);
        let wrap = texture.set_wrap_mode(WrapMode::Repeat);
        crate::device::append_calls(&mut calls, wrap);
        calls.push(Call::BindTexture { texture: id });
        calls.push(Call::TexImage2D { storage: format.storage(), width, height, pixels });
        assert(view_calls(calls@) =~= spec_create_calls(id, format, width, height, image));
        (texture, calls)
    }

    /// A color texture on the fresh device handle `id` that shows `image`.
    /// The image is uploaded with its rows reversed, since the device counts
    /// rows from the bottom.
    pub fn new_rgba_from_image(id: u32, image: &RgbaImage) -> (r: (Texture, Vec<DeviceCall>))
        ensures
            r.0 == (Texture {
                id,
                width: image@.width as usize,
                height: image@.height as usize,
                filtering_mode: FilteringMode::Nearest,
                wrap_mode: WrapMode::Repeat,
                format: TextureFormat::Rgba,
            }),
            view_calls(r.1@) == spec_create_calls(
                id,
                TextureFormat::Rgba,
                image@.width as usize,
                image@.height as usize,
                Some(spec_flip_vertical(image@.width as nat, image@.height as nat, image@.data)),
            ),
    {
        let flipped = image.flipped();
        Texture::new(
            id,
            image.width() as usize,
            image.height() as usize,
            TextureFormat::Rgba,
            Some(flipped),
        )
    }

    /// A color texture of the given size on the fresh device handle `id`,
    /// with contents left to the device.
    pub fn new_rgba(id: u32, w: usize, h: usize) -> (r: (Texture, Vec<DeviceCall>))
        ensures
            r.0 == (Texture {
                id,
                width: w,
                height: h,
                filtering_mode: FilteringMode::Nearest,
                wrap_mode: WrapMode::Repeat,
                format: TextureFormat::Rgba,
            }),
            view_calls(r.1@) == spec_create_calls(id, TextureFormat::Rgba, w, h, None),
    {
        Texture::new(id, w, h, TextureFormat::Rgba, None)
    }

    /// A 32-bit depth texture of the given size on the fresh device handle
    /// `id`.
    pub fn new_depth(id: u32, w: usize, h: usize) -> (r: (Texture, Vec<DeviceCall>))
        ensures
            r.0 == (Texture {
                id,
                width: w,
                height: h,
                filtering_mode: FilteringMode::Nearest,
                wrap_mode: WrapMode::Repeat,
                format: TextureFormat::Depth,
            }),
            view_calls(r.1@) == spec_create_calls(id, TextureFormat::Depth, w, h, None),
    {
        Texture::new(id, w, h, TextureFormat::Depth, None)
    }

    /// A texture of 24-bit depth and 8-bit stencil of the given size on the
    /// fresh device handle `id`.
    pub fn new_depth_stencil(id: u32, w: usize, h: usize) -> (r: (Texture, Vec<DeviceCall>))
        ensures
            r.0 == (Texture {
                id,
                width: w,
                height: h,
                filtering_mode: FilteringMode::Nearest,
                wrap_mode: WrapMode::Repeat,
                format: TextureFormat::DepthStencil,
            }),
            view_calls(r.1@) == spec_create_calls(id, TextureFormat::DepthStencil, w, h, None),
    {
        Texture::new(id, w, h, TextureFormat::DepthStencil, None)
    }

    /// Sets the filtering for minification and magnification, on the device
    /// and in the cached field.
    pub fn set_filtering_mode(&mut self, mode: FilteringMode) -> (calls: Vec<DeviceCall>)
        ensures
            *final(self) == (Texture { filtering_mode: mode, ..*old(self) }),
            view_calls(calls@) == spec_filtering_calls(old(self).id, mode),
    {
        let setting = mode.gl_enum();
        let calls = vec![
            Call::BindTexture { texture: self.id },
            Call::TexParameter { parameter: TextureParameter::MinFilter, setting },
            Call::TexParameter { parameter: TextureParameter::MagFilter, setting },
        ];
        self.filtering_mode = mode;
        assert(view_calls(calls@) =~= spec_filtering_calls(self.id, mode));
        calls
    }

    /// Sets the wrapping in both directions, on the device and in the cached
    /// field.
    pub fn set_wrap_mode(&mut self, mode: WrapMode) -> (calls: Vec<DeviceCall>)
        ensures
            *final(self) == (Texture { wrap_mode: mode, ..*old(self) }),
            view_calls(calls@) == spec_wrap_calls(old(self).id, mode),
    {
        let setting = mode.gl_enum();
        let calls = vec![
            Call::BindTexture { texture: self.id },
            Call::TexParameter { parameter: TextureParameter::WrapS, setting },
            Call::TexParameter { parameter: TextureParameter::WrapT, setting },
        ];
        self.wrap_mode = mode;
        assert(view_calls(calls@) =~= spec_wrap_calls(self.id, mode));
        calls
    }

    /// Selects texture unit `index` and binds this texture to it. The binding
    /// stays until the next call that binds a texture to that unit.
    ///
    /// The unit's enumerant, `TEXTURE_UNIT_BASE + index`, must be a 32-bit
    /// number.
    pub fn bind(&self, index: usize) -> (calls: Vec<DeviceCall>)
        requires
            TEXTURE_UNIT_BASE + index <= u32::MAX,
        ensures
            view_calls(calls@) == spec_bind_calls(self.id, index as int),
    {
        let unit = glconst::texture0() + index as u32;
        let calls = vec![Call::ActiveTexture { unit }, Call::BindTexture { texture: self.id }];
        assert(view_calls(calls@) =~= spec_bind_calls(self.id, index as int));
        calls
    }

    /// Gives the texture up: the call that destroys its device image.
    pub fn release(self) -> (calls: Vec<DeviceCall>)
        ensures
            view_calls(calls@) == spec_release_calls(self.id),
    {
        let calls = vec![Call::DeleteTexture { texture: self.id }];
        assert(view_calls(calls@) =~= spec_release_calls(self.id));
        calls
    }
}

/// Where byte `k` of row `y` lies in an image of `row_len` bytes per row and
/// `height` rows: inside the image, in that row and at that place.
proof fn lemma_row_index(row_len: int, height: int, y: int, k: int)
    requires
        0 <= y < height,
        0 <= k < row_len,
    ensures
        0 <= y * row_len + k < row_len * height,
        (y * row_len + k) / row_len == y,
        (y * row_len + k) % row_len == k,
{
    lemma_fundamental_div_mod_converse(y * row_len + k, row_len, y, k);
    assert(0 <= y * row_len && (y + 1) * row_len <= row_len * height) by (nonlinear_arith)
        requires
            0 <= y < height,
            0 < row_len,
    ;
    assert((y + 1) * row_len == y * row_len + row_len) by (nonlinear_arith);
}

/// A vertical flip reverses the order of the rows and keeps each row as it
/// is: byte `k` of row `y` of the flipped image is byte `k` of row
/// `height - 1 - y` of the image.
pub proof fn lemma_flip_reverses_rows(width: nat, height: nat, pixels: Seq<u8>, y: int, k: int)
    requires
        pixels.len() == 4 * width * height,
        0 <= y < height,
        0 <= k < 4 * width,
    ensures
        0 <= y * (4 * width) + k < pixels.len(),
        0 <= (height - 1 - y) * (4 * width) + k < pixels.len(),
        spec_flip_vertical(width, height, pixels)[y * (4 * width) + k] == pixels[(height - 1 - y)
            * (4 * width) + k],
{
    let row_len = (4 * width) as int;
    lemma_row_index(row_len, height as int, y, k);
    lemma_row_index(row_len, height as int, height - 1 - y, k);
}

/// Flipping an image twice gives the image back.
pub proof fn lemma_flip_twice(width: nat, height: nat, pixels: Seq<u8>)
    requires
        pixels.len() == 4 * width * height,
    ensures
        spec_flip_vertical(width, height, spec_flip_vertical(width, height, pixels)) == pixels,
{
    let once = spec_flip_vertical(width, height, pixels);
    let twice = spec_flip_vertical(width, height, once);
    let row_len = (4 * width) as int;
    assert forall|i: int| 0 <= i < pixels.len() implies twice[i] == pixels[i] by {
        assert(row_len > 0 && height > 0) by (nonlinear_arith)
            requires
                0 <= i < 4 * width * height,
                row_len == 4 * width,
        ;
        let y = i / row_len;
        let k = i % row_len;
        lemma_fundamental_div_mod(i, row_len);
        lemma_mod_bound(i, row_len);
        assert(0 <= y < height) by (nonlinear_arith)
            requires
                0 <= i < row_len * height,
                i == row_len * y + k,
                0 <= k < row_len,
        ;
        assert(i == y * row_len + k) by (nonlinear_arith)
            requires
                i == row_len * y + k,
        ;
        lemma_flip_reverses_rows(width, height, once, y, k);
        lemma_flip_reverses_rows(width, height, pixels, height - 1 - y, k);
    }
    assert(twice =~= pixels);
}

} // verus!
