use vstd::prelude::*;

verus! {

/// What a binding slot of the material's layout declares.
#[derive(Clone, Copy, Debug, PartialEq, Eq, Structural)]
pub enum BindingType {
    /// A 2D float texture that may be sampled with filtering.
    FilterableTexture,
    /// A sampler that may filter.
    FilteringSampler,
}

/// One slot of the material's binding layout, visible to the fragment stage.
#[derive(Clone, Copy, Debug, PartialEq, Eq, Structural)]
pub struct LayoutEntry {
    pub binding: u32,
    pub ty: BindingType,
}

/// What a binding group puts in a slot.
#[derive(Clone, Copy, Debug, PartialEq, Eq, Structural)]
pub enum BindingResource {
    TextureView,
    Sampler,
}

/// One slot of the material's binding group.
#[derive(Clone, Copy, Debug, PartialEq, Eq, Structural)]
pub struct GroupEntry {
    pub binding: u32,
    pub resource: BindingResource,
}

#[derive(Clone, Copy, Debug, PartialEq, Eq, Structural)]
pub enum FilterMode {
    Nearest,
    Linear,
}

#[derive(Clone, Copy, Debug, PartialEq, Eq, Structural)]
pub enum AddressMode {
    ClampToEdge,
}

/// How the material's texture is sampled; the address mode holds on all
/// three axes.
#[derive(Clone, Copy, Debug, PartialEq, Eq, Structural)]
pub struct SamplerSettings {
    pub address_mode: AddressMode,
    pub mag_filter: FilterMode,
    pub min_filter: FilterMode,
    pub mipmap_filter: FilterMode,
}

/// Why a texture could not become a material.
#[derive(Clone, Copy, Debug, PartialEq, Eq, Structural)]
pub enum MaterialError {
    /// The bytes are not an image the decoder reads.
    Decode,
    /// The image has no pixel.
    Empty,
    /// A row of the image takes more bytes than a copy can describe.
    RowTooWide,
    /// The pixel buffer does not hold four bytes for each pixel.
    SizeMismatch,
}

/// A decoded texture ready for upload, and the shape of the binding group
/// that exposes it to the fragment stage.
#[derive(Debug)]
pub struct Material {
    /// Width and height of the texture, in pixels.
    pub dimensions: (u32, u32),
    /// Row stride of the copy into the texture.
    pub bytes_per_row: u32,
    pub rows_per_image: u32,
    /// RGBA bytes, row after row.
    pub pixels: Vec<u8>,
    pub sampler: SamplerSettings,
    pub layout_entries: Vec<LayoutEntry>,
    pub group_entries: Vec<GroupEntry>,
}

/// Clamp to edge, linear magnification, nearest minification and mip
/// selection: suited to a small pixel-art texture.
pub open spec fn material_sampler() -> SamplerSettings {
    SamplerSettings {
        address_mode: AddressMode::ClampToEdge,
        mag_filter: FilterMode::Linear,
        min_filter: FilterMode::Nearest,
        mipmap_filter: FilterMode::Nearest,
    }
}

/// A filterable texture at slot 0, a filtering sampler at slot 1.
pub open spec fn material_layout() -> Seq<LayoutEntry> {
    seq![
        LayoutEntry { binding: 0, ty: BindingType::FilterableTexture },
        LayoutEntry { binding: 1, ty: BindingType::FilteringSampler },
    ]
}

/// The texture's view at slot 0, the sampler at slot 1.
pub open spec fn material_group() -> Seq<GroupEntry> {
    seq![
        GroupEntry { binding: 0, resource: BindingResource::TextureView },
        GroupEntry { binding: 1, resource: BindingResource::Sampler },
    ]
}

/// The resource `g` fills the slot `l` declares.
pub open spec fn fills(l: LayoutEntry, g: GroupEntry) -> bool {
    &&& l.binding == g.binding
    &&& match l.ty {
        BindingType::FilterableTexture => g.resource == BindingResource::TextureView,
        BindingType::FilteringSampler => g.resource == BindingResource::Sampler,
    }
}

/// A sampler that filters linearly in some direction.
pub open spec fn filters(s: SamplerSettings) -> bool {
    s.mag_filter == FilterMode::Linear || s.min_filter == FilterMode::Linear
        || s.mipmap_filter == FilterMode::Linear
}

/// The bytes an RGBA image of this size takes.
pub open spec fn rgba_len(width: u32, height: u32) -> int {
    4 * width * height
}

/// Why an RGBA image of this size with `len` bytes cannot become a material,
/// if it can't.
pub open spec fn rgba_error(width: u32, height: u32, len: int) -> Option<MaterialError> {
    if width == 0 || height == 0 {
        Some(MaterialError::Empty)
    } else if 4 * width > u32::MAX {
        Some(MaterialError::RowTooWide)
    } else if len != rgba_len(width, height) {
        Some(MaterialError::SizeMismatch)
    } else {
        None
    }
}

/// What `Material::from_rgba` gives for an image of this size and these bytes.
pub open spec fn from_rgba_outcome(
    width: u32,
    height: u32,
    pixels: Seq<u8>,
    r: Result<Material, MaterialError>,
) -> bool {
    match rgba_error(width, height, pixels.len() as int) {
        Some(e) => r == Err::<Material, MaterialError>(e),
        None => r matches Ok(m) && m.dimensions == (width, height) && m.pixels@ == pixels,
    }
}

/// What the image decoder makes of these bytes: width, height and RGBA bytes,
/// or nothing when it cannot read them.
pub uninterp spec fn rgba_decoding(bytes: Seq<u8>) -> Option<(u32, u32, Seq<u8>)>;

/// Relies on image::guess_format, which recognises the format by the
/// built-in magic bytes, then image::load_from_memory_with_format, which runs
/// that format's built-in decoder, then DynamicImage::to_rgba8 and
/// ImageBuffer::into_raw: the image is converted to 8-bit RGBA and handed back
/// with its width and height. No hook registered with the decoder takes part on
/// this path, so the outcome depends on the bytes alone.
#[verifier::external_body]
fn decode_rgba(bytes: &[u8]) -> (r: Option<(u32, u32, Vec<u8>)>)
    ensures
        r is None <==> rgba_decoding(bytes@) is None,
        r matches Some(t) ==> rgba_decoding(bytes@) == Some((t.0, t.1, t.2@)),
{
    let decoded = image::guess_format(bytes).and_then(
        |format| image::load_from_memory_with_format(bytes, format),
    );
    match decoded {
        Ok(img) => {
            let rgba = img.to_rgba8();
            Some((rgba.width(), rgba.height(), rgba.into_raw()))
        },
        Err(_) => None,
    }
}

/// Why these encoded bytes cannot become a material, if they can't.
pub open spec fn material_error(bytes: Seq<u8>) -> Option<MaterialError> {
    match rgba_decoding(bytes) {
        None => Some(MaterialError::Decode),
        Some(d) => rgba_error(d.0, d.1, d.2.len() as int),
    }
}

impl Material {
    /// Everything a binding group of the material needs to agree with its
    /// layout and texture.
    pub open spec fn wf(&self) -> bool {
        &&& self.dimensions.0 > 0 && self.dimensions.1 > 0
        &&& self.bytes_per_row == 4 * self.dimensions.0
        &&& self.rows_per_image == self.dimensions.1
        &&& self.pixels@.len() == rgba_len(self.dimensions.0, self.dimensions.1)
        &&& self.sampler == material_sampler()
        &&& self.layout_entries@ == material_layout()
        &&& self.group_entries@ == material_group()
    }

    /// Makes a material of a decoded RGBA image. The copy into the texture
    /// advances `4 * width` bytes per row, so the buffer must hold exactly
    /// four bytes per pixel.
    pub fn from_rgba(width: u32, height: u32, pixels: Vec<u8>) -> (r: Result<
        Material,
        MaterialError,
    >)
        ensures
            from_rgba_outcome(width, height, pixels@, r),
            r matches Ok(m) ==> m.wf(),
    {
        if width == 0 || height == 0 {
            return Err(MaterialError::Empty);
        }
        if width > u32::MAX / 4 {
            return Err(MaterialError::RowTooWide);
        }
        let row: u128 = 4 * (width as u128);
        assert(row * (height as u128) <= 0x4_0000_0000 * 0x1_0000_0000) by (nonlinear_arith)
            requires
                row <= 0x4_0000_0000,
                height <= 0xffff_ffff,
        ;
        let needed: u128 = row * (height as u128);
        if pixels.len() as u128 != needed {
            return Err(MaterialError::SizeMismatch);
        }
        let sampler = SamplerSettings {
            address_mode: AddressMode::ClampToEdge,
            mag_filter: FilterMode::Linear,
            min_filter: FilterMode::Nearest,
            mipmap_filter: FilterMode::Nearest,
        };
        let layout_entries = vec![
            LayoutEntry { binding: 0, ty: BindingType::FilterableTexture },
            LayoutEntry { binding: 1, ty: BindingType::FilteringSampler },
        ];
        let group_entries = vec![
            GroupEntry { binding: 0, resource: BindingResource::TextureView },
            GroupEntry { binding: 1, resource: BindingResource::Sampler },
        ];
        assert(layout_entries@ =~= material_layout());
        assert(group_entries@ =~= material_group());
        Ok(
            Material {
                dimensions: (width, height),
                bytes_per_row: 4 * width,
                rows_per_image: height,
                pixels,
                sampler,
                layout_entries,
                group_entries,
            },
        )
    }

    /// Decodes an encoded image and makes a material of it.
    pub fn new(bytes: &[u8]) -> (r: Result<Material, MaterialError>)
        ensures
            rgba_decoding(bytes@) is None ==> r == Err::<Material, MaterialError>(
                MaterialError::Decode,
            ),
            rgba_decoding(bytes@) matches Some(d) ==> from_rgba_outcome(d.0, d.1, d.2, r),
            material_error(bytes@) matches Some(e) ==> r == Err::<Material, MaterialError>(e),
            r matches Ok(m) ==> m.wf() && rgba_decoding(bytes@) == Some(
                (m.dimensions.0, m.dimensions.1, m.pixels@),
            ),
    {
        match decode_rgba(bytes) {
            None => Err(MaterialError::Decode),
            Some((width, height, pixels)) => Material::from_rgba(width, height, pixels),
        }
    }
}

/// A well-formed material binds exactly two resources, the texture view and
/// the sampler, at slots 0 and 1, each filling the slot its layout declares;
/// its sampler filters and the layout declares both sides filterable.
pub proof fn lemma_material_bindings(m: &Material)
    requires
        m.wf(),
    ensures
        m.group_entries@.len() == 2,
        m.layout_entries@.len() == 2,
        forall|i: int|
            0 <= i < 2 ==> #[trigger] fills(m.layout_entries@[i], m.group_entries@[i])
                && m.group_entries@[i].binding == i,
        filters(m.sampler),
        m.layout_entries@[0].ty == BindingType::FilterableTexture,
        m.layout_entries@[1].ty == BindingType::FilteringSampler,
{
    assert(fills(m.layout_entries@[0], m.group_entries@[0]));
    assert(fills(m.layout_entries@[1], m.group_entries@[1]));
}

} // verus!
