//! Descriptor types as the compiler records them, and their conversion to the
//! pipeline's terms.
use vstd::prelude::*;

verus! {

/// The number of image formats the compiler can name; a format is an index below it.
pub const FORMAT_COUNT: u32 = 184;

/// An image format, by its position in the compiler's format table.
#[derive(Clone, Copy, Debug, PartialEq, Eq, Structural)]
pub struct Format(pub u32);

/// The dimensionality of an image as the compiler records it.
#[derive(Clone, Copy, Debug, PartialEq, Eq, Structural)]
pub enum CompilerImageDims {
    Dim1,
    Dim2,
    Dim3,
    Cube,
}

/// The kind of a descriptor as the compiler records it.
#[derive(Clone, Copy, Debug, PartialEq, Eq, Structural)]
pub enum CompilerDescriptorKind {
    Sampler,
    CombinedImageSampler,
    Image,
    TexelBuffer,
    InputAttachment,
    Buffer,
}

/// Whether an image is arrayed, and its layer count when known (first entry).
#[derive(Clone, Debug)]
pub struct CompilerDescriptorImageArray(pub bool, pub Vec<u32>);

/// An image descriptor: sampled, dimensions, format (first entry, if any),
/// multisampled, and its array layers.
#[derive(Clone, Debug)]
pub struct CompilerDescriptorImageDesc(pub bool, pub CompilerImageDims, pub Vec<u32>, pub bool,
    pub CompilerDescriptorImageArray);

/// A buffer descriptor: whether it is dynamic (first entry, if known), and storage.
#[derive(Clone, Debug)]
pub struct CompilerDescriptorBufferDesc(pub Vec<bool>, pub bool);

/// A texel buffer descriptor: storage, and its format (first entry, if any).
#[derive(Clone, Debug)]
pub struct CompilerTexelBufferDesc(pub bool, pub Vec<u32>);

/// An input attachment descriptor: multisampled, and its array layers.
#[derive(Clone, Debug)]
pub struct CompilerInputAttachmentDesc(pub bool, pub CompilerDescriptorImageArray);

/// A descriptor type: its kind, and the details of the kind in the matching list
/// (the first entry is used).
#[derive(Clone, Debug)]
pub struct CompilerDescriptorDescTy(pub CompilerDescriptorKind, pub Vec<CompilerDescriptorImageDesc>,
    pub Vec<CompilerDescriptorImageDesc>, pub Vec<CompilerTexelBufferDesc>,
    pub Vec<CompilerInputAttachmentDesc>, pub Vec<CompilerDescriptorBufferDesc>);

/// The shader stages a descriptor is used in: vertex, tessellation control,
/// tessellation evaluation, geometry, fragment, compute.
#[derive(Clone, Copy, Debug, PartialEq, Eq, Structural)]
pub struct CompilerShaderStages(pub bool, pub bool, pub bool, pub bool, pub bool, pub bool);

/// A descriptor binding: binding number, type, array count, stages, read only.
#[derive(Clone, Debug)]
pub struct CompilerDescriptorDesc(pub u32, pub CompilerDescriptorDescTy, pub u32, pub CompilerShaderStages, pub bool);

/// Whether an image descriptor is arrayed.
#[derive(Clone, Copy, Debug, PartialEq, Eq, Structural)]
pub enum DescriptorImageDescArray {
    NonArrayed,
    Arrayed { max_layers: Option<u32> },
}

/// Image dimensions of a descriptor.
#[derive(Clone, Copy, Debug, PartialEq, Eq, Structural)]
pub enum DescriptorImageDescDimensions {
    OneDimensional,
    TwoDimensional,
    ThreeDimensional,
    Cube,
}

/// An image descriptor.
#[derive(Clone, Copy, Debug, PartialEq, Eq, Structural)]
pub struct DescriptorImageDesc {
    pub sampled: bool,
    pub dimensions: DescriptorImageDescDimensions,
    pub format: Option<Format>,
    pub multisampled: bool,
    pub array_layers: DescriptorImageDescArray,
}

/// A buffer descriptor.
#[derive(Clone, Copy, Debug, PartialEq, Eq, Structural)]
pub struct DescriptorBufferDesc {
    pub dynamic: Option<bool>,
    pub storage: bool,
}

/// The type of a descriptor.
#[derive(Clone, Copy, Debug, PartialEq, Eq, Structural)]
pub enum DescriptorDescTy {
    Sampler,
    CombinedImageSampler(DescriptorImageDesc),
    Image(DescriptorImageDesc),
    TexelBuffer { storage: bool, format: Option<Format> },
    InputAttachment { multisampled: bool, array_layers: DescriptorImageDescArray },
    Buffer(DescriptorBufferDesc),
}

/// The shader stages of a descriptor.
#[derive(Clone, Copy, Debug, PartialEq, Eq, Structural)]
pub struct ShaderStages {
    pub vertex: bool,
    pub tessellation_control: bool,
    pub tessellation_evaluation: bool,
    pub geometry: bool,
    pub fragment: bool,
    pub compute: bool,
}

/// A descriptor of a pipeline layout.
#[derive(Clone, Copy, Debug, PartialEq, Eq, Structural)]
pub struct DescriptorDesc {
    pub ty: DescriptorDescTy,
    pub array_count: u32,
    pub stages: ShaderStages,
    pub readonly: bool,
}

/// The first entry of a list, if any.
pub open spec fn first_of<T>(s: Seq<T>) -> Option<T> {
    if s.len() > 0 { Some(s[0]) } else { None }
}

/// A format index names a known format.
pub open spec fn format_ok(f: Option<u32>) -> bool {
    f matches Some(v) ==> v < FORMAT_COUNT
}

/// The format a format index names.
pub open spec fn format_of(f: Option<u32>) -> Option<Format> {
    match f {
        Some(v) => Some(Format(v)),
        None => None,
    }
}

pub open spec fn img_array_spec(d: CompilerDescriptorImageArray) -> DescriptorImageDescArray {
    if !d.0 {
        DescriptorImageDescArray::NonArrayed
    } else {
        DescriptorImageDescArray::Arrayed { max_layers: first_of(d.1@) }
    }
}

pub open spec fn dims_spec(d: CompilerImageDims) -> DescriptorImageDescDimensions {
    match d {
        CompilerImageDims::Dim1 => DescriptorImageDescDimensions::OneDimensional,
        CompilerImageDims::Dim2 => DescriptorImageDescDimensions::TwoDimensional,
        CompilerImageDims::Dim3 => DescriptorImageDescDimensions::ThreeDimensional,
        CompilerImageDims::Cube => DescriptorImageDescDimensions::Cube,
    }
}

pub open spec fn img_desc_ok(d: CompilerDescriptorImageDesc) -> bool {
    format_ok(first_of(d.2@))
}

pub open spec fn img_desc_spec(d: CompilerDescriptorImageDesc) -> DescriptorImageDesc {
    DescriptorImageDesc {
        sampled: d.0,
        dimensions: dims_spec(d.1),
        format: format_of(first_of(d.2@)),
        multisampled: d.3,
        array_layers: img_array_spec(d.4),
    }
}

pub open spec fn buffer_desc_spec(d: CompilerDescriptorBufferDesc) -> DescriptorBufferDesc {
    DescriptorBufferDesc { dynamic: first_of(d.0@), storage: d.1 }
}

/// A descriptor type can be converted: the list for its kind has an entry, and the
/// formats it names are known.
pub open spec fn desc_ty_ok(d: CompilerDescriptorDescTy) -> bool {
    match d.0 {
        CompilerDescriptorKind::Sampler => true,
        CompilerDescriptorKind::CombinedImageSampler => d.1@.len() > 0 && img_desc_ok(d.1@[0]),
        CompilerDescriptorKind::Image => d.2@.len() > 0 && img_desc_ok(d.2@[0]),
        CompilerDescriptorKind::TexelBuffer => d.3@.len() > 0 && format_ok(first_of(d.3@[0].1@)),
        CompilerDescriptorKind::InputAttachment => d.4@.len() > 0,
        CompilerDescriptorKind::Buffer => d.5@.len() > 0,
    }
}

pub open spec fn desc_ty_spec(d: CompilerDescriptorDescTy) -> DescriptorDescTy {
    match d.0 {
        CompilerDescriptorKind::Sampler => DescriptorDescTy::Sampler,
        CompilerDescriptorKind::CombinedImageSampler => DescriptorDescTy::CombinedImageSampler(img_desc_spec(d.1@[0])),
        CompilerDescriptorKind::Image => DescriptorDescTy::Image(img_desc_spec(d.2@[0])),
        CompilerDescriptorKind::TexelBuffer => DescriptorDescTy::TexelBuffer {
            storage: d.3@[0].0,
            format: format_of(first_of(d.3@[0].1@)),
        },
        CompilerDescriptorKind::InputAttachment => DescriptorDescTy::InputAttachment {
            multisampled: d.4@[0].0,
            array_layers: img_array_spec(d.4@[0].1),
        },
        CompilerDescriptorKind::Buffer => DescriptorDescTy::Buffer(buffer_desc_spec(d.5@[0])),
    }
}

pub open spec fn stages_spec(d: CompilerShaderStages) -> ShaderStages {
    ShaderStages {
        vertex: d.0,
        tessellation_control: d.1,
        tessellation_evaluation: d.2,
        geometry: d.3,
        fragment: d.4,
        compute: d.5,
    }
}

pub open spec fn desc_ok(d: CompilerDescriptorDesc) -> bool {
    desc_ty_ok(d.1)
}

pub open spec fn desc_spec(d: CompilerDescriptorDesc) -> DescriptorDesc {
    DescriptorDesc { ty: desc_ty_spec(d.1), array_count: d.2, stages: stages_spec(d.3), readonly: d.4 }
}

fn first_u32(v: &Vec<u32>) -> (r: Option<u32>)
    ensures r == first_of(v@),
{
    if v.len() > 0 { Some(v[0]) } else { None }
}

fn first_bool(v: &Vec<bool>) -> (r: Option<bool>)
    ensures r == first_of(v@),
{
    if v.len() > 0 { Some(v[0]) } else { None }
}

/// The format a compiler format index names; the index must be known.
pub fn compiler_img_format(f: u32) -> (r: Format)
    requires f < FORMAT_COUNT,
    ensures r == Format(f),
{
    Format(f)
}

fn format_from(f: Option<u32>) -> (r: Option<Format>)
    requires format_ok(f),
    ensures r == format_of(f),
{
    match f {
        Some(v) => Some(compiler_img_format(v)),
        None => None,
    }
}

/// Convert the arrayedness of an image.
pub fn convert_descriptor_img_array(d: &CompilerDescriptorImageArray) -> (r: DescriptorImageDescArray)
    ensures r == img_array_spec(*d),
{
    if !d.0 {
        DescriptorImageDescArray::NonArrayed
    } else {
        DescriptorImageDescArray::Arrayed { max_layers: first_u32(&d.1) }
    }
}

/// Convert an image descriptor.
pub fn convert_descriptor_img_desc(d: &CompilerDescriptorImageDesc) -> (r: DescriptorImageDesc)
    requires img_desc_ok(*d),
    ensures r == img_desc_spec(*d),
{
    DescriptorImageDesc {
        sampled: d.0,
        dimensions: match d.1 {
            CompilerImageDims::Dim1 => DescriptorImageDescDimensions::OneDimensional,
            CompilerImageDims::Dim2 => DescriptorImageDescDimensions::TwoDimensional,
            CompilerImageDims::Dim3 => DescriptorImageDescDimensions::ThreeDimensional,
            CompilerImageDims::Cube => DescriptorImageDescDimensions::Cube,
        },
        format: format_from(first_u32(&d.2)),
        multisampled: d.3,
        array_layers: convert_descriptor_img_array(&d.4),
    }
}

/// Convert a buffer descriptor.
pub fn convert_descriptor_buffer_desc(d: &CompilerDescriptorBufferDesc) -> (r: DescriptorBufferDesc)
    ensures r == buffer_desc_spec(*d),
{
    DescriptorBufferDesc { dynamic: first_bool(&d.0), storage: d.1 }
}

/// Convert a descriptor type, using the first entry of the list for its kind.
pub fn convert_descriptor_desc_ty(d: &CompilerDescriptorDescTy) -> (r: DescriptorDescTy)
    requires desc_ty_ok(*d),
    ensures r == desc_ty_spec(*d),
{
    match d.0 {
        CompilerDescriptorKind::Sampler => DescriptorDescTy::Sampler,
        CompilerDescriptorKind::CombinedImageSampler =>
            DescriptorDescTy::CombinedImageSampler(convert_descriptor_img_desc(&d.1[0])),
        CompilerDescriptorKind::Image => DescriptorDescTy::Image(convert_descriptor_img_desc(&d.2[0])),
        CompilerDescriptorKind::TexelBuffer => DescriptorDescTy::TexelBuffer {
            storage: d.3[0].0,
            format: format_from(first_u32(&d.3[0].1)),
        },
        CompilerDescriptorKind::InputAttachment => DescriptorDescTy::InputAttachment {
            multisampled: d.4[0].0,
            array_layers: convert_descriptor_img_array(&d.4[0].1),
        },
        CompilerDescriptorKind::Buffer => DescriptorDescTy::Buffer(convert_descriptor_buffer_desc(&d.5[0])),
    }
}

/// Law: a converted binding is used in exactly the stages the compiler marked,
/// stage by stage (the compiler lists vertex, tessellation control, tessellation
/// evaluation, geometry, fragment, compute, in that order).
pub proof fn law_stages_by_name(d: CompilerShaderStages)
    ensures
        stages_spec(d).vertex == d.0,
        stages_spec(d).tessellation_control == d.1,
        stages_spec(d).tessellation_evaluation == d.2,
        stages_spec(d).geometry == d.3,
        stages_spec(d).fragment == d.4,
        stages_spec(d).compute == d.5,
        // no stage is gained or lost
        (d.0 || d.1 || d.2 || d.3 || d.4 || d.5) == (stages_spec(d).vertex || stages_spec(d).tessellation_control
            || stages_spec(d).tessellation_evaluation || stages_spec(d).geometry || stages_spec(d).fragment
            || stages_spec(d).compute),
{
}

/// Convert the stages a descriptor is used in.
pub fn convert_shader_stages(d: &CompilerShaderStages) -> (r: ShaderStages)
    ensures
        r == stages_spec(*d),
        r.vertex == d.0,
        r.tessellation_control == d.1,
        r.tessellation_evaluation == d.2,
        r.geometry == d.3,
        r.fragment == d.4,
        r.compute == d.5,
{
    ShaderStages {
        vertex: d.0,
        tessellation_control: d.1,
        tessellation_evaluation: d.2,
        geometry: d.3,
        fragment: d.4,
        compute: d.5,
    }
}

/// Convert a descriptor binding.
pub fn convert_descriptor_desc(d: &CompilerDescriptorDesc) -> (r: DescriptorDesc)
    requires desc_ok(*d),
    ensures
        r == desc_spec(*d),
        r.array_count == d.2,
        r.readonly == d.4,
        r.stages.vertex == d.3.0,
        r.stages.tessellation_control == d.3.1,
        r.stages.tessellation_evaluation == d.3.2,
        r.stages.geometry == d.3.3,
        r.stages.fragment == d.3.4,
        r.stages.compute == d.3.5,
{
    DescriptorDesc {
        ty: convert_descriptor_desc_ty(&d.1),
        array_count: d.2,
        stages: convert_shader_stages(&d.3),
        readonly: d.4,
    }
}

} // verus!
