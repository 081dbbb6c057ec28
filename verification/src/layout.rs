//! Vertex- and instance-buffer layouts.
//!
//! A layout names, for each attribute the shader reads, its format, its
//! byte offset into one element of the buffer, and its shader location.
//! The layouts here are packed: each attribute starts where the previous
//! one ends, and the stride of the buffer is the sum of the attribute
//! sizes. The caller turns a layout description into the graphics API's
//! own layout value.

use vstd::prelude::*;

verus! {

/// Byte size of one 32-bit float attribute component.
pub const FLOAT32_BYTES: u64 = 4;

/// The attribute formats the star shaders read.
#[derive(Clone, Copy, Debug, PartialEq, Eq, Structural)]
pub enum AttributeFormat {
    /// One 32-bit float.
    Float32,
    /// Two 32-bit floats.
    Float32x2,
}

/// Whether a buffer is stepped once per vertex or once per instance.
#[derive(Clone, Copy, Debug, PartialEq, Eq, Structural)]
pub enum StepMode {
    /// One element per vertex.
    Vertex,
    /// One element per instance.
    Instance,
}

/// Byte size of one attribute of the given format.
pub open spec fn format_size(format: AttributeFormat) -> int {
    match format {
        AttributeFormat::Float32 => 4,
        AttributeFormat::Float32x2 => 8,
    }
}

/// One attribute of a buffer layout.
#[derive(Clone, Copy, Debug, PartialEq, Eq, Structural)]
pub struct VertexAttribute {
    /// Format of the attribute's value.
    pub format: AttributeFormat,
    /// Byte offset of the attribute within one element.
    pub offset: u64,
    /// Location the shader binds the attribute to.
    pub shader_location: u32,
}

/// The layout of one vertex or instance buffer.
#[derive(Debug)]
pub struct BufferLayout {
    /// Byte distance between consecutive elements.
    pub array_stride: u64,
    /// How the buffer is stepped.
    pub step_mode: StepMode,
    /// The attributes of one element, in offset order.
    pub attributes: Vec<VertexAttribute>,
}

/// Sum of the byte sizes of the given formats.
pub open spec fn total_size(formats: Seq<AttributeFormat>) -> int
    decreases formats.len(),
{
    if formats.len() == 0 {
        0
    } else {
        total_size(formats.drop_last()) + format_size(formats.last())
    }
}

/// Byte offset of attribute `i` in a packed layout of the given formats:
/// the summed size of the attributes before it.
pub open spec fn packed_offset(formats: Seq<AttributeFormat>, i: int) -> int {
    total_size(formats.take(i))
}

/// The byte sizes of a prefix sum to no more than eight per format.
proof fn lemma_total_size_bounds(formats: Seq<AttributeFormat>)
    ensures
        0 <= total_size(formats) <= 8 * formats.len(),
    decreases formats.len(),
{
    if formats.len() > 0 {
        lemma_total_size_bounds(formats.drop_last());
    }
}

/// Adding one format to a prefix grows its summed size by that format's
/// size.
proof fn lemma_total_size_step(formats: Seq<AttributeFormat>, i: int)
    requires
        0 <= i < formats.len(),
    ensures
        total_size(formats.take(i + 1)) == total_size(formats.take(i)) + format_size(formats[i]),
{
    assert(formats.take(i + 1).drop_last() =~= formats.take(i));
    assert(formats.take(i + 1).last() == formats[i]);
}

/// A layout is packed for a list of formats when it holds one attribute
/// per format, in order, each starting where the previous one ends from
/// offset zero on, with consecutive shader locations, and a stride equal
/// to the summed sizes.
pub open spec fn is_packed_layout(
    layout: BufferLayout,
    formats: Seq<AttributeFormat>,
    first_shader_location: u32,
    step_mode: StepMode,
) -> bool {
    &&& layout.step_mode == step_mode
    &&& layout.attributes@.len() == formats.len()
    &&& forall|i: int|
        0 <= i < formats.len() ==> (#[trigger] layout.attributes@[i]).format == formats[i]
    &&& forall|i: int|
        0 <= i < formats.len() ==> (#[trigger] layout.attributes@[i]).offset == packed_offset(
            formats,
            i,
        )
    &&& forall|i: int|
        0 <= i < formats.len() ==> (#[trigger] layout.attributes@[i]).shader_location
            == first_shader_location + i
    &&& layout.array_stride == total_size(formats)
}

/// In a packed layout every attribute lies within the stride, and distinct
/// attributes occupy disjoint byte ranges.
pub open spec fn attributes_disjoint(layout: BufferLayout) -> bool {
    &&& forall|i: int|
        0 <= i < layout.attributes@.len() ==> (#[trigger] layout.attributes@[i]).offset
            + format_size(layout.attributes@[i].format) <= layout.array_stride
    &&& forall|i: int, j: int|
        0 <= i < j < layout.attributes@.len() ==> (#[trigger] layout.attributes@[i]).offset
            + format_size(layout.attributes@[i].format) <= (#[trigger] layout.attributes@[j]).offset
}

/// A packed layout keeps its attributes within the stride and apart from
/// one another.
pub proof fn lemma_packed_layout_disjoint(
    layout: BufferLayout,
    formats: Seq<AttributeFormat>,
    first_shader_location: u32,
    step_mode: StepMode,
)
    requires
        is_packed_layout(layout, formats, first_shader_location, step_mode),
    ensures
        attributes_disjoint(layout),
{
    assert forall|i: int| 0 <= i < formats.len() implies packed_offset(formats, i) + format_size(
        formats[i],
    ) <= total_size(formats) by {
        lemma_total_size_step(formats, i);
        lemma_packed_offset_monotonic(formats, i + 1, formats.len() as int);
        assert(formats.take(formats.len() as int) =~= formats);
    }
    assert forall|i: int, j: int| 0 <= i < j < formats.len() implies packed_offset(formats, i)
        + format_size(formats[i]) <= packed_offset(formats, j) by {
        lemma_total_size_step(formats, i);
        lemma_packed_offset_monotonic(formats, i + 1, j);
    }
}

/// Packed offsets grow with the attribute's place.
proof fn lemma_packed_offset_monotonic(formats: Seq<AttributeFormat>, i: int, j: int)
    requires
        0 <= i <= j <= formats.len(),
    ensures
        packed_offset(formats, i) <= packed_offset(formats, j),
    decreases j - i,
{
    if i < j {
        lemma_total_size_step(formats, j - 1);
        lemma_total_size_bounds(formats.take(j - 1));
        lemma_packed_offset_monotonic(formats, i, j - 1);
    }
}

/// Byte size of one attribute of the given format.
pub fn attribute_size(format: AttributeFormat) -> (size: u64)
    ensures
        size == format_size(format),
{
    match format {
        AttributeFormat::Float32 => FLOAT32_BYTES,
        AttributeFormat::Float32x2 => 2 * FLOAT32_BYTES,
    }
}

/// Build the packed layout of the given formats: offsets accumulate from
/// zero in order, shader locations count up from the given first one, and
/// the stride is the summed attribute sizes.
pub fn packed_layout(
    formats: &Vec<AttributeFormat>,
    first_shader_location: u32,
    step_mode: StepMode,
) -> (layout: BufferLayout)
    requires
        8 * formats@.len() <= u64::MAX,
        first_shader_location + formats@.len() <= u32::MAX,
    ensures
        is_packed_layout(layout, formats@, first_shader_location, step_mode),
{
    let mut attributes: Vec<VertexAttribute> = Vec::new();
    let mut offset: u64 = 0;
    let mut k: usize = 0;
    while k < formats.len()
        invariant
            k <= formats@.len(),
            8 * formats@.len() <= u64::MAX,
            first_shader_location + formats@.len() <= u32::MAX,
            attributes@.len() == k,
            offset == packed_offset(formats@, k as int),
            forall|i: int|
                0 <= i < k ==> (#[trigger] attributes@[i]).format == formats@[i],
            forall|i: int|
                0 <= i < k ==> (#[trigger] attributes@[i]).offset == packed_offset(formats@, i),
            forall|i: int|
                0 <= i < k ==> (#[trigger] attributes@[i]).shader_location == first_shader_location
                    + i,
        decreases formats@.len() - k,
    {
        let format = formats[k];
        proof {
            lemma_total_size_bounds(formats@.take(k as int));
            lemma_total_size_bounds(formats@);
            lemma_packed_offset_monotonic(formats@, k as int, formats@.len() as int);
            lemma_total_size_step(formats@, k as int);
        }
        let size = attribute_size(format);
        attributes.push(
            VertexAttribute {
                format,
                offset,
                shader_location: first_shader_location + (k as u32),
            },
        );
        offset = offset + size;
        k = k + 1;
    }
    proof {
        assert(formats@.take(formats@.len() as int) =~= formats@);
    }
    BufferLayout { array_stride: offset, step_mode, attributes }
}

/// The formats of the star outline's vertex buffer: one two-float
/// position.
pub open spec fn position_formats() -> Seq<AttributeFormat> {
    seq![AttributeFormat::Float32x2]
}

/// The formats of the star instance buffer: position, scale, initial
/// rotation, drift speed and rotation speed.
pub open spec fn instance_formats() -> Seq<AttributeFormat> {
    seq![
        AttributeFormat::Float32x2,
        AttributeFormat::Float32,
        AttributeFormat::Float32,
        AttributeFormat::Float32x2,
        AttributeFormat::Float32,
    ]
}

/// The layout of the star outline's vertex buffer: one two-float position
/// at offset zero and shader location zero, stepped per vertex, with a
/// stride of eight bytes.
pub fn position_vertex_layout() -> (layout: BufferLayout)
    ensures
        is_packed_layout(layout, position_formats(), 0, StepMode::Vertex),
        layout.array_stride == 8,
        layout.attributes@.len() == 1,
        layout.attributes@[0] == (VertexAttribute {
            format: AttributeFormat::Float32x2,
            offset: 0,
            shader_location: 0,
        }),
{
    let mut formats: Vec<AttributeFormat> = Vec::new();
    formats.push(AttributeFormat::Float32x2);
    proof {
        assert(formats@ =~= position_formats());
    }
    let layout = packed_layout(&formats, 0, StepMode::Vertex);
    proof {
        let fs = position_formats();
        assert(fs.take(0) =~= Seq::<AttributeFormat>::empty());
        lemma_total_size_step(fs, 0);
        assert(fs.take(1) =~= fs);
    }
    layout
}

/// The layout of the star instance buffer: the five instance attributes
/// packed at offsets 0, 8, 12, 16 and 24, bound to shader locations 2
/// through 6, stepped per instance, with a stride of 28 bytes.
pub fn star_instance_layout() -> (layout: BufferLayout)
    ensures
        is_packed_layout(layout, instance_formats(), 2, StepMode::Instance),
        layout.array_stride == 28,
        layout.attributes@.len() == 5,
        layout.attributes@[0] == (VertexAttribute {
            format: AttributeFormat::Float32x2,
            offset: 0,
            shader_location: 2,
        }),
        layout.attributes@[1] == (VertexAttribute {
            format: AttributeFormat::Float32,
            offset: 8,
            shader_location: 3,
        }),
        layout.attributes@[2] == (VertexAttribute {
            format: AttributeFormat::Float32,
            offset: 12,
            shader_location: 4,
        }),
        layout.attributes@[3] == (VertexAttribute {
            format: AttributeFormat::Float32x2,
            offset: 16,
            shader_location: 5,
        }),
        layout.attributes@[4] == (VertexAttribute {
            format: AttributeFormat::Float32,
            offset: 24,
            shader_location: 6,
        }),
{
    let mut formats: Vec<AttributeFormat> = Vec::new();
    formats.push(AttributeFormat::Float32x2);
    formats.push(AttributeFormat::Float32);
    formats.push(AttributeFormat::Float32);
    formats.push(AttributeFormat::Float32x2);
    formats.push(AttributeFormat::Float32);
    proof {
        assert(formats@ =~= instance_formats());
    }
    let layout = packed_layout(&formats, 2, StepMode::Instance);
    proof {
        let fs = instance_formats();
        assert(fs.take(0) =~= Seq::<AttributeFormat>::empty());
        lemma_total_size_step(fs, 0);
        lemma_total_size_step(fs, 1);
        lemma_total_size_step(fs, 2);
        lemma_total_size_step(fs, 3);
        lemma_total_size_step(fs, 4);
        assert(fs.take(5) =~= fs);
    }
    layout
}

} // verus!
