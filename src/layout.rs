//! Byte layout of the records that the render pipelines read: the attributes
//! of each vertex buffer, with their shader locations, offsets and strides.
use vstd::prelude::*;

verus! {

/// The scalar formats that the pipelines feed to their shaders.
#[derive(Clone, Copy, Debug, PartialEq, Eq, Structural)]
pub enum AttributeFormat {
    /// One 32-bit float.
    Float32,
    /// Two 32-bit floats.
    Float32x2,
}

impl AttributeFormat {
    /// Size in bytes of one value of this format.
    pub open spec fn byte_size(self) -> nat {
        match self {
            AttributeFormat::Float32 => 4,
            AttributeFormat::Float32x2 => 8,
        }
    }

    pub fn size(&self) -> (r: u64)
        ensures
            r == self.byte_size(),
    {
        match self {
            AttributeFormat::Float32 => 4,
            AttributeFormat::Float32x2 => 8,
        }
    }
}

/// How the GPU advances through a vertex buffer.
#[derive(Clone, Copy, Debug, PartialEq, Eq, Structural)]
pub enum StepMode {
    /// One record per vertex.
    Vertex,
    /// One record per drawn instance.
    Instance,
}

/// One attribute of a vertex buffer.
#[derive(Clone, Copy, Debug, PartialEq, Eq, Structural)]
pub struct VertexAttr {
    pub format: AttributeFormat,
    pub shader_location: u32,
    pub offset: u64,
}

/// A vertex buffer's layout: the record size and its attributes.
#[derive(Clone, Debug)]
pub struct BufferLayout {
    pub stride: u64,
    pub step_mode: StepMode,
    pub attributes: Vec<VertexAttr>,
}

/// Byte offset of field `n` when the fields are laid out back to back.
pub open spec fn packed_offset(formats: Seq<AttributeFormat>, n: int) -> nat
    decreases n,
{
    if n <= 0 {
        0
    } else {
        packed_offset(formats, n - 1) + formats[n - 1].byte_size()
    }
}

/// Total size of the fields laid out back to back.
pub open spec fn packed_size(formats: Seq<AttributeFormat>) -> nat {
    packed_offset(formats, formats.len() as int)
}

pub open spec fn attr(format: AttributeFormat, location: u32, offset: u64) -> VertexAttr {
    VertexAttr { format, shader_location: location, offset }
}

/// `attrs` places `formats` back to back, numbered from `first_location`.
pub open spec fn packed_from(
    attrs: Seq<VertexAttr>,
    formats: Seq<AttributeFormat>,
    first_location: int,
) -> bool {
    &&& attrs.len() == formats.len()
    &&& forall|i: int|
        0 <= i < attrs.len() ==> #[trigger] attrs[i] == attr(
            formats[i],
            (first_location + i) as u32,
            packed_offset(formats, i) as u64,
        )
}

proof fn lemma_packed_offset_bounded(formats: Seq<AttributeFormat>, n: int)
    requires
        0 <= n <= formats.len(),
    ensures
        packed_offset(formats, n) <= 8 * n,
    decreases n,
{
    if n > 0 {
        lemma_packed_offset_bounded(formats, n - 1);
    }
}

proof fn lemma_offset_monotone(formats: Seq<AttributeFormat>, j: int, k: int)
    requires
        0 <= j <= k <= formats.len(),
    ensures
        packed_offset(formats, j) <= packed_offset(formats, k),
    decreases k - j,
{
    if j < k {
        lemma_offset_monotone(formats, j, k - 1);
    }
}

/// Fields laid out back to back never overlap: every field ends at or
/// before the start of each later one, and within the packed size.
pub proof fn lemma_packed_disjoint(formats: Seq<AttributeFormat>, i: int, j: int)
    requires
        0 <= i < j <= formats.len(),
    ensures
        packed_offset(formats, i) + formats[i].byte_size() <= packed_offset(formats, j),
        packed_offset(formats, j) <= packed_size(formats),
{
    lemma_offset_monotone(formats, i + 1, j);
    lemma_offset_monotone(formats, j, formats.len() as int);
}

/// The attributes of a record whose fields have the given formats, in order
/// and without gaps, numbered from `first_location`.
pub fn packed_attributes(formats: &Vec<AttributeFormat>, first_location: u32) -> (r: Vec<VertexAttr>)
    requires
        first_location + formats.len() <= u32::MAX + 1,
    ensures
        packed_from(r@, formats@, first_location as int),
{
    let mut r: Vec<VertexAttr> = Vec::new();
    let mut offset: u64 = 0;
    let mut i: usize = 0;
    while i < formats.len()
        invariant
            0 <= i <= formats.len(),
            first_location + formats.len() <= u32::MAX + 1,
            offset == packed_offset(formats@, i as int),
            packed_from(r@, formats@.take(i as int), first_location as int),
            forall|k: int| 0 <= k <= i ==> packed_offset(formats@.take(i as int), k)
                == packed_offset(formats@, k),
        decreases formats.len() - i,
    {
        proof {
            lemma_packed_offset_bounded(formats@, i as int);
        }
        let format = formats[i];
        r.push(VertexAttr { format, shader_location: first_location + i as u32, offset });
        offset = offset + format.size();
        i = i + 1;
        proof {
            let t = formats@.take(i as int);
            assert forall|k: int| 0 <= k <= i implies packed_offset(t, k) == packed_offset(
                formats@,
                k,
            ) by {
                lemma_take_offset(formats@, i as int, k);
            }
        }
    }
    assert(formats@.take(i as int) =~= formats@);
    r
}

proof fn lemma_take_offset(formats: Seq<AttributeFormat>, n: int, k: int)
    requires
        0 <= k <= n <= formats.len(),
    ensures
        packed_offset(formats.take(n), k) == packed_offset(formats, k),
    decreases k,
{
    if k > 0 {
        lemma_take_offset(formats, n, k - 1);
    }
}

/// Total size in bytes of the given fields laid out back to back.
pub fn packed_record_size(formats: &Vec<AttributeFormat>) -> (r: u64)
    requires
        formats.len() <= u32::MAX,
    ensures
        r == packed_size(formats@),
{
    let mut total: u64 = 0;
    let mut i: usize = 0;
    while i < formats.len()
        invariant
            0 <= i <= formats.len() <= u32::MAX,
            total == packed_offset(formats@, i as int),
        decreases formats.len() - i,
    {
        proof {
            lemma_packed_offset_bounded(formats@, i as int);
        }
        total = total + formats[i].size();
        i = i + 1;
    }
    total
}

/// Fields of one wave record: center (x, y), inner radius, thickness,
/// amplitude, cycles, speed, then one float of padding.
pub open spec fn wave_fields() -> Seq<AttributeFormat> {
    seq![
        AttributeFormat::Float32x2,
        AttributeFormat::Float32,
        AttributeFormat::Float32,
        AttributeFormat::Float32,
        AttributeFormat::Float32,
        AttributeFormat::Float32,
        AttributeFormat::Float32,
    ]
}

/// Number of wave record fields that the shader reads; the rest is padding.
pub const WAVE_SHADER_FIELDS: usize = 6;

/// First shader location of the wave attributes; location 0 is the quad corner.
pub const WAVE_FIRST_LOCATION: u32 = 1;

/// Fields of the global uniform: resolution (width, height), phase, padding.
pub open spec fn global_fields() -> Seq<AttributeFormat> {
    seq![AttributeFormat::Float32x2, AttributeFormat::Float32, AttributeFormat::Float32]
}

/// Fields of one boundary vertex: its position (x, y).
pub open spec fn vertex_fields() -> Seq<AttributeFormat> {
    seq![AttributeFormat::Float32x2]
}

pub fn wave_record_fields() -> (r: Vec<AttributeFormat>)
    ensures
        r@ == wave_fields(),
{
    let r = vec![
        AttributeFormat::Float32x2,
        AttributeFormat::Float32,
        AttributeFormat::Float32,
        AttributeFormat::Float32,
        AttributeFormat::Float32,
        AttributeFormat::Float32,
        AttributeFormat::Float32,
    ];
    assert(r@ =~= wave_fields());
    r
}

/// Size in bytes of one wave record, padding included.
pub fn wave_record_size() -> (r: u64)
    ensures
        r == packed_size(wave_fields()),
        r == 32,
{
    let fields = wave_record_fields();
    proof {
        reveal_with_fuel(packed_offset, 8);
    }
    packed_record_size(&fields)
}

/// Size in bytes of the global uniform, padding included.
pub fn global_uniform_size() -> (r: u64)
    ensures
        r == packed_size(global_fields()),
        r == 16,
{
    let fields = vec![AttributeFormat::Float32x2, AttributeFormat::Float32, AttributeFormat::Float32];
    assert(fields@ =~= global_fields());
    proof {
        reveal_with_fuel(packed_offset, 4);
    }
    packed_record_size(&fields)
}

/// Layout of the per-instance buffer of waves: one record per wave, its six
/// shader fields at locations 1 to 6, the padding left out.
pub fn wave_instance_layout() -> (r: BufferLayout)
    ensures
        r.stride == packed_size(wave_fields()),
        r.step_mode == StepMode::Instance,
        packed_from(r.attributes@, wave_fields().take(6), 1),
        r.stride == 32,
        r.attributes@ == seq![
            attr(AttributeFormat::Float32x2, 1, 0),
            attr(AttributeFormat::Float32, 2, 8),
            attr(AttributeFormat::Float32, 3, 12),
            attr(AttributeFormat::Float32, 4, 16),
            attr(AttributeFormat::Float32, 5, 20),
            attr(AttributeFormat::Float32, 6, 24),
        ],
{
    let mut fields = wave_record_fields();
    let stride = wave_record_size();
    fields.truncate(WAVE_SHADER_FIELDS);
    assert(fields@ =~= wave_fields().take(6));
    let attributes = packed_attributes(&fields, WAVE_FIRST_LOCATION);
    proof {
        reveal_with_fuel(packed_offset, 8);
        let f = wave_fields().take(6);
        assert(packed_offset(f, 5) == 24);
        assert(attributes@[5] == attr(AttributeFormat::Float32, 6, 24));
        assert(attributes@ =~= seq![
            attr(AttributeFormat::Float32x2, 1, 0),
            attr(AttributeFormat::Float32, 2, 8),
            attr(AttributeFormat::Float32, 3, 12),
            attr(AttributeFormat::Float32, 4, 16),
            attr(AttributeFormat::Float32, 5, 20),
            attr(AttributeFormat::Float32, 6, 24),
        ]);
    }
    BufferLayout { stride, step_mode: StepMode::Instance, attributes }
}

/// Layout of the boundary quad's vertex buffer: one position per vertex at
/// location 0.
pub fn boundary_vertex_layout() -> (r: BufferLayout)
    ensures
        r.stride == packed_size(vertex_fields()),
        r.step_mode == StepMode::Vertex,
        packed_from(r.attributes@, vertex_fields(), 0),
        r.stride == 8,
        r.attributes@ == seq![attr(AttributeFormat::Float32x2, 0, 0)],
{
    let fields = vec![AttributeFormat::Float32x2];
    assert(fields@ =~= vertex_fields());
    let stride = packed_record_size(&fields);
    let attributes = packed_attributes(&fields, 0);
    proof {
        reveal_with_fuel(packed_offset, 2);
        assert(attributes@ =~= seq![attr(AttributeFormat::Float32x2, 0, 0)]);
    }
    BufferLayout { stride, step_mode: StepMode::Vertex, attributes }
}

} // verus!
