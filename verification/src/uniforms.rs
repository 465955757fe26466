//! The uniforms that the passes hand to their shaders, word for word.
use vstd::prelude::*;

use crate::bytes::{
    law_words_read_back, word_at, words_to_bytes, zeroed_words, ByteOrder, FloatBits,
};

verus! {

/// What the occlusion shaders read. Keep in sync with `occlusion/common.wgsl`.
///
/// Behind the last field the buffer is filled up with zeros to 256 bytes,
/// since uniform buffers are allocated in steps of that size.
#[derive(Clone, Copy, Debug)]
pub struct OcclusionUniformBuffer {
    /// Column by column.
    pub view_from_projection: [FloatBits; 16],
    pub framebuffer_resolution: [FloatBits; 2],
    /// Pixels per world unit: at unit view depth for a perspective projection,
    /// outright for an orthographic one.
    pub pixels_per_world_unit: FloatBits,
    /// 1 for a perspective projection, 0 for an orthographic one.
    pub perspective: u32,
    pub world_radius: FloatBits,
    pub pixel_radius_min: FloatBits,
    pub pixel_radius_max: FloatBits,
    pub strength: FloatBits,
    /// Disk samples, or horizon slices.
    pub sample_count: u32,
    /// Horizon method only: samples along each slice direction.
    pub steps_per_slice: u32,
}

/// The size of [`OcclusionUniformBuffer`] in bytes.
pub const OCCLUSION_UNIFORM_SIZE: u64 = 256;

/// The fields of [`OcclusionUniformBuffer`].
#[derive(Clone, Copy, Debug, PartialEq, Eq, Structural)]
pub enum OcclusionUniformField {
    ViewFromProjection,
    FramebufferResolution,
    PixelsPerWorldUnit,
    Perspective,
    WorldRadius,
    PixelRadiusMin,
    PixelRadiusMax,
    Strength,
    SampleCount,
    StepsPerSlice,
}

impl OcclusionUniformField {
    /// The fields in the order they stand in.
    pub open spec fn in_order() -> Seq<OcclusionUniformField> {
        seq![
            OcclusionUniformField::ViewFromProjection,
            OcclusionUniformField::FramebufferResolution,
            OcclusionUniformField::PixelsPerWorldUnit,
            OcclusionUniformField::Perspective,
            OcclusionUniformField::WorldRadius,
            OcclusionUniformField::PixelRadiusMin,
            OcclusionUniformField::PixelRadiusMax,
            OcclusionUniformField::Strength,
            OcclusionUniformField::SampleCount,
            OcclusionUniformField::StepsPerSlice,
        ]
    }

    /// The place of the field among the others.
    pub open spec fn position(self) -> int {
        match self {
            OcclusionUniformField::ViewFromProjection => 0,
            OcclusionUniformField::FramebufferResolution => 1,
            OcclusionUniformField::PixelsPerWorldUnit => 2,
            OcclusionUniformField::Perspective => 3,
            OcclusionUniformField::WorldRadius => 4,
            OcclusionUniformField::PixelRadiusMin => 5,
            OcclusionUniformField::PixelRadiusMax => 6,
            OcclusionUniformField::Strength => 7,
            OcclusionUniformField::SampleCount => 8,
            OcclusionUniformField::StepsPerSlice => 9,
        }
    }

    /// The size of the field in bytes: 4 for each number in it.
    pub open spec fn size(self) -> int {
        match self {
            OcclusionUniformField::ViewFromProjection => 64,
            OcclusionUniformField::FramebufferResolution => 8,
            _ => 4,
        }
    }

    /// What a shader demands that the field's offset be a multiple of: 16 for a
    /// matrix, 8 for a pair, 4 for a single number.
    pub open spec fn shader_alignment(self) -> int {
        match self {
            OcclusionUniformField::ViewFromProjection => 16,
            OcclusionUniformField::FramebufferResolution => 8,
            _ => 4,
        }
    }

    /// The offset of the field in bytes: the fields before it leave no gap.
    pub open spec fn spec_offset(self) -> int {
        bytes_before(self.position())
    }

    /// The offset of the field in bytes.
    pub fn offset(self) -> (r: usize)
        ensures
            r == self.spec_offset(),
    {
        reveal_with_fuel(bytes_before, 11);
        match self {
            OcclusionUniformField::ViewFromProjection => 0,
            OcclusionUniformField::FramebufferResolution => 64,
            OcclusionUniformField::PixelsPerWorldUnit => 72,
            OcclusionUniformField::Perspective => 76,
            OcclusionUniformField::WorldRadius => 80,
            OcclusionUniformField::PixelRadiusMin => 84,
            OcclusionUniformField::PixelRadiusMax => 88,
            OcclusionUniformField::Strength => 92,
            OcclusionUniformField::SampleCount => 96,
            OcclusionUniformField::StepsPerSlice => 100,
        }
    }
}

/// The size in bytes of the first `n` fields of [`OcclusionUniformBuffer`].
pub open spec fn bytes_before(n: int) -> int
    decreases n,
{
    if n <= 0 {
        0
    } else {
        bytes_before(n - 1) + OcclusionUniformField::in_order()[n - 1].size()
    }
}

/// The words of a run of floats.
pub open spec fn float_words(floats: Seq<FloatBits>) -> Seq<u32> {
    floats.map_values(|float: FloatBits| float.bits)
}

impl OcclusionUniformBuffer {
    /// The words of a field.
    pub open spec fn field_words(self, field: OcclusionUniformField) -> Seq<u32> {
        match field {
            OcclusionUniformField::ViewFromProjection => float_words(self.view_from_projection@),
            OcclusionUniformField::FramebufferResolution => float_words(
                self.framebuffer_resolution@,
            ),
            OcclusionUniformField::PixelsPerWorldUnit => seq![self.pixels_per_world_unit.bits],
            OcclusionUniformField::Perspective => seq![self.perspective],
            OcclusionUniformField::WorldRadius => seq![self.world_radius.bits],
            OcclusionUniformField::PixelRadiusMin => seq![self.pixel_radius_min.bits],
            OcclusionUniformField::PixelRadiusMax => seq![self.pixel_radius_max.bits],
            OcclusionUniformField::Strength => seq![self.strength.bits],
            OcclusionUniformField::SampleCount => seq![self.sample_count],
            OcclusionUniformField::StepsPerSlice => seq![self.steps_per_slice],
        }
    }

    /// The words of the buffer: those of its fields one after the other, then
    /// zeros.
    pub open spec fn spec_words(self) -> Seq<u32> {
        float_words(self.view_from_projection@) + float_words(self.framebuffer_resolution@)
            + seq![
            self.pixels_per_world_unit.bits,
            self.perspective,
            self.world_radius.bits,
            self.pixel_radius_min.bits,
            self.pixel_radius_max.bits,
            self.strength.bits,
            self.sample_count,
            self.steps_per_slice,
        ] + Seq::new(38, |i: int| 0u32)
    }

    /// The words of the buffer.
    pub fn words(&self) -> (r: [u32; 64])
        ensures
            r@ == self.spec_words(),
    {
        let mut words = zeroed_words();
        let mut i: usize = 0;
        while i < 16
            invariant
                i <= 16,
                forall|k: int| 0 <= k < i ==> words@[k] == self.view_from_projection@[k].bits,
                forall|k: int| i <= k < 64 ==> words@[k] == 0,
            decreases 16 - i,
        {
            words[i] = self.view_from_projection[i].bits;
            i += 1;
        }
        words[16] = self.framebuffer_resolution[0].bits;
        words[17] = self.framebuffer_resolution[1].bits;
        words[18] = self.pixels_per_world_unit.bits;
        words[19] = self.perspective;
        words[20] = self.world_radius.bits;
        words[21] = self.pixel_radius_min.bits;
        words[22] = self.pixel_radius_max.bits;
        words[23] = self.strength.bits;
        words[24] = self.sample_count;
        words[25] = self.steps_per_slice;
        assert(words@ =~= self.spec_words());
        words
    }
}

/// Each field of the occlusion uniform stands at its offset.
pub proof fn law_fields_stand_at_their_offsets(
    uniform: OcclusionUniformBuffer,
    field: OcclusionUniformField,
)
    ensures
        field.spec_offset() % 4 == 0,
        uniform.field_words(field).len() * 4 == field.size(),
        uniform.spec_words().subrange(
            field.spec_offset() / 4,
            (field.spec_offset() + field.size()) / 4,
        ) == uniform.field_words(field),
{
    reveal_with_fuel(bytes_before, 11);
    let words = uniform.spec_words();
    assert(words.subrange(field.spec_offset() / 4, (field.spec_offset() + field.size()) / 4)
        =~= uniform.field_words(field));
}

/// A shader that reads the bytes of the occlusion uniform at the offset of a
/// field finds the field there.
pub proof fn law_a_field_is_read_where_it_was_written(
    uniform: OcclusionUniformBuffer,
    field: OcclusionUniformField,
    order: ByteOrder,
    k: int,
)
    requires
        0 <= k < uniform.field_words(field).len(),
    ensures
        word_at(
            words_to_bytes(uniform.spec_words(), order),
            order,
            field.spec_offset() + 4 * k,
        ) == uniform.field_words(field)[k],
{
    law_fields_stand_at_their_offsets(uniform, field);
    reveal_with_fuel(bytes_before, 11);
    let place = field.spec_offset() / 4;
    law_words_read_back(uniform.spec_words(), order, place + k);
    assert(uniform.spec_words().subrange(place, (field.spec_offset() + field.size()) / 4)[k]
        == uniform.spec_words()[place + k]);
}

/// The occlusion uniform is laid out as a shader lays out the same fields: each
/// stands at the first place behind the one before it that its type's alignment
/// allows. So the shader reads every field from where it was written.
pub proof fn law_offsets_are_those_of_a_shader(field: OcclusionUniformField)
    ensures
        field.spec_offset() % field.shader_alignment() == 0,
        field.position() == 0 ==> field.spec_offset() == 0,
        field.position() > 0 ==> {
            let before = OcclusionUniformField::in_order()[field.position() - 1];
            let end = before.spec_offset() + before.size();
            end <= field.spec_offset() < end + field.shader_alignment()
        },
        OcclusionUniformField::in_order()[field.position()] == field,
{
    reveal_with_fuel(bytes_before, 11);
}

/// The occlusion uniform takes up 256 bytes, and behind its fields all of them
/// are zero.
pub proof fn law_uniform_is_filled_up_with_zeros(uniform: OcclusionUniformBuffer)
    ensures
        uniform.spec_words().len() * 4 == OCCLUSION_UNIFORM_SIZE,
        bytes_before(10) == 104,
        forall|i: int|
            bytes_before(10) <= 4 * i < OCCLUSION_UNIFORM_SIZE
                ==> #[trigger] uniform.spec_words()[i] == 0,
{
    reveal_with_fuel(bytes_before, 11);
}

/// The occlusion uniform word by word: the sixteen numbers of the matrix, the two
/// of the resolution, then a number for each other field, then zeros.
pub proof fn law_words_of_the_occlusion_uniform(uniform: OcclusionUniformBuffer)
    ensures
        ({
            let words = uniform.spec_words();
            &&& words.len() == 64
            &&& forall|i: int|
                0 <= i < 16 ==> #[trigger] words[i] == uniform.view_from_projection@[i].bits
            &&& words[16] == uniform.framebuffer_resolution@[0].bits
            &&& words[17] == uniform.framebuffer_resolution@[1].bits
            &&& words[18] == uniform.pixels_per_world_unit.bits
            &&& words[19] == uniform.perspective
            &&& words[20] == uniform.world_radius.bits
            &&& words[21] == uniform.pixel_radius_min.bits
            &&& words[22] == uniform.pixel_radius_max.bits
            &&& words[23] == uniform.strength.bits
            &&& words[24] == uniform.sample_count
            &&& words[25] == uniform.steps_per_slice
            &&& forall|i: int| 26 <= i < 64 ==> #[trigger] words[i] == 0
        }),
{
}

/// Style and hover state of one mesh's elements, as the shader reads them.
#[derive(Clone, Copy, Debug)]
pub struct ElementStyleUniform {
    pub edge_color: [FloatBits; 4],
    pub hover_color: [FloatBits; 4],
    pub edge_half_width_px: FloatBits,
    pub hover_half_width_px: FloatBits,
    pub vertex_radius_px: FloatBits,
    pub hover_element_id: u32,
}

/// The size of [`ElementStyleUniform`] in bytes.
pub const ELEMENT_STYLE_SIZE: u64 = 48;

impl ElementStyleUniform {
    /// The words of the uniform: those of its fields one after the other.
    pub open spec fn spec_words(self) -> Seq<u32> {
        float_words(self.edge_color@) + float_words(self.hover_color@) + seq![
            self.edge_half_width_px.bits,
            self.hover_half_width_px.bits,
            self.vertex_radius_px.bits,
            self.hover_element_id,
        ]
    }

    /// The words of the uniform.
    pub fn words(&self) -> (r: [u32; 12])
        ensures
            r@ == self.spec_words(),
    {
        let words = [
            self.edge_color[0].bits,
            self.edge_color[1].bits,
            self.edge_color[2].bits,
            self.edge_color[3].bits,
            self.hover_color[0].bits,
            self.hover_color[1].bits,
            self.hover_color[2].bits,
            self.hover_color[3].bits,
            self.edge_half_width_px.bits,
            self.hover_half_width_px.bits,
            self.vertex_radius_px.bits,
            self.hover_element_id,
        ];
        assert(words@ =~= self.spec_words());
        words
    }
}

/// The style word by word: four numbers for each color, then one for each other
/// field.
pub proof fn law_words_of_the_style(style: ElementStyleUniform)
    ensures
        ({
            let words = style.spec_words();
            &&& words.len() == 12
            &&& forall|i: int| 0 <= i < 4 ==> #[trigger] words[i] == style.edge_color@[i].bits
            &&& forall|i: int| 4 <= i < 8 ==> #[trigger] words[i] == style.hover_color@[i - 4].bits
            &&& words[8] == style.edge_half_width_px.bits
            &&& words[9] == style.hover_half_width_px.bits
            &&& words[10] == style.vertex_radius_px.bits
            &&& words[11] == style.hover_element_id
        }),
{
}

} // verus!
