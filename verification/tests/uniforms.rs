use re_renderer::bytes::FloatBits;
use re_renderer::uniforms::{
    ElementStyleUniform, OcclusionUniformBuffer, OcclusionUniformField as Field,
    ELEMENT_STYLE_SIZE, OCCLUSION_UNIFORM_SIZE,
};
use wgpu::naga;

fn raw(bits: u32) -> FloatBits {
    FloatBits { bits }
}

fn uniform() -> OcclusionUniformBuffer {
    let mut view_from_projection = [raw(0); 16];
    for (i, float) in view_from_projection.iter_mut().enumerate() {
        *float = raw(100 + i as u32);
    }
    OcclusionUniformBuffer {
        view_from_projection,
        framebuffer_resolution: [raw(200), raw(201)],
        pixels_per_world_unit: raw(300),
        perspective: 1,
        world_radius: raw(400),
        pixel_radius_min: raw(500),
        pixel_radius_max: raw(501),
        strength: raw(600),
        sample_count: 8,
        steps_per_slice: 4,
    }
}

/// The offsets that `occlusion/common.wgsl` has. A mismatch in exactly this kind
/// of uniform hides whatever the displaced field switches on.
#[test]
fn uniform_offsets_match_the_shader() {
    assert_eq!(Field::ViewFromProjection.offset(), 0);
    assert_eq!(Field::FramebufferResolution.offset(), 64);
    assert_eq!(Field::PixelsPerWorldUnit.offset(), 72);
    assert_eq!(Field::Perspective.offset(), 76);
    assert_eq!(Field::WorldRadius.offset(), 80);
    assert_eq!(Field::PixelRadiusMin.offset(), 84);
    assert_eq!(Field::PixelRadiusMax.offset(), 88);
    assert_eq!(Field::Strength.offset(), 92);
    assert_eq!(Field::SampleCount.offset(), 96);
    assert_eq!(Field::StepsPerSlice.offset(), 100);
    // Uniform buffers are allocated in 256-byte steps.
    assert_eq!(std::mem::size_of_val(&uniform().words()), 256);
    assert_eq!(OCCLUSION_UNIFORM_SIZE, 256);
}

/// A shader that declares the fields finds each where it is written.
#[test]
fn occlusion_uniform_layout_matches_the_rust_struct() {
    const EXPECTED: &[(&str, u32)] = &[
        ("view_from_projection", 0),
        ("framebuffer_resolution", 64),
        ("pixels_per_world_unit", 72),
        ("perspective", 76),
        ("world_radius", 80),
        ("pixel_radius_min", 84),
        ("pixel_radius_max", 88),
        ("strength", 92),
        ("sample_count", 96),
        ("steps_per_slice", 100),
    ];
    let fields = [
        Field::ViewFromProjection,
        Field::FramebufferResolution,
        Field::PixelsPerWorldUnit,
        Field::Perspective,
        Field::WorldRadius,
        Field::PixelRadiusMin,
        Field::PixelRadiusMax,
        Field::Strength,
        Field::SampleCount,
        Field::StepsPerSlice,
    ];
    let source = "struct OcclusionUniformBuffer {
        view_from_projection: mat4x4<f32>,
        framebuffer_resolution: vec2<f32>,
        pixels_per_world_unit: f32,
        perspective: u32,
        world_radius: f32,
        pixel_radius_min: f32,
        pixel_radius_max: f32,
        strength: f32,
        sample_count: u32,
        steps_per_slice: u32,
    }
    @group(0) @binding(0) var<uniform> uniforms: OcclusionUniformBuffer;";
    let module = naga::front::wgsl::parse_str(source)
        .unwrap_or_else(|err| panic!("the shader should parse: {err}"));
    let (_, ty) = module
        .types
        .iter()
        .find(|(_, ty)| ty.name.as_deref() == Some("OcclusionUniformBuffer"))
        .expect("the shader should declare OcclusionUniformBuffer");
    let naga::TypeInner::Struct { members, .. } = &ty.inner else {
        panic!("OcclusionUniformBuffer should be a struct");
    };
    for ((name, expected_offset), field) in EXPECTED.iter().zip(fields) {
        let member = members
            .iter()
            .find(|member| member.name.as_deref() == Some(*name))
            .unwrap_or_else(|| panic!("OcclusionUniformBuffer should have `{name}`"));
        assert_eq!(
            member.offset, *expected_offset,
            "`{name}` sits at WGSL offset {} but Rust writes it at {expected_offset}",
            member.offset,
        );
        assert_eq!(field.offset(), *expected_offset as usize);
    }
}

#[test]
fn fields_are_written_at_their_offsets() {
    let words = uniform().words();
    let at = |field: Field| words[field.offset() / 4];
    assert_eq!(at(Field::ViewFromProjection), 100);
    assert_eq!(words[15], 115);
    assert_eq!(at(Field::FramebufferResolution), 200);
    assert_eq!(words[17], 201);
    assert_eq!(at(Field::PixelsPerWorldUnit), 300);
    assert_eq!(at(Field::Perspective), 1);
    assert_eq!(at(Field::WorldRadius), 400);
    assert_eq!(at(Field::PixelRadiusMin), 500);
    assert_eq!(at(Field::PixelRadiusMax), 501);
    assert_eq!(at(Field::Strength), 600);
    assert_eq!(at(Field::SampleCount), 8);
    assert_eq!(at(Field::StepsPerSlice), 4);
}

#[test]
fn the_rest_of_the_occlusion_uniform_is_zero() {
    assert_eq!(uniform().words()[26..], [0; 38]);
}

#[test]
fn element_style_words() {
    let style = ElementStyleUniform {
        edge_color: [raw(1), raw(2), raw(3), raw(4)],
        hover_color: [raw(5), raw(6), raw(7), raw(8)],
        edge_half_width_px: raw(9),
        hover_half_width_px: raw(10),
        vertex_radius_px: raw(11),
        hover_element_id: 12,
    };
    assert_eq!(style.words(), [1, 2, 3, 4, 5, 6, 7, 8, 9, 10, 11, 12]);
    assert_eq!(std::mem::size_of_val(&style.words()) as u64, ELEMENT_STYLE_SIZE);
}

#[test]
fn zero_has_two_encodings() {
    assert!(raw(0.0_f32.to_bits()).is_zero());
    assert!(raw((-0.0_f32).to_bits()).is_zero());
    for value in [1.0, -1.0, f32::MIN_POSITIVE, f32::from_bits(1), f32::NAN, f32::INFINITY] {
        assert_eq!(raw(value.to_bits()).is_zero(), value == 0.0);
        assert!(!raw(value.to_bits()).is_zero());
    }
}
