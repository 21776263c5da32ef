use wenderer::composite::CanvasShaderUniforms;
use wenderer::targets::{
    face_config, CanvasPass, ColorTarget, CullFace, D3Pass, DepthClear, DepthCompare, DepthTarget,
    PassSet, RenderPass, TexFormat, TextureDesc,
};

fn all_targets(s: &PassSet) -> Vec<TextureDesc> {
    let mut v = vec![s.front_face_pass.depth_texture, s.back_face_pass.depth_texture];
    v.extend(s.front_face_pass.multisample_buffer);
    v.extend(s.back_face_pass.multisample_buffer);
    v.extend(s.canvas_pass.multisample_buffer);
    v.push(s.front_face_render_buffer);
    v.push(s.back_face_render_buffer);
    v.push(s.canvas_pass.front_face_texture);
    v.push(s.canvas_pass.back_face_texture);
    v
}

#[test]
fn entry_and_exit_configurations() {
    let e = face_config(true);
    assert_eq!((e.cull, e.compare, e.clear), (CullFace::Back, DepthCompare::Less, DepthClear::Far));
    let x = face_config(false);
    assert_eq!((x.cull, x.compare, x.clear), (CullFace::Front, DepthCompare::Greater, DepthClear::Near));
}

#[test]
fn resize_from_1000_to_500_mid_session() {
    let mut s = PassSet::new(1000, 1000, 4);
    assert_eq!(all_targets(&s).len(), 9);
    for t in all_targets(&s) {
        assert_eq!((t.width, t.height), (1000, 1000));
    }
    s.resize(500, 500);
    let targets = all_targets(&s);
    assert_eq!(targets.len(), 9);
    for t in targets {
        assert_eq!((t.width, t.height), (500, 500));
    }
    assert_eq!(s.front_face_pass.depth_texture.sample_count, 4);
    assert_eq!(s.front_face_pass.depth_texture.format, TexFormat::Depth32Float);
    assert_eq!(s.front_face_render_buffer.sample_count, 1);
    assert_eq!(s.canvas_pass.front_face_texture, s.front_face_render_buffer);
}

#[test]
fn resize_sets_every_target_for_many_sizes() {
    for &(w, h) in &[(1u32, 1u32), (7, 3000), (1920, 1080), (64, 64)] {
        for &samples in &[1u32, 2, 4, 8] {
            let mut s = PassSet::new(640, 480, samples);
            s.resize(w, h);
            for t in all_targets(&s) {
                assert_eq!((t.width, t.height), (w, h));
            }
            assert_eq!(s.canvas_pass.multisample_buffer.is_some(), samples > 1);
        }
    }
}

#[test]
fn single_sample_passes_draw_straight_into_the_target() {
    let mut p = D3Pass::new(64, 64, TexFormat::Rgba16Float, true, 1);
    assert!(p.multisample_buffer.is_none());
    assert_eq!(p.color_target(), ColorTarget::External);
    p.resize(32, 16);
    assert!(p.multisample_buffer.is_none());
    assert_eq!((p.depth_texture.width, p.depth_texture.height), (32, 16));
    assert_eq!(p.depth_target(true), DepthTarget::External);
    assert_eq!(p.depth_target(false), DepthTarget::Own);
    let q = D3Pass::new(64, 64, TexFormat::Rgba16Float, false, 4);
    assert_eq!(q.color_target(), ColorTarget::MultisampleResolved);
    assert_eq!(q.multisample_buffer.unwrap().format, TexFormat::Rgba16Float);
}

#[test]
fn canvas_pass_rebinds_and_takes_uniforms() {
    let a = TextureDesc::create_render_buffer((8, 8), 1, TexFormat::Rgba16Float);
    let b = TextureDesc::create_render_buffer((16, 16), 1, TexFormat::Rgba16Float);
    let mut c = CanvasPass::new(a, a, (8, 8), 4);
    assert_eq!(c.uniforms, CanvasShaderUniforms::default());
    c.change_bound_face_textures(b, b);
    assert_eq!(c.front_face_texture, b);
    assert_eq!(c.back_face_texture, b);
    let mut u = CanvasShaderUniforms::default();
    u.opacity_threshold = 0;
    c.set_uniforms(&u);
    assert_eq!(c.uniforms.opacity_threshold, 0);
    c.resize(3, 5);
    let m = c.multisample_buffer.unwrap();
    assert_eq!((m.width, m.height, m.sample_count, m.format), (3, 5, 4, TexFormat::Surface));
}
