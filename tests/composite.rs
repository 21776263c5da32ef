use wenderer::composite::{
    accum_to_rgba8, blend_sample, composite_frame, composite_samples, floor_sqrt, march_pixel,
    ray_length, Accum, CanvasShaderUniforms,
};
use wenderer::transfer::{build_lut, ControlPoint, Rgba8};
use wenderer::volume::{Volume, VolumePoint};

fn rgba(r: u8, g: u8, b: u8, a: u8) -> Rgba8 {
    Rgba8 { r, g, b, a }
}

fn p(x: u32, y: u32, z: u32) -> VolumePoint {
    VolumePoint { x, y, z }
}

fn uniform_volume(density: u16) -> Volume {
    Volume { width: 2, height: 2, depth: 2, densities: vec![density; 8] }
}

fn flat_lut(c: Rgba8) -> Vec<Rgba8> {
    build_lut(&vec![ControlPoint { position: 0, color: c }])
}

#[test]
fn default_uniforms_match_documented_values() {
    let u = CanvasShaderUniforms::default();
    assert_eq!(u.step_size, 2_500);
    assert_eq!(u.base_distance, 2_500);
    assert_eq!(u.opacity_threshold, 950_000);
    assert_eq!(u.ambient_intensity, 500_000);
    assert_eq!(u.diffuse_intensity, 500_000);
    assert_eq!(u.specular_intensity, 500_000);
    assert_eq!(u.shininess, 32_000_000);
}

#[test]
fn blend_is_front_to_back() {
    let clear = Accum { r: 0, g: 0, b: 0, a: 0 };
    let a = blend_sample(clear, rgba(255, 0, 0, 128));
    assert_eq!(a, Accum { r: 501_960, g: 0, b: 0, a: 501_960 });
    let b = blend_sample(a, rgba(0, 255, 0, 255));
    assert_eq!(b, Accum { r: 501_960, g: 498_040, b: 0, a: 1_000_000 });
    assert_eq!(accum_to_rgba8(b), rgba(127, 127, 0, 255));
}

#[test]
fn composite_runs_until_threshold() {
    let samples = vec![rgba(255, 0, 0, 128), rgba(0, 255, 0, 255)];
    let all = composite_samples(&samples, 950_000);
    assert_eq!(accum_to_rgba8(all), rgba(127, 127, 0, 255));
    let early = composite_samples(&samples, 500_000);
    assert_eq!(early, Accum { r: 501_960, g: 0, b: 0, a: 501_960 });
}

#[test]
fn early_termination_ignores_any_number_of_extra_samples() {
    let head = vec![rgba(10, 20, 30, 255)];
    let base = composite_samples(&head, 950_000);
    for k in 0..5 {
        let mut longer = head.clone();
        for j in 0..k {
            longer.push(rgba(200, (j * 40) as u8, 7, 90));
        }
        assert_eq!(composite_samples(&longer, 950_000), base);
    }
}

#[test]
fn zero_threshold_takes_exactly_one_sample() {
    let samples = vec![rgba(255, 0, 0, 128), rgba(0, 255, 0, 255)];
    let r = composite_samples(&samples, 0);
    assert_eq!(accum_to_rgba8(r), rgba(127, 0, 0, 127));

    let mut u = CanvasShaderUniforms::default();
    u.opacity_threshold = 0;
    let vol = uniform_volume(40_000);
    let lut = flat_lut(rgba(255, 0, 0, 128));
    let c = march_pixel(&vol, &lut, p(0, 0, 0), p(1_000_000, 0, 0), &u);
    assert_eq!(c, rgba(127, 0, 0, 127));
}

#[test]
fn ray_lengths() {
    assert_eq!(ray_length(p(0, 0, 0), p(3, 4, 0)), 5);
    assert_eq!(ray_length(p(1, 2, 3), p(2, 2, 3)), 1);
    assert_eq!(ray_length(p(7, 7, 7), p(7, 7, 7)), 0);
    assert_eq!(ray_length(p(0, 0, 0), p(1_000_000, 1_000_000, 1_000_000)), 1_732_050);
    assert_eq!(ray_length(p(1_000_000, 0, 0), p(0, 0, 0)), 1_000_000);
    assert_eq!(floor_sqrt(u64::MAX), 4_294_967_295);
    assert_eq!(floor_sqrt(0), 0);
    assert_eq!(floor_sqrt(15), 3);
    assert_eq!(floor_sqrt(16), 4);
}

#[test]
fn covered_pixels_have_positive_ray_length() {
    for &(a, b) in &[(p(0, 0, 1), p(0, 0, 0)), (p(10, 0, 0), p(11, 1, 0)), (p(0, 999_999, 0), p(1_000_000, 0, 1))] {
        assert!(ray_length(a, b) > 0);
    }
}

#[test]
fn missed_pixels_are_transparent() {
    let vol = uniform_volume(65_535);
    let lut = flat_lut(rgba(255, 255, 255, 255));
    let u = CanvasShaderUniforms::default();
    assert_eq!(march_pixel(&vol, &lut, p(0, 0, 0), p(0, 0, 0), &u), rgba(0, 0, 0, 0));
}

#[test]
fn opaque_volume_saturates_on_first_sample() {
    let vol = uniform_volume(65_520);
    let lut = flat_lut(rgba(200, 100, 50, 255));
    let u = CanvasShaderUniforms::default();
    let c = march_pixel(&vol, &lut, p(0, 0, 0), p(1_000_000, 0, 0), &u);
    assert_eq!(c, rgba(199, 99, 49, 255));
}

#[test]
fn transparent_transfer_function_renders_nothing() {
    let pts = vec![
        ControlPoint { position: 0, color: rgba(255, 0, 0, 0) },
        ControlPoint { position: 128, color: rgba(0, 255, 0, 0) },
        ControlPoint { position: 255, color: rgba(0, 0, 255, 0) },
    ];
    let lut = build_lut(&pts);
    let vol = Volume { width: 2, height: 2, depth: 2, densities: vec![0, 9_000, 20_000, 30_000, 40_000, 50_000, 60_000, 65_535] };
    let u = CanvasShaderUniforms::default();
    let entries = vec![p(0, 0, 0), p(0, 0, 0), p(500_000, 0, 1_000_000), p(1, 1, 1)];
    let exits = vec![p(0, 0, 0), p(1_000_000, 1_000_000, 1_000_000), p(500_000, 1_000_000, 0), p(999_999, 2, 3)];
    let out = composite_frame(&vol, &lut, &entries, &exits, &u);
    assert_eq!(out.len(), 4);
    for c in out {
        assert_eq!(c, rgba(0, 0, 0, 0));
    }
}

#[test]
fn rendering_twice_gives_identical_frames() {
    let pts = vec![
        ControlPoint { position: 0, color: rgba(0, 0, 0, 0) },
        ControlPoint { position: 100, color: rgba(0, 127, 127, 20) },
        ControlPoint { position: 255, color: rgba(255, 0, 255, 204) },
    ];
    let lut = build_lut(&pts);
    let vol = Volume { width: 2, height: 2, depth: 2, densities: vec![0, 9_000, 20_000, 30_000, 40_000, 50_000, 60_000, 65_535] };
    let u = CanvasShaderUniforms::default();
    let entries = vec![p(0, 0, 0), p(0, 0, 0), p(500_000, 0, 1_000_000)];
    let exits = vec![p(0, 0, 0), p(1_000_000, 1_000_000, 1_000_000), p(500_000, 1_000_000, 0)];
    let a = composite_frame(&vol, &lut, &entries, &exits, &u);
    let b = composite_frame(&vol, &lut, &entries, &exits, &u);
    assert_eq!(a, b);
    assert_eq!(a[0], rgba(0, 0, 0, 0));
    assert!(a[1].a > 0);
}
