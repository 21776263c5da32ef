use wenderer::transfer::{
    build_lut, evenly_spaced_points, flatten_rgba, load_example_transfer_function, sample_lut,
    ControlPoint, Rgba8, LUT_SIZE,
};

fn rgba(r: u8, g: u8, b: u8, a: u8) -> Rgba8 {
    Rgba8 { r, g, b, a }
}

#[test]
fn example_transfer_function_values() {
    let tf = load_example_transfer_function();
    assert_eq!(tf.len(), 12);
    assert_eq!(tf[1], rgba(0, 127, 127, 2));
    assert_eq!(tf[5], rgba(127, 127, 0, 51));
    assert_eq!(tf[11], rgba(255, 0, 255, 204));
}

#[test]
fn evenly_spaced_positions() {
    let pts = evenly_spaced_points(&load_example_transfer_function());
    let pos: Vec<u8> = pts.iter().map(|p| p.position).collect();
    assert_eq!(pos, vec![0, 23, 46, 69, 92, 115, 139, 162, 185, 208, 231, 255]);
    let one = evenly_spaced_points(&vec![rgba(1, 2, 3, 4)]);
    assert_eq!(one[0].position, 0);
}

#[test]
fn lut_round_trip_at_control_points() {
    let pts = evenly_spaced_points(&load_example_transfer_function());
    let lut = build_lut(&pts);
    assert_eq!(lut.len(), LUT_SIZE);
    for p in &pts {
        let density = p.position as u16 * 257;
        assert_eq!(sample_lut(&lut, density), p.color);
    }
}

#[test]
fn lut_interpolates_between_points() {
    let pts = vec![
        ControlPoint { position: 10, color: rgba(0, 0, 0, 0) },
        ControlPoint { position: 20, color: rgba(100, 200, 255, 50) },
    ];
    let lut = build_lut(&pts);
    assert_eq!(lut[0], rgba(0, 0, 0, 0));
    assert_eq!(lut[10], rgba(0, 0, 0, 0));
    assert_eq!(lut[15], rgba(50, 100, 127, 25));
    assert_eq!(lut[19], rgba(90, 180, 229, 45));
    assert_eq!(lut[20], rgba(100, 200, 255, 50));
    assert_eq!(lut[255], rgba(100, 200, 255, 50));
}

#[test]
fn lut_sampling_filters_linearly() {
    let pts = vec![
        ControlPoint { position: 0, color: rgba(0, 0, 0, 0) },
        ControlPoint { position: 255, color: rgba(255, 255, 255, 255) },
    ];
    let lut = build_lut(&pts);
    assert_eq!(sample_lut(&lut, 0), rgba(0, 0, 0, 0));
    assert_eq!(sample_lut(&lut, 65_535), rgba(255, 255, 255, 255));
    assert_eq!(sample_lut(&lut, 257 * 100), rgba(100, 100, 100, 100));
    assert_eq!(sample_lut(&lut, 257 * 100 + 128), rgba(100, 100, 100, 100));
}

#[test]
fn lut_bytes_are_rgba_in_order() {
    let bytes = flatten_rgba(&vec![rgba(1, 2, 3, 4), rgba(5, 6, 7, 8)]);
    assert_eq!(bytes, vec![1, 2, 3, 4, 5, 6, 7, 8]);
}
