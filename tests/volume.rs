use wenderer::controls::{CameraController, Key};
use wenderer::volume::{cube_scaling, load_volume_data, Volume, VolumeError, VolumePoint};

fn words(ws: &[u16]) -> Vec<u8> {
    ws.iter().flat_map(|w| w.to_le_bytes()).collect()
}

#[test]
fn test_load_data() {
    let bytes = words(&[2, 1, 1, 16, 4095]);
    let data = load_volume_data(&bytes).unwrap();
    assert_eq!(data.dims, (2, 1, 1));
    assert_eq!(data.samples, vec![16, 4095]);
    assert_eq!(data.densities, vec![256, 65_520]);
}

#[test]
fn volume_errors() {
    assert_eq!(load_volume_data(&words(&[2, 1])).err(), Some(VolumeError::MissingDimensions));
    assert_eq!(load_volume_data(&vec![1, 0, 1, 0, 1]).err(), Some(VolumeError::MissingDimensions));
    assert_eq!(load_volume_data(&words(&[2, 2, 2, 7])).err(), Some(VolumeError::SizeMismatch));
    assert_eq!(load_volume_data(&words(&[1, 1, 1, 7, 8])).err(), Some(VolumeError::SizeMismatch));
}

#[test]
fn trailing_odd_byte_is_ignored() {
    let mut bytes = words(&[1, 1, 1, 0x0abc]);
    bytes.push(9);
    let data = load_volume_data(&bytes).unwrap();
    assert_eq!(data.samples, vec![0x0abc]);
    assert_eq!(data.densities, vec![0xabc0]);
}

#[test]
fn empty_volume_has_no_samples() {
    let data = load_volume_data(&words(&[0, 5, 5])).unwrap();
    assert!(data.samples.is_empty());
    assert!(Volume::from_data(data).is_none());
}

#[test]
fn cube_scaling_uses_median_dimension() {
    assert_eq!(cube_scaling((277, 277, 164)), ((277, 277, 164), 277));
    assert_eq!(cube_scaling((10, 30, 20)), ((10, 30, 20), 20));
    assert_eq!(cube_scaling((5, 1, 3)), ((5, 1, 3), 3));
}

#[test]
fn trilinear_sampling() {
    let data = load_volume_data(&words(&[2, 1, 1, 0, 4095])).unwrap();
    let vol = Volume::from_data(data).unwrap();
    assert_eq!(vol.sample(VolumePoint { x: 0, y: 0, z: 0 }), 0);
    assert_eq!(vol.sample(VolumePoint { x: 1_000_000, y: 0, z: 0 }), 65_520);
    assert_eq!(vol.sample(VolumePoint { x: 500_000, y: 1_000_000, z: 0 }), 32_760);
    assert_eq!(vol.sample(VolumePoint { x: 250_000, y: 0, z: 1_000_000 }), 16_380);
}

#[test]
fn camera_keys() {
    let mut c = CameraController::new();
    assert!(c.process_events(Key::W, true));
    assert!(c.is_forward_pressed);
    assert!(c.process_events(Key::Up, false));
    assert!(!c.is_forward_pressed);
    assert!(c.process_events(Key::Space, true));
    assert!(c.process_events(Key::LShift, true));
    assert!(c.process_events(Key::Left, true));
    assert!(c.process_events(Key::D, true));
    assert!(c.process_events(Key::S, true));
    assert!(c.is_up_pressed && c.is_down_pressed && c.is_left_pressed && c.is_right_pressed && c.is_backward_pressed);
    let before = c;
    assert!(!c.process_events(Key::Other, true));
    assert_eq!(c, before);
}
