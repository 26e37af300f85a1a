use owb_core::camera::{read_address, PixelFormat, Py260, RegisterWrite, Resolution, CAMERA_ADDR};

#[test]
fn settings_map_to_registers() {
    let cam = Py260::new();
    assert_eq!(cam.address, CAMERA_ADDR);
    assert_eq!(CAMERA_ADDR, 0x1F);
    assert_eq!(cam.set_pixel_format(PixelFormat::Rgb565), RegisterWrite { reg: 0x0120, value: 2 });
    assert_eq!(cam.set_pixel_format(PixelFormat::Jpeg), RegisterWrite { reg: 0x0120, value: 1 });
    assert_eq!(cam.set_resolution(Resolution::Vga320x320), RegisterWrite { reg: 0x0121, value: 9 });
    assert_eq!(cam.set_resolution(Resolution::Qvga), RegisterWrite { reg: 0x0121, value: 1 });
    assert_eq!(cam.set_quality(12), RegisterWrite { reg: 0x012A, value: 12 });
    assert_eq!(cam.set_hmirror(true), RegisterWrite { reg: 0x012C, value: 1 });
    assert_eq!(cam.set_vflip(false), RegisterWrite { reg: 0x012B, value: 0 });
}

#[test]
fn levels_are_limited() {
    let cam = Py260::new();
    assert_eq!(cam.set_brightness(20), RegisterWrite { reg: 0x0122, value: 8 });
    assert_eq!(cam.set_brightness(3).value, 3);
    assert_eq!(cam.set_contrast(7), RegisterWrite { reg: 0x0123, value: 6 });
    assert_eq!(cam.set_saturation(255), RegisterWrite { reg: 0x0124, value: 6 });
    assert_eq!(cam.set_saturation(6).value, 6);
}

#[test]
fn bus_bytes_are_big_endian() {
    let cam = Py260::new();
    assert_eq!(RegisterWrite { reg: 0x0122, value: 5 }.bytes(), [0x01, 0x22, 5]);
    assert_eq!(read_address(0x0001), [0x00, 0x01]);
    assert_eq!(cam.sensor_id_registers(), [0x0000, 0x0001]);
    assert_eq!(cam.read_sensor_id(0x12, 0x34), 0x1234);
    assert_eq!(
        cam.reset(),
        vec![RegisterWrite { reg: 0x0102, value: 0 }, RegisterWrite { reg: 0x0102, value: 1 }]
    );
}
