use irodori::effect::{color_effect_outcome, magnification_load_failure};
use irodori::gamma::{
    apply_ramp_outcome, display_dc_failure, display_device_name, identity_ramp,
    identity_test_outcome, shape_ramp,
};
use irodori::text::{concat3, format_i32, format_u32, with_i32, with_u32};

#[test]
fn format_i32_matches_display() {
    let samples = [0, 1, -1, 7, 9, 10, -10, 42, -307, 1000, 65535, -65536, i32::MAX, i32::MIN];
    for x in samples {
        assert_eq!(format_i32(x), x.to_string());
    }
    for x in -2000..2000 {
        assert_eq!(format_i32(x), x.to_string());
    }
}

#[test]
fn format_u32_matches_display() {
    for x in [0u32, 5, 10, 99, 100, 1234567, u32::MAX] {
        assert_eq!(format_u32(x), x.to_string());
    }
}

#[test]
fn message_pieces_concatenate() {
    assert_eq!(concat3("a", "", "bc"), "abc");
    assert_eq!(with_i32("status: ", -5, ")"), "status: -5)");
    assert_eq!(with_u32("error: ", 1400, "."), "error: 1400.");
}

#[test]
fn identity_ramp_is_i_times_257() {
    let ramp = identity_ramp();
    for i in 0..256usize {
        assert_eq!(ramp.red[i] as u32, i as u32 * 257);
    }
    assert_eq!(ramp.red[0], 0);
    assert_eq!(ramp.red[255], 65535);
    assert_eq!(ramp.green, ramp.red);
    assert_eq!(ramp.blue, ramp.red);
    for i in 1..256usize {
        assert!(ramp.red[i - 1] < ramp.red[i]);
    }
}

#[test]
fn shaped_ramp_is_running_max_with_pinned_ends() {
    let mut levels = [0u16; 256];
    for i in 0..256usize {
        // a curve that rises, dips, and rises again
        levels[i] = if i < 100 { (i * 300) as u16 } else if i < 150 { 1000 } else { (i * 250) as u16 };
    }
    levels[0] = 500;
    levels[255] = 3;
    let ramp = shape_ramp(&levels);
    assert_eq!(ramp.red[0], 0);
    assert_eq!(ramp.red[255], 65535);
    let mut best = levels[0];
    for i in 1..255usize {
        best = best.max(levels[i]);
        assert_eq!(ramp.red[i], best);
        assert!(ramp.red[i] >= levels[i]);
    }
    assert_eq!(ramp.red[120], 99 * 300);
    assert_eq!(ramp.green, ramp.red);
    assert_eq!(ramp.blue, ramp.red);
}

#[test]
fn shaped_ramp_never_falls() {
    let mut levels = [0u16; 256];
    for i in 0..256usize {
        levels[i] = ((i * 7919) % 65536) as u16;
    }
    let ramp = shape_ramp(&levels);
    for i in 1..256usize {
        assert!(ramp.red[i - 1] <= ramp.red[i]);
    }
}

#[test]
fn shaping_twice_is_shaping_once() {
    let mut levels = [0u16; 256];
    for i in 0..256usize {
        levels[i] = (65535 - i * 200) as u16;
    }
    let once = shape_ramp(&levels);
    let twice = shape_ramp(&once.red);
    assert_eq!(once, twice);
}

#[test]
fn identity_ramp_is_left_by_shaping() {
    let identity = identity_ramp();
    assert_eq!(shape_ramp(&identity.red), identity);
}

#[test]
fn flat_black_levels_shape_to_black_with_full_top() {
    let ramp = shape_ramp(&[0u16; 256]);
    for i in 0..255usize {
        assert_eq!(ramp.red[i], 0);
    }
    assert_eq!(ramp.red[255], 65535);
}

#[test]
fn display_devices_are_tried_in_order() {
    assert_eq!(display_device_name(0), Some("\\\\.\\DISPLAY1"));
    assert_eq!(display_device_name(1), Some("DISPLAY"));
    assert_eq!(display_device_name(2), None);
    assert_eq!(display_device_name(u32::MAX), None);
}

#[test]
fn display_dc_failure_names_the_error() {
    assert_eq!(display_dc_failure(1801), "Failed to get display DC (error: 1801)");
}

#[test]
fn apply_ramp_outcome_follows_the_driver_result() {
    assert_eq!(apply_ramp_outcome(1, 0), Ok(()));
    assert_eq!(apply_ramp_outcome(-1, 87), Ok(()));
    assert_eq!(apply_ramp_outcome(0, 87), Err("Failed to set gamma ramp (error: 87)".to_string()));
}

#[test]
fn identity_test_outcome_follows_the_driver_result() {
    assert_eq!(identity_test_outcome(1, 0), Ok("Gamma ramp test PASSED".to_string()));
    assert_eq!(
        identity_test_outcome(0, 6),
        Err("SetDeviceGammaRamp identity test failed (error: 6)".to_string())
    );
}

#[test]
fn color_effect_messages() {
    assert_eq!(magnification_load_failure(126), "Failed to load Magnification.dll (error: 126)");
    assert_eq!(color_effect_outcome(1, 5), Ok(()));
    assert_eq!(
        color_effect_outcome(0, 5),
        Err("MagSetFullscreenColorEffect failed (error: 5)".to_string())
    );
}
