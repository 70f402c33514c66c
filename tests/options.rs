use rpi_led_matrix::{ConfigField, LedError, LedMatrixOptions, LedRuntimeOptions};

#[test]
fn options_defaults() {
    let o = LedMatrixOptions::new();
    assert_eq!(o.hardware_mapping(), "regular");
    assert_eq!(o.rows(), 32);
    assert_eq!(o.cols(), 32);
    assert_eq!(o.chain_length(), 1);
    assert_eq!(o.parallel(), 1);
    assert_eq!(o.pwm_bits(), 11);
    assert_eq!(o.pwm_lsb_nanoseconds(), 1000);
    assert_eq!(o.pwm_dither_bits(), 1);
    assert_eq!(o.brightness(), 100);
    assert_eq!(o.scan_mode(), 0);
    assert_eq!(o.row_address_type(), 0);
    assert_eq!(o.multiplexing(), 0);
    assert_eq!(o.led_rgb_sequence(), "RGB");
    assert_eq!(o.pixel_mapper_config(), "");
    assert_eq!(o.panel_type(), "");
    assert!(!o.hardware_pulsing());
    assert!(o.show_refresh_rate());
    assert!(!o.inverse_colors());
    assert_eq!(o.limit_refresh_rate_hz(), 0);
    let d = LedMatrixOptions::default();
    assert_eq!(d.hardware_mapping(), "regular");
    assert_eq!(d.rows(), 32);
}

#[test]
fn runtime_options_defaults_and_setters() {
    let mut rt = LedRuntimeOptions::new();
    assert_eq!(rt.gpio_slowdown(), 1);
    assert!(!rt.daemon());
    assert!(rt.drop_privileges());
    assert!(rt.do_gpio_init());
    rt.set_gpio_slowdown(4);
    rt.set_daemon(true);
    rt.set_drop_privileges(false);
    rt.set_do_gpio_init(false);
    assert_eq!(rt.gpio_slowdown(), 4);
    assert!(rt.daemon());
    assert!(!rt.drop_privileges());
    assert!(!rt.do_gpio_init());
    let d = LedRuntimeOptions::default();
    assert_eq!(d.gpio_slowdown(), 1);
}

#[test]
fn brightness_in_range_is_stored_and_outside_is_refused() {
    let mut o = LedMatrixOptions::new();
    o.set_brightness(42).unwrap();
    for b in 0..=255u8 {
        let before = o.brightness();
        let r = o.set_brightness(b);
        if (1..=100).contains(&b) {
            assert_eq!(r, Ok(()));
            assert_eq!(o.brightness(), b);
        } else {
            assert_eq!(
                r,
                Err(LedError::Validation { field: ConfigField::Brightness, min: 1, max: 100 })
            );
            assert_eq!(o.brightness(), before);
        }
    }
}

#[test]
fn brightness_edges() {
    let mut o = LedMatrixOptions::new();
    assert!(o.set_brightness(0).is_err());
    assert_eq!(o.brightness(), 100);
    assert_eq!(o.set_brightness(1), Ok(()));
    assert_eq!(o.brightness(), 1);
    assert!(o.set_brightness(101).is_err());
    assert_eq!(o.brightness(), 1);
    assert_eq!(o.set_brightness(100), Ok(()));
    assert_eq!(o.brightness(), 100);
}

#[test]
fn pwm_bits_up_to_eleven_are_stored_and_above_refused() {
    let mut o = LedMatrixOptions::new();
    for b in 0..=255u8 {
        let before = o.pwm_bits();
        let r = o.set_pwm_bits(b);
        if b <= 11 {
            assert_eq!(r, Ok(()));
            assert_eq!(o.pwm_bits(), b);
        } else {
            assert_eq!(
                r,
                Err(LedError::Validation { field: ConfigField::PwmBits, min: 0, max: 11 })
            );
            assert_eq!(o.pwm_bits(), before);
        }
    }
}

#[test]
fn string_fields_round_trip_many_values() {
    let mut o = LedMatrixOptions::new();
    for i in 0..500 {
        let s = format!("value-{}-{}", i, "x".repeat(i % 17));
        o.set_hardware_mapping(&s).unwrap();
        o.set_led_rgb_sequence(&s).unwrap();
        o.set_pixel_mapper_config(&s).unwrap();
        o.set_panel_type(&s).unwrap();
        assert_eq!(o.hardware_mapping(), s);
        assert_eq!(o.led_rgb_sequence(), s);
        assert_eq!(o.pixel_mapper_config(), s);
        assert_eq!(o.panel_type(), s);
    }
    o.set_hardware_mapping("adafruit-hat").unwrap();
    o.set_hardware_mapping("regular-pi1").unwrap();
    assert_eq!(o.hardware_mapping(), "regular-pi1");
    assert_eq!(o.rows(), 32);
}

#[test]
fn string_with_nul_is_refused_and_kept() {
    let mut o = LedMatrixOptions::new();
    o.set_panel_type("FM6126A").unwrap();
    assert_eq!(o.set_panel_type("FM\0"), Err(LedError::Encoding));
    assert_eq!(o.panel_type(), "FM6126A");
    assert_eq!(o.set_hardware_mapping("\0"), Err(LedError::Encoding));
    assert_eq!(o.hardware_mapping(), "regular");
    assert_eq!(o.set_led_rgb_sequence("R\0GB"), Err(LedError::Encoding));
    assert_eq!(o.led_rgb_sequence(), "RGB");
    assert_eq!(o.set_pixel_mapper_config("Rotate:90\0"), Err(LedError::Encoding));
    assert_eq!(o.pixel_mapper_config(), "");
    assert_eq!(o.set_pixel_mapper_config("Rotate:90;Mirror"), Ok(()));
    assert_eq!(o.pixel_mapper_config(), "Rotate:90;Mirror");
}

#[test]
fn numeric_setters_take_any_value() {
    let mut o = LedMatrixOptions::new();
    o.set_rows(64);
    o.set_cols(u32::MAX);
    o.set_chain_length(3);
    o.set_parallel(2);
    o.set_pwm_lsb_nanoseconds(130);
    o.set_scan_mode(1);
    o.set_multiplexing(16);
    o.set_row_addr_type(4);
    o.set_limit_refresh(120);
    o.set_pwm_dither_bits(2);
    o.set_hardware_pulsing(true);
    o.set_refresh_rate(false);
    o.set_inverse_colors(true);
    assert_eq!(o.rows(), 64);
    assert_eq!(o.cols(), u32::MAX);
    assert_eq!(o.chain_length(), 3);
    assert_eq!(o.parallel(), 2);
    assert_eq!(o.pwm_lsb_nanoseconds(), 130);
    assert_eq!(o.scan_mode(), 1);
    assert_eq!(o.multiplexing(), 16);
    assert_eq!(o.row_address_type(), 4);
    assert_eq!(o.limit_refresh_rate_hz(), 120);
    assert_eq!(o.pwm_dither_bits(), 2);
    assert!(o.hardware_pulsing());
    assert!(!o.show_refresh_rate());
    assert!(o.inverse_colors());
}

#[test]
fn error_messages() {
    let e = LedError::Validation { field: ConfigField::PwmBits, min: 0, max: 11 };
    assert_eq!(e.message(), "Pwm bits can only have value between 0 and 11 inclusive");
    let e = LedError::Validation { field: ConfigField::Brightness, min: 1, max: 100 };
    assert_eq!(e.message(), "Brightness can only have value between 1 and 100 inclusive");
    assert_eq!(LedError::DriverInit.message(), "Couldn't create LedMatrix");
    assert_eq!(LedError::FontLoad.message(), "Couldn't load font");
    assert!(!LedError::Encoding.message().is_empty());
}

#[test]
fn nul_check() {
    assert!(rpi_led_matrix::nul_free(""));
    assert!(rpi_led_matrix::nul_free("héllo"));
    assert!(!rpi_led_matrix::nul_free("a\0"));
}
