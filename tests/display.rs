use rpi_led_matrix::{
    HostStub, LedColor, LedError, LedFont, LedMatrix, LedMatrixOptions, LedRuntimeOptions,
    SimulatedPanel,
};

#[test]
fn host_stub_refuses_the_matrix() {
    let mut driver = HostStub::new();
    let r = LedMatrix::new(
        &mut driver,
        Some(LedMatrixOptions::new()),
        Some(LedRuntimeOptions::new()),
    );
    assert!(matches!(r, Err(LedError::DriverInit)));
    let r = LedMatrix::new(&mut driver, None, None);
    assert!(matches!(r, Err(LedError::DriverInit)));
}

#[test]
fn host_stub_refuses_fonts() {
    let mut driver = HostStub::new();
    assert!(matches!(LedFont::new(&mut driver, "/tmp/6x10.bdf"), Err(LedError::FontLoad)));
}

#[test]
fn default_panel_is_32_by_32() {
    let mut driver = SimulatedPanel::new();
    let matrix = LedMatrix::new(
        &mut driver,
        Some(LedMatrixOptions::new()),
        Some(LedRuntimeOptions::new()),
    )
    .unwrap();
    assert_eq!(matrix.canvas(&driver).canvas_size(&driver), (32, 32));
}

#[test]
fn panel_size_is_columns_by_chain_and_rows_by_parallel() {
    let mut driver = SimulatedPanel::new();
    let mut o = LedMatrixOptions::new();
    o.set_rows(16);
    o.set_cols(64);
    o.set_chain_length(3);
    o.set_parallel(2);
    let matrix = LedMatrix::new(&mut driver, Some(o), None).unwrap();
    let off = matrix.offscreen_canvas(&mut driver);
    assert_eq!(off.canvas_size(&driver), (192, 32));
}

#[test]
fn simulated_panel_refuses_empty_or_huge_panels() {
    let mut driver = SimulatedPanel::new();
    let mut o = LedMatrixOptions::new();
    o.set_rows(0);
    assert!(matches!(LedMatrix::new(&mut driver, Some(o), None), Err(LedError::DriverInit)));
    let mut o = LedMatrixOptions::new();
    o.set_cols(u32::MAX);
    o.set_chain_length(u32::MAX);
    assert!(matches!(LedMatrix::new(&mut driver, Some(o), None), Err(LedError::DriverInit)));
    let mut o = LedMatrixOptions::new();
    o.set_cols(2048);
    o.set_rows(1024);
    assert!(matches!(LedMatrix::new(&mut driver, Some(o), None), Err(LedError::DriverInit)));
    assert!(LedMatrix::new(&mut driver, None, None).is_ok());
}

#[test]
fn fill_black_reads_back_black_everywhere() {
    let mut driver = SimulatedPanel::new();
    let matrix = LedMatrix::new(&mut driver, None, None).unwrap();
    let mut canvas = matrix.offscreen_canvas(&mut driver);
    canvas.fill(&mut driver, &LedColor { red: 9, green: 8, blue: 7 });
    canvas.fill(&mut driver, &LedColor { red: 0, green: 0, blue: 0 });
    let (w, h) = canvas.canvas_size(&driver);
    for y in 0..h {
        for x in 0..w {
            assert_eq!(
                driver.pixel_at(canvas.raw_handle(), x, y),
                Some(LedColor { red: 0, green: 0, blue: 0 })
            );
        }
    }
    assert_eq!(driver.pixel_at(canvas.raw_handle(), w, 0), None);
    assert_eq!(driver.pixel_at(canvas.raw_handle(), -1, 0), None);
}

#[test]
fn fill_and_clear_touch_only_their_canvas() {
    let mut driver = SimulatedPanel::new();
    let matrix = LedMatrix::new(&mut driver, None, None).unwrap();
    let mut shown = matrix.canvas(&driver);
    let mut off = matrix.offscreen_canvas(&mut driver);
    let red = LedColor { red: 255, green: 0, blue: 0 };
    shown.fill(&mut driver, &red);
    off.fill(&mut driver, &LedColor { red: 1, green: 2, blue: 3 });
    off.clear(&mut driver);
    assert_eq!(driver.pixel_at(off.raw_handle(), 5, 5), Some(LedColor { red: 0, green: 0, blue: 0 }));
    assert_eq!(driver.pixel_at(shown.raw_handle(), 5, 5), Some(red));
}

#[test]
fn set_pixel_in_range_and_out_of_range() {
    let mut driver = SimulatedPanel::new();
    let matrix = LedMatrix::new(&mut driver, None, None).unwrap();
    let mut canvas = matrix.canvas(&driver);
    let blue = LedColor { red: 0, green: 0, blue: 255 };
    canvas.set(&mut driver, 3, 4, &blue);
    assert_eq!(driver.pixel_at(canvas.raw_handle(), 3, 4), Some(blue));
    assert_eq!(driver.pixel_at(canvas.raw_handle(), 4, 3), Some(LedColor { red: 0, green: 0, blue: 0 }));
    canvas.set(&mut driver, 31, 31, &blue);
    assert_eq!(driver.pixel_at(canvas.raw_handle(), 31, 31), Some(blue));
    // Out of range: ignored, nothing else changes.
    canvas.set(&mut driver, 32, 0, &blue);
    canvas.set(&mut driver, -1, 5, &blue);
    canvas.set(&mut driver, 0, i32::MAX, &blue);
    assert_eq!(driver.pixel_at(canvas.raw_handle(), 0, 0), Some(LedColor { red: 0, green: 0, blue: 0 }));
    assert_eq!(driver.pixel_at(canvas.raw_handle(), 31, 0), Some(LedColor { red: 0, green: 0, blue: 0 }));
    assert_eq!(driver.pixel_at(canvas.raw_handle(), 0, 5), Some(LedColor { red: 0, green: 0, blue: 0 }));
}

#[test]
fn swap_twice_alternates_two_buffers() {
    let mut driver = SimulatedPanel::new();
    let matrix = LedMatrix::new(&mut driver, None, None).unwrap();
    let shown = matrix.canvas(&driver).raw_handle();
    let off = matrix.offscreen_canvas(&mut driver);
    let off_id = off.raw_handle();
    assert_ne!(off_id, shown);
    let first = matrix.swap(&mut driver, off);
    assert_ne!(first.raw_handle(), off_id);
    assert_eq!(first.raw_handle(), shown);
    assert_eq!(matrix.canvas(&driver).raw_handle(), off_id);
    assert_eq!(first.canvas_size(&driver), (32, 32));
    let second = matrix.swap(&mut driver, first);
    assert_eq!(second.raw_handle(), off_id);
    assert_eq!(matrix.canvas(&driver).raw_handle(), shown);
    assert_eq!(second.canvas_size(&driver), (32, 32));
}

#[test]
fn swap_keeps_pixels() {
    let mut driver = SimulatedPanel::new();
    let matrix = LedMatrix::new(&mut driver, None, None).unwrap();
    let mut off = matrix.offscreen_canvas(&mut driver);
    let green = LedColor { red: 0, green: 200, blue: 0 };
    off.fill(&mut driver, &green);
    let id = off.raw_handle();
    let _back = matrix.swap(&mut driver, off);
    assert_eq!(driver.pixel_at(id, 10, 10), Some(green));
}

#[test]
fn text_with_nul_is_refused_before_the_driver() {
    let mut driver = SimulatedPanel::new();
    let matrix = LedMatrix::new(&mut driver, None, None).unwrap();
    let mut canvas = matrix.offscreen_canvas(&mut driver);
    let font = LedFont::new(&mut driver, "/usr/share/fonts/misc/6x10.bdf").unwrap();
    let color = LedColor { red: 1, green: 1, blue: 1 };
    let r = canvas.draw_text(&mut driver, &font, "ab\0c", 0, 10, &color, 0, false);
    assert_eq!(r, Err(LedError::Encoding));
    let r = canvas.draw_text(&mut driver, &font, "\0", 0, 10, &color, 0, true);
    assert_eq!(r, Err(LedError::Encoding));
    assert_eq!(canvas.draw_text(&mut driver, &font, "abc", 0, 10, &color, 1, true), Ok(0));
    assert_eq!(canvas.draw_text(&mut driver, &font, "abc", 0, 10, &color, 1, false), Ok(0));
    font.release(&mut driver);
}

#[test]
fn font_path_with_nul_is_refused() {
    let mut driver = SimulatedPanel::new();
    assert!(matches!(LedFont::new(&mut driver, "fonts/\0.bdf"), Err(LedError::FontLoad)));
    let a = LedFont::new(&mut driver, "a.bdf").unwrap();
    let b = LedFont::new(&mut driver, "b.bdf").unwrap();
    assert_ne!(a.raw_handle(), b.raw_handle());
    a.release(&mut driver);
    b.release(&mut driver);
}

#[test]
fn release_hands_back_the_options() {
    let mut driver = SimulatedPanel::new();
    let mut o = LedMatrixOptions::new();
    o.set_hardware_mapping("adafruit-hat-pwm").unwrap();
    let matrix = LedMatrix::new(&mut driver, Some(o), None).unwrap();
    let o = matrix.release(&mut driver);
    assert_eq!(o.hardware_mapping(), "adafruit-hat-pwm");
    let again = LedMatrix::new(&mut driver, Some(o), None).unwrap();
    assert_eq!(again.canvas(&driver).canvas_size(&driver), (32, 32));
}
