use rpi_led_matrix::{
    LedColor, LedFont, LedMatrix, LedMatrixOptions, LedRuntimeOptions, SimulatedPanel,
};

fn led_matrix(driver: &mut SimulatedPanel) -> LedMatrix {
    let mut options = LedMatrixOptions::new();
    let mut rt_options = LedRuntimeOptions::new();
    options.set_hardware_mapping("adafruit-hat-pwm").unwrap();
    options.set_chain_length(2);
    options.set_hardware_pulsing(false);
    options.set_refresh_rate(true);
    options.set_brightness(10).unwrap();
    rt_options.set_gpio_slowdown(2);
    LedMatrix::new(driver, Some(options), Some(rt_options)).unwrap()
}

#[test]
fn matrix_matrix_create() {
    let mut driver = SimulatedPanel::new();
    let _matrix = led_matrix(&mut driver);
}

#[test]
fn lib_matrix_create() {
    let mut driver = SimulatedPanel::new();
    let _matrix = led_matrix(&mut driver);
}

#[test]
fn canvas_size() {
    let mut driver = SimulatedPanel::new();
    let matrix = led_matrix(&mut driver);
    let canvas = matrix.canvas(&driver);
    assert_eq!(canvas.canvas_size(&driver), (64, 32));
}

#[test]
fn lib_size() {
    let mut driver = SimulatedPanel::new();
    let matrix = led_matrix(&mut driver);
    let canvas = matrix.canvas(&driver);
    assert_eq!(canvas.canvas_size(&driver), (64, 32));
}

fn draw_lines(driver: &mut SimulatedPanel) {
    let matrix = led_matrix(driver);
    let mut canvas = matrix.canvas(driver);
    let (width, height) = canvas.canvas_size(driver);
    let mut color = LedColor { red: 127, green: 0, blue: 0 };

    canvas.clear(driver);
    for x in 0..width {
        color.blue = 255 - 3 * x as u8;
        canvas.draw_line(driver, x, 0, width - 1 - x, height - 1, &color);
    }
}

#[test]
fn canvas_draw_line() {
    let mut driver = SimulatedPanel::new();
    draw_lines(&mut driver);
}

#[test]
fn lib_draw_line() {
    let mut driver = SimulatedPanel::new();
    draw_lines(&mut driver);
}

fn draw_circles(driver: &mut SimulatedPanel) {
    let matrix = led_matrix(driver);
    let mut canvas = matrix.canvas(driver);
    let (width, height) = canvas.canvas_size(driver);
    let mut color = LedColor { red: 127, green: 0, blue: 0 };
    let (x, y) = (width / 2, height / 2);

    canvas.clear(driver);
    for r in 0..(width / 2) {
        color.green = color.red;
        color.red = color.blue;
        color.blue = (r * r) as u8;
        canvas.draw_circle(driver, x, y, r as u32, &color);
    }
}

#[test]
fn canvas_draw_circle() {
    let mut driver = SimulatedPanel::new();
    draw_circles(&mut driver);
}

#[test]
fn lib_draw_circle() {
    let mut driver = SimulatedPanel::new();
    draw_circles(&mut driver);
}

fn gradient(driver: &mut SimulatedPanel) {
    let matrix = led_matrix(driver);
    let mut canvas = matrix.canvas(driver);
    let mut color = LedColor { red: 0, green: 0, blue: 0 };
    let period = 400;

    for t in 0..period {
        let t = t as f64;
        color.red = ((std::f64::consts::PI * t / period as f64).sin() * 255.) as u8;
        color.green = ((2. * std::f64::consts::PI * t / period as f64).cos() * 255.) as u8;
        color.blue = ((3. * std::f64::consts::PI * t / period as f64 + 0.3).cos() * 255.) as u8;
        canvas.fill(driver, &color);
        assert_eq!(driver.pixel_at(canvas.raw_handle(), 0, 0), Some(color));
    }
}

#[test]
fn canvas_gradient() {
    let mut driver = SimulatedPanel::new();
    gradient(&mut driver);
}

#[test]
fn lib_gradient() {
    let mut driver = SimulatedPanel::new();
    gradient(&mut driver);
}

fn canvas_swaps(driver: &mut SimulatedPanel) {
    let matrix = led_matrix(driver);
    let mut canvas = matrix.canvas(driver);
    let mut color = LedColor { red: 127, green: 127, blue: 0 };

    canvas.fill(driver, &color);
    canvas = matrix.offscreen_canvas(driver);
    color.blue = 127;
    canvas.fill(driver, &color);
    canvas = matrix.swap(driver, canvas);
    color.red = 0;
    canvas.fill(driver, &color);
    let _ = matrix.swap(driver, canvas);
}

#[test]
fn canvas_canvas_swap() {
    let mut driver = SimulatedPanel::new();
    canvas_swaps(&mut driver);
}

#[test]
fn lib_canvas_swap() {
    let mut driver = SimulatedPanel::new();
    canvas_swaps(&mut driver);
}

fn draw_texts(driver: &mut SimulatedPanel) {
    let matrix = LedMatrix::new(driver, None, None).unwrap();
    let canvas = matrix.canvas(driver);
    let font = LedFont::new(driver, "/usr/share/fonts/misc/10x20.bdf").unwrap();
    let color = LedColor { red: 0, green: 127, blue: 0 };
    let (width, height) = canvas.canvas_size(driver);
    let text_width = 10 * 9;
    let baseline = height / 2;

    let mut canvas = matrix.offscreen_canvas(driver);
    for x in 0..(2 * width) {
        let x = x % (10 * 9);
        canvas.clear(driver);
        canvas.draw_text(driver, &font, "Mah boy! ", x, baseline, &color, 0, false).unwrap();
        canvas
            .draw_text(driver, &font, "Mah boy! ", x - text_width, baseline, &color, 0, false)
            .unwrap();
        canvas
            .draw_text(driver, &font, "Mah boy! ", x + text_width, baseline, &color, 0, false)
            .unwrap();
        canvas = matrix.swap(driver, canvas);
    }
}

#[test]
fn font_draw_text() {
    let mut driver = SimulatedPanel::new();
    draw_texts(&mut driver);
}

#[test]
fn lib_draw_text() {
    let mut driver = SimulatedPanel::new();
    draw_texts(&mut driver);
}
