use crate::error::{ConfigField, LedError};
use crate::text::{is_nul_free, nul_free};
use vstd::prelude::*;
use vstd::string::StringSliceAdditionalSpecFns;

verus! {

/// The largest number of PWM bits the driver supports.
pub const MAX_PWM_BITS: u8 = 11;

/// The smallest brightness, in percent.
pub const MIN_BRIGHTNESS: u8 = 1;

/// The largest brightness, in percent.
pub const MAX_BRIGHTNESS: u8 = 100;

/// The values of a panel configuration, with its strings as character sequences.
pub struct OptionsView {
    pub hardware_mapping: Seq<char>,
    pub rows: u32,
    pub cols: u32,
    pub chain_length: u32,
    pub parallel: u32,
    pub pwm_bits: u8,
    pub pwm_lsb_nanoseconds: u32,
    pub pwm_dither_bits: u32,
    pub brightness: u8,
    pub scan_mode: u32,
    pub row_address_type: u32,
    pub multiplexing: u32,
    pub led_rgb_sequence: Seq<char>,
    pub pixel_mapper_config: Seq<char>,
    pub panel_type: Seq<char>,
    pub hardware_pulsing: bool,
    pub show_refresh_rate: bool,
    pub inverse_colors: bool,
    pub limit_refresh_rate_hz: u32,
}

/// The values of a runtime configuration.
pub struct RuntimeOptionsView {
    pub gpio_slowdown: u32,
    pub daemon: bool,
    pub drop_privileges: bool,
    pub do_gpio_init: bool,
}

/// The panel configuration that a new `LedMatrixOptions` holds.
pub open spec fn default_options() -> OptionsView {
    OptionsView {
        hardware_mapping: "regular"@,
        rows: 32,
        cols: 32,
        chain_length: 1,
        parallel: 1,
        pwm_bits: 11,
        pwm_lsb_nanoseconds: 1000,
        pwm_dither_bits: 1,
        brightness: 100,
        scan_mode: 0,
        row_address_type: 0,
        multiplexing: 0,
        led_rgb_sequence: "RGB"@,
        pixel_mapper_config: ""@,
        panel_type: ""@,
        hardware_pulsing: false,
        show_refresh_rate: true,
        inverse_colors: false,
        limit_refresh_rate_hz: 0,
    }
}

/// The runtime configuration that a new `LedRuntimeOptions` holds.
pub open spec fn default_runtime_options() -> RuntimeOptionsView {
    RuntimeOptionsView { gpio_slowdown: 1, daemon: false, drop_privileges: true, do_gpio_init: true }
}

/// Options of the panel hardware: its size, chaining, multiplexing, PWM and
/// the names the driver looks up. Each string is owned by the options and
/// replaced whole when it is set.
pub struct LedMatrixOptions {
    hardware_mapping: String,
    rows: u32,
    cols: u32,
    chain_length: u32,
    parallel: u32,
    pwm_bits: u8,
    pwm_lsb_nanoseconds: u32,
    pwm_dither_bits: u32,
    brightness: u8,
    scan_mode: u32,
    row_address_type: u32,
    multiplexing: u32,
    led_rgb_sequence: String,
    pixel_mapper_config: String,
    panel_type: String,
    hardware_pulsing: bool,
    show_refresh_rate: bool,
    inverse_colors: bool,
    limit_refresh_rate_hz: u32,
}

impl View for LedMatrixOptions {
    type V = OptionsView;

    closed spec fn view(&self) -> OptionsView {
        OptionsView {
            hardware_mapping: self.hardware_mapping@,
            rows: self.rows,
            cols: self.cols,
            chain_length: self.chain_length,
            parallel: self.parallel,
            pwm_bits: self.pwm_bits,
            pwm_lsb_nanoseconds: self.pwm_lsb_nanoseconds,
            pwm_dither_bits: self.pwm_dither_bits,
            brightness: self.brightness,
            scan_mode: self.scan_mode,
            row_address_type: self.row_address_type,
            multiplexing: self.multiplexing,
            led_rgb_sequence: self.led_rgb_sequence@,
            pixel_mapper_config: self.pixel_mapper_config@,
            panel_type: self.panel_type@,
            hardware_pulsing: self.hardware_pulsing,
            show_refresh_rate: self.show_refresh_rate,
            inverse_colors: self.inverse_colors,
            limit_refresh_rate_hz: self.limit_refresh_rate_hz,
        }
    }
}

impl LedMatrixOptions {
    /// Creates options with the default parameters: a 32x32 panel, one chain
    /// of one panel, 11 PWM bits and full brightness.
    pub fn new() -> (r: LedMatrixOptions)
        ensures
            r@ == default_options(),
    {
        LedMatrixOptions {
            hardware_mapping: "regular".to_owned(),
            rows: 32,
            cols: 32,
            chain_length: 1,
            parallel: 1,
            pwm_bits: 11,
            pwm_lsb_nanoseconds: 1000,
            pwm_dither_bits: 1,
            brightness: 100,
            scan_mode: 0,
            row_address_type: 0,
            multiplexing: 0,
            led_rgb_sequence: "RGB".to_owned(),
            pixel_mapper_config: "".to_owned(),
            panel_type: "".to_owned(),
            hardware_pulsing: false,
            show_refresh_rate: true,
            inverse_colors: false,
            limit_refresh_rate_hz: 0,
        }
    }

    /// The `hardware_mapping` string.
    pub fn hardware_mapping(&self) -> (r: &str)
        ensures
            r@ == self@.hardware_mapping,
    {
        self.hardware_mapping.as_str()
    }

    /// The `rows` value.
    pub fn rows(&self) -> (r: u32)
        ensures
            r == self@.rows,
    {
        self.rows
    }

    /// The `cols` value.
    pub fn cols(&self) -> (r: u32)
        ensures
            r == self@.cols,
    {
        self.cols
    }

    /// The `chain_length` value.
    pub fn chain_length(&self) -> (r: u32)
        ensures
            r == self@.chain_length,
    {
        self.chain_length
    }

    /// The `parallel` value.
    pub fn parallel(&self) -> (r: u32)
        ensures
            r == self@.parallel,
    {
        self.parallel
    }

    /// The `pwm_bits` value.
    pub fn pwm_bits(&self) -> (r: u8)
        ensures
            r == self@.pwm_bits,
    {
        self.pwm_bits
    }

    /// The `pwm_lsb_nanoseconds` value.
    pub fn pwm_lsb_nanoseconds(&self) -> (r: u32)
        ensures
            r == self@.pwm_lsb_nanoseconds,
    {
        self.pwm_lsb_nanoseconds
    }

    /// The `pwm_dither_bits` value.
    pub fn pwm_dither_bits(&self) -> (r: u32)
        ensures
            r == self@.pwm_dither_bits,
    {
        self.pwm_dither_bits
    }

    /// The `brightness` value.
    pub fn brightness(&self) -> (r: u8)
        ensures
            r == self@.brightness,
    {
        self.brightness
    }

    /// The `scan_mode` value.
    pub fn scan_mode(&self) -> (r: u32)
        ensures
            r == self@.scan_mode,
    {
        self.scan_mode
    }

    /// The `row_address_type` value.
    pub fn row_address_type(&self) -> (r: u32)
        ensures
            r == self@.row_address_type,
    {
        self.row_address_type
    }

    /// The `multiplexing` value.
    pub fn multiplexing(&self) -> (r: u32)
        ensures
            r == self@.multiplexing,
    {
        self.multiplexing
    }

    /// The `led_rgb_sequence` string.
    pub fn led_rgb_sequence(&self) -> (r: &str)
        ensures
            r@ == self@.led_rgb_sequence,
    {
        self.led_rgb_sequence.as_str()
    }

    /// The `pixel_mapper_config` string.
    pub fn pixel_mapper_config(&self) -> (r: &str)
        ensures
            r@ == self@.pixel_mapper_config,
    {
        self.pixel_mapper_config.as_str()
    }

    /// The `panel_type` string.
    pub fn panel_type(&self) -> (r: &str)
        ensures
            r@ == self@.panel_type,
    {
        self.panel_type.as_str()
    }

    /// The `hardware_pulsing` value.
    pub fn hardware_pulsing(&self) -> (r: bool)
        ensures
            r == self@.hardware_pulsing,
    {
        self.hardware_pulsing
    }

    /// The `show_refresh_rate` value.
    pub fn show_refresh_rate(&self) -> (r: bool)
        ensures
            r == self@.show_refresh_rate,
    {
        self.show_refresh_rate
    }

    /// The `inverse_colors` value.
    pub fn inverse_colors(&self) -> (r: bool)
        ensures
            r == self@.inverse_colors,
    {
        self.inverse_colors
    }

    /// The `limit_refresh_rate_hz` value.
    pub fn limit_refresh_rate_hz(&self) -> (r: u32)
        ensures
            r == self@.limit_refresh_rate_hz,
    {
        self.limit_refresh_rate_hz
    }

    /// Sets the number of rows on the panels being used. Typically 8, 16, 32 or 64.
    pub fn set_rows(&mut self, rows: u32)
        ensures
            final(self)@ == (OptionsView { rows: rows, ..old(self)@ }),
    {
        self.rows = rows;
    }

    /// Sets the number of columns on the panels being used. Typically 32 or 64.
    pub fn set_cols(&mut self, cols: u32)
        ensures
            final(self)@ == (OptionsView { cols: cols, ..old(self)@ }),
    {
        self.cols = cols;
    }

    /// Sets the number of panels daisy-chained together.
    pub fn set_chain_length(&mut self, chain_length: u32)
        ensures
            final(self)@ == (OptionsView { chain_length: chain_length, ..old(self)@ }),
    {
        self.chain_length = chain_length;
    }

    /// Sets the number of parallel chains.
    pub fn set_parallel(&mut self, parallel: u32)
        ensures
            final(self)@ == (OptionsView { parallel: parallel, ..old(self)@ }),
    {
        self.parallel = parallel;
    }

    /// Sets the number of nanoseconds of delay for the least significant bit.
    pub fn set_pwm_lsb_nanoseconds(&mut self, pwm_lsb_nanoseconds: u32)
        ensures
            final(self)@ == (OptionsView { pwm_lsb_nanoseconds: pwm_lsb_nanoseconds, ..old(self)@ }),
    {
        self.pwm_lsb_nanoseconds = pwm_lsb_nanoseconds;
    }

    /// Sets the scan mode. 0: progressive, 1: interlaced.
    pub fn set_scan_mode(&mut self, scan_mode: u32)
        ensures
            final(self)@ == (OptionsView { scan_mode: scan_mode, ..old(self)@ }),
    {
        self.scan_mode = scan_mode;
    }

    /// Sets the type of multiplexing used (0 is direct).
    pub fn set_multiplexing(&mut self, multiplexing: u32)
        ensures
            final(self)@ == (OptionsView { multiplexing: multiplexing, ..old(self)@ }),
    {
        self.multiplexing = multiplexing;
    }

    /// Sets the type of row addressing (0 is the default).
    pub fn set_row_addr_type(&mut self, row_address_type: u32)
        ensures
            final(self)@ == (OptionsView { row_address_type: row_address_type, ..old(self)@ }),
    {
        self.row_address_type = row_address_type;
    }

    /// Limits the refresh rate to this frequency in Hz (0 is no limit).
    pub fn set_limit_refresh(&mut self, limit_refresh_rate_hz: u32)
        ensures
            final(self)@ == (OptionsView { limit_refresh_rate_hz: limit_refresh_rate_hz, ..old(self)@ }),
    {
        self.limit_refresh_rate_hz = limit_refresh_rate_hz;
    }

    /// Sets how many bits are used for time-based dithering.
    pub fn set_pwm_dither_bits(&mut self, pwm_dither_bits: u32)
        ensures
            final(self)@ == (OptionsView { pwm_dither_bits: pwm_dither_bits, ..old(self)@ }),
    {
        self.pwm_dither_bits = pwm_dither_bits;
    }

    /// Sets whether hardware pin-pulse generation is used.
    pub fn set_hardware_pulsing(&mut self, enable: bool)
        ensures
            final(self)@ == (OptionsView { hardware_pulsing: enable, ..old(self)@ }),
    {
        self.hardware_pulsing = enable;
    }

    /// Sets whether the driver prints the current refresh rate.
    pub fn set_refresh_rate(&mut self, enable: bool)
        ensures
            final(self)@ == (OptionsView { show_refresh_rate: enable, ..old(self)@ }),
    {
        self.show_refresh_rate = enable;
    }

    /// Sets whether the displayed colors are inverted.
    pub fn set_inverse_colors(&mut self, enable: bool)
        ensures
            final(self)@ == (OptionsView { inverse_colors: enable, ..old(self)@ }),
    {
        self.inverse_colors = enable;
    }

    /// Sets the number of PWM bits, which must lie in `0..=11`; otherwise the
    /// options stay as they are.
    pub fn set_pwm_bits(&mut self, pwm_bits: u8) -> (r: Result<(), LedError>)
        ensures
            pwm_bits <= MAX_PWM_BITS ==> r is Ok && final(self)@ == (OptionsView {
                pwm_bits: pwm_bits,
                ..old(self)@
            }),
            pwm_bits > MAX_PWM_BITS ==> r == Err::<(), LedError>(
                LedError::Validation { field: ConfigField::PwmBits, min: 0, max: MAX_PWM_BITS },
            ) && final(self)@ == old(self)@,
    {
        if pwm_bits > MAX_PWM_BITS {
            Err(LedError::Validation { field: ConfigField::PwmBits, min: 0, max: MAX_PWM_BITS })
        } else {
            self.pwm_bits = pwm_bits;
            Ok(())
        }
    }

    /// Sets the brightness in percent, which must lie in `1..=100`; otherwise
    /// the options stay as they are.
    pub fn set_brightness(&mut self, brightness: u8) -> (r: Result<(), LedError>)
        ensures
            MIN_BRIGHTNESS <= brightness <= MAX_BRIGHTNESS ==> r is Ok && final(self)@ == (
            OptionsView { brightness: brightness, ..old(self)@ }),
            !(MIN_BRIGHTNESS <= brightness <= MAX_BRIGHTNESS) ==> r == Err::<(), LedError>(
                LedError::Validation {
                    field: ConfigField::Brightness,
                    min: MIN_BRIGHTNESS,
                    max: MAX_BRIGHTNESS,
                },
            ) && final(self)@ == old(self)@,
    {
        if MIN_BRIGHTNESS <= brightness && brightness <= MAX_BRIGHTNESS {
            self.brightness = brightness;
            Ok(())
        } else {
            Err(
                LedError::Validation {
                    field: ConfigField::Brightness,
                    min: MIN_BRIGHTNESS,
                    max: MAX_BRIGHTNESS,
                },
            )
        }
    }

    /// Sets the name of the GPIO mapping used (e.g. "adafruit-hat-pwm").
    /// A string with a NUL byte is refused and the options stay as they are.
    pub fn set_hardware_mapping(&mut self, mapping: &str) -> (r: Result<(), LedError>)
        ensures
            is_nul_free(mapping.spec_bytes()) ==> r is Ok && final(self)@ == (OptionsView {
                hardware_mapping: mapping@,
                ..old(self)@
            }),
            !is_nul_free(mapping.spec_bytes()) ==> r == Err::<(), LedError>(LedError::Encoding)
                && final(self)@ == old(self)@,
    {
        if nul_free(mapping) {
            self.hardware_mapping = mapping.to_owned();
            Ok(())
        } else {
            Err(LedError::Encoding)
        }
    }

    /// Sets the order of the color channels of the LEDs (e.g. "RGB").
    /// A string with a NUL byte is refused and the options stay as they are.
    pub fn set_led_rgb_sequence(&mut self, sequence: &str) -> (r: Result<(), LedError>)
        ensures
            is_nul_free(sequence.spec_bytes()) ==> r is Ok && final(self)@ == (OptionsView {
                led_rgb_sequence: sequence@,
                ..old(self)@
            }),
            !is_nul_free(sequence.spec_bytes()) ==> r == Err::<(), LedError>(LedError::Encoding)
                && final(self)@ == old(self)@,
    {
        if nul_free(sequence) {
            self.led_rgb_sequence = sequence.to_owned();
            Ok(())
        } else {
            Err(LedError::Encoding)
        }
    }

    /// Sets the semicolon-separated list of pixel mappers (e.g. "U-mapper;Rotate:90").
    /// A string with a NUL byte is refused and the options stay as they are.
    pub fn set_pixel_mapper_config(&mut self, mapper: &str) -> (r: Result<(), LedError>)
        ensures
            is_nul_free(mapper.spec_bytes()) ==> r is Ok && final(self)@ == (OptionsView {
                pixel_mapper_config: mapper@,
                ..old(self)@
            }),
            !is_nul_free(mapper.spec_bytes()) ==> r == Err::<(), LedError>(LedError::Encoding)
                && final(self)@ == old(self)@,
    {
        if nul_free(mapper) {
            self.pixel_mapper_config = mapper.to_owned();
            Ok(())
        } else {
            Err(LedError::Encoding)
        }
    }

    /// Sets the panel type to initialize, if any (e.g. "FM6126A").
    /// A string with a NUL byte is refused and the options stay as they are.
    pub fn set_panel_type(&mut self, panel_type: &str) -> (r: Result<(), LedError>)
        ensures
            is_nul_free(panel_type.spec_bytes()) ==> r is Ok && final(self)@ == (OptionsView {
                panel_type: panel_type@,
                ..old(self)@
            }),
            !is_nul_free(panel_type.spec_bytes()) ==> r == Err::<(), LedError>(LedError::Encoding)
                && final(self)@ == old(self)@,
    {
        if nul_free(panel_type) {
            self.panel_type = panel_type.to_owned();
            Ok(())
        } else {
            Err(LedError::Encoding)
        }
    }
}

/// Setting a string field twice leaves the second string in it and every
/// other field as it was before both: each set replaces the whole string.
pub proof fn lemma_string_set_twice(v: OptionsView, first: Seq<char>, second: Seq<char>)
    ensures
        (OptionsView { hardware_mapping: second, ..OptionsView { hardware_mapping: first, ..v } })
            == (OptionsView { hardware_mapping: second, ..v }),
        (OptionsView { led_rgb_sequence: second, ..OptionsView { led_rgb_sequence: first, ..v } })
            == (OptionsView { led_rgb_sequence: second, ..v }),
        (OptionsView {
            pixel_mapper_config: second,
            ..OptionsView { pixel_mapper_config: first, ..v }
        }) == (OptionsView { pixel_mapper_config: second, ..v }),
        (OptionsView { panel_type: second, ..OptionsView { panel_type: first, ..v } }) == (
        OptionsView { panel_type: second, ..v }),
{
}

impl Default for LedMatrixOptions {
    fn default() -> (r: LedMatrixOptions)
        ensures
            r@ == default_options(),
    {
        LedMatrixOptions::new()
    }
}

/// Options of how the driver runs: GPIO slowdown, daemon mode, privileges.
#[derive(Clone, Copy, Debug)]
pub struct LedRuntimeOptions {
    gpio_slowdown: u32,
    daemon: bool,
    drop_privileges: bool,
    do_gpio_init: bool,
}

impl View for LedRuntimeOptions {
    type V = RuntimeOptionsView;

    closed spec fn view(&self) -> RuntimeOptionsView {
        RuntimeOptionsView {
            gpio_slowdown: self.gpio_slowdown,
            daemon: self.daemon,
            drop_privileges: self.drop_privileges,
            do_gpio_init: self.do_gpio_init,
        }
    }
}

impl LedRuntimeOptions {
    /// Creates runtime options with the defaults: slowdown 1, no daemon,
    /// privileges dropped after initialisation, GPIO initialised.
    pub fn new() -> (r: LedRuntimeOptions)
        ensures
            r@ == default_runtime_options(),
    {
        LedRuntimeOptions { gpio_slowdown: 1, daemon: false, drop_privileges: true, do_gpio_init: true }
    }

    /// The `gpio_slowdown` value.
    pub fn gpio_slowdown(&self) -> (r: u32)
        ensures
            r == self@.gpio_slowdown,
    {
        self.gpio_slowdown
    }

    /// Sets the GPIO slowdown, needed for faster boards or slower panels.
    pub fn set_gpio_slowdown(&mut self, gpio_slowdown: u32)
        ensures
            final(self)@ == (RuntimeOptionsView { gpio_slowdown: gpio_slowdown, ..old(self)@ }),
    {
        self.gpio_slowdown = gpio_slowdown;
    }

    /// The `daemon` value.
    pub fn daemon(&self) -> (r: bool)
        ensures
            r == self@.daemon,
    {
        self.daemon
    }

    /// Sets whether the process runs in the background as a daemon.
    pub fn set_daemon(&mut self, daemon: bool)
        ensures
            final(self)@ == (RuntimeOptionsView { daemon: daemon, ..old(self)@ }),
    {
        self.daemon = daemon;
    }

    /// The `drop_privileges` value.
    pub fn drop_privileges(&self) -> (r: bool)
        ensures
            r == self@.drop_privileges,
    {
        self.drop_privileges
    }

    /// Sets whether root privileges are dropped after the hardware is initialised.
    pub fn set_drop_privileges(&mut self, drop_privileges: bool)
        ensures
            final(self)@ == (RuntimeOptionsView { drop_privileges: drop_privileges, ..old(self)@ }),
    {
        self.drop_privileges = drop_privileges;
    }

    /// The `do_gpio_init` value.
    pub fn do_gpio_init(&self) -> (r: bool)
        ensures
            r == self@.do_gpio_init,
    {
        self.do_gpio_init
    }

    /// Sets whether the GPIO pins are initialised.
    pub fn set_do_gpio_init(&mut self, do_gpio_init: bool)
        ensures
            final(self)@ == (RuntimeOptionsView { do_gpio_init: do_gpio_init, ..old(self)@ }),
    {
        self.do_gpio_init = do_gpio_init;
    }
}

impl Default for LedRuntimeOptions {
    fn default() -> (r: LedRuntimeOptions)
        ensures
            r@ == default_runtime_options(),
    {
        LedRuntimeOptions::new()
    }
}

} // verus!
