use vstd::prelude::*;

verus! {

/// A configuration field whose value is checked against a range.
#[derive(Clone, Copy, Debug, PartialEq, Eq, Structural)]
pub enum ConfigField {
    PwmBits,
    Brightness,
}

/// What can go wrong when configuring or driving the panel.
#[derive(Clone, Copy, Debug, PartialEq, Eq, Structural)]
pub enum LedError {
    /// A value lies outside the inclusive range `min..=max` of its field.
    Validation { field: ConfigField, min: u8, max: u8 },
    /// A string holds a NUL byte, so the driver could not read it whole.
    Encoding,
    /// The driver returned no matrix.
    DriverInit,
    /// The path could not be handed to the driver, or the driver could not load the font.
    FontLoad,
}

impl LedError {
    /// A sentence that describes the error.
    pub fn message(&self) -> &'static str {
        match self {
            LedError::Validation { field: ConfigField::PwmBits, .. } => {
                "Pwm bits can only have value between 0 and 11 inclusive"
            },
            LedError::Validation { field: ConfigField::Brightness, .. } => {
                "Brightness can only have value between 1 and 100 inclusive"
            },
            LedError::Encoding => "given string holds a NUL byte",
            LedError::DriverInit => "Couldn't create LedMatrix",
            LedError::FontLoad => "Couldn't load font",
        }
    }
}

} // verus!
