use crate::driver::{same_display, same_pixels, CLedFont, Driver};
use crate::error::LedError;
use crate::text::{is_nul_free, nul_free};
use vstd::prelude::*;
use vstd::string::StringSliceAdditionalSpecFns;

verus! {

/// A bitmap font loaded by the driver. It stays loaded until `release`
/// hands it back, whatever happens to the matrix.
pub struct LedFont {
    handle: CLedFont,
}

impl LedFont {
    /// The driver's handle of the font.
    pub closed spec fn handle(&self) -> CLedFont {
        self.handle
    }

    /// Whether the font is loaded in driver state `d`.
    pub open spec fn is_loaded_in<D: Driver>(&self, d: D) -> bool {
        d.inv() && d.fonts().contains(self.handle())
    }

    /// The driver's handle of the font, for reading it back from the driver.
    pub fn raw_handle(&self) -> (r: CLedFont)
        ensures
            r == self.handle(),
    {
        self.handle
    }

    /// Loads the BDF font at `bdf_file`. A path with a NUL byte is refused
    /// before the driver is asked; otherwise the font is loaded unless the
    /// driver cannot read it: a missing and a malformed file are both
    /// `FontLoad`.
    pub fn new<D: Driver>(driver: &mut D, bdf_file: &str) -> (r: Result<LedFont, LedError>)
        requires
            old(driver).inv(),
        ensures
            final(driver).inv(),
            same_display(*old(driver), *final(driver)),
            same_pixels(*old(driver), *final(driver)),
            final(driver).surfaces() == old(driver).surfaces(),
            !is_nul_free(bdf_file.spec_bytes()) ==> r == Err::<LedFont, LedError>(
                LedError::FontLoad,
            ) && *final(driver) == *old(driver),
            r is Ok <==> is_nul_free(bdf_file.spec_bytes()) && old(driver).loads_font(
                bdf_file.spec_bytes(),
            ),
            match r {
                Ok(f) => is_nul_free(bdf_file.spec_bytes()) && !old(driver).fonts().contains(
                    f.handle(),
                ) && final(driver).fonts() == old(driver).fonts().insert(f.handle()),
                Err(e) => e == LedError::FontLoad && final(driver).fonts() == old(driver).fonts(),
            },
    {
        if !nul_free(bdf_file) {
            return Err(LedError::FontLoad);
        }
        match driver.load_font(bdf_file) {
            Some(handle) => Ok(LedFont { handle }),
            None => Err(LedError::FontLoad),
        }
    }

    /// Releases the font.
    pub fn release<D: Driver>(self, driver: &mut D)
        requires
            self.is_loaded_in(*old(driver)),
        ensures
            final(driver).inv(),
            same_display(*old(driver), *final(driver)),
            same_pixels(*old(driver), *final(driver)),
            final(driver).surfaces() == old(driver).surfaces(),
            final(driver).fonts() == old(driver).fonts().remove(self.handle()),
    {
        driver.delete_font(self.handle);
    }
}

} // verus!
