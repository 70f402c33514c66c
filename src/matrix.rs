use crate::canvas::LedCanvas;
use crate::driver::{same_display, same_pixels, same_pixels_except, CLedCanvas, CLedMatrix, Driver};
use crate::error::LedError;
use crate::options::{
    default_options, default_runtime_options, LedMatrixOptions, LedRuntimeOptions, OptionsView,
    RuntimeOptionsView,
};
use vstd::prelude::*;

verus! {

/// The panel configuration used when none is given.
pub open spec fn options_or_default(options: Option<LedMatrixOptions>) -> OptionsView {
    match options {
        Some(o) => o@,
        None => default_options(),
    }
}

/// The runtime configuration used when none is given.
pub open spec fn runtime_options_or_default(
    rt_options: Option<LedRuntimeOptions>,
) -> RuntimeOptionsView {
    match rt_options {
        Some(o) => o@,
        None => default_runtime_options(),
    }
}

/// A swap on vertical sync took driver state `before` to `after`: `shown` is
/// now on display, `returned` is the surface that was, and nothing else
/// changed.
pub open spec fn swapped<D: Driver>(
    before: D,
    after: D,
    shown: CLedCanvas,
    returned: CLedCanvas,
) -> bool {
    &&& returned == before.active()
    &&& after.active() == shown
    &&& after.matrix() == before.matrix()
    &&& after.surfaces() == before.surfaces()
    &&& after.width() == before.width()
    &&& after.height() == before.height()
    &&& after.fonts() == before.fonts()
    &&& same_pixels(before, after)
}

/// Two swaps in a row, the second given what the first handed back: the
/// first hands back a surface other than the one it was given, the second
/// hands that given surface back, and the surfaces keep the panel's size.
pub proof fn lemma_swap_twice<D: Driver>(
    d0: D,
    d1: D,
    d2: D,
    off: CLedCanvas,
    first: CLedCanvas,
    second: CLedCanvas,
)
    requires
        off != d0.active(),
        swapped(d0, d1, off, first),
        swapped(d1, d2, first, second),
    ensures
        first != off,
        second == off,
        d2.active() == first,
        d2.surfaces() == d0.surfaces(),
        d2.width() == d0.width(),
        d2.height() == d0.height(),
{
}

/// The matrix resource of the driver. It owns the panel configuration it was
/// made from, which the driver may read for as long as the matrix lives, and
/// hands it back when the matrix is released.
pub struct LedMatrix {
    handle: CLedMatrix,
    options: LedMatrixOptions,
}

impl LedMatrix {
    /// The driver's handle of the matrix.
    pub closed spec fn handle(&self) -> CLedMatrix {
        self.handle
    }

    /// The panel configuration the matrix was made from.
    pub closed spec fn options(&self) -> OptionsView {
        self.options@
    }

    /// Whether the matrix is the live matrix of driver state `d`.
    pub open spec fn is_live_in<D: Driver>(&self, d: D) -> bool {
        &&& d.inv()
        &&& d.matrix() == Some(self.handle())
        &&& d.surfaces().contains(d.active())
    }

    /// Creates the matrix from the given configurations, or the defaults.
    /// Fails with `DriverInit` when the driver returns no matrix.
    pub fn new<D: Driver>(
        driver: &mut D,
        options: Option<LedMatrixOptions>,
        rt_options: Option<LedRuntimeOptions>,
    ) -> (r: Result<LedMatrix, LedError>)
        requires
            old(driver).inv(),
            old(driver).matrix() is None,
        ensures
            final(driver).inv(),
            final(driver).fonts() == old(driver).fonts(),
            r is Ok <==> old(driver).accepts(
                options_or_default(options),
                runtime_options_or_default(rt_options),
            ),
            match r {
                Ok(m) => {
                    &&& m.is_live_in(*final(driver))
                    &&& m.options() == options_or_default(options)
                    &&& final(driver).surfaces() == set![final(driver).active()]
                    &&& final(driver).width() == old(driver).layout_width(
                        options_or_default(options),
                    )
                    &&& final(driver).height() == old(driver).layout_height(
                        options_or_default(options),
                    )
                },
                Err(e) => e == LedError::DriverInit && final(driver).matrix() is None,
            },
    {
        let options = match options {
            Some(o) => o,
            None => LedMatrixOptions::new(),
        };
        let rt_options = match rt_options {
            Some(o) => o,
            None => LedRuntimeOptions::new(),
        };
        match driver.create_matrix(&options, &rt_options) {
            Some(handle) => Ok(LedMatrix { handle, options }),
            None => Err(LedError::DriverInit),
        }
    }

    /// The canvas on display. Every call describes the same surface until the
    /// next swap.
    pub fn canvas<D: Driver>(&self, driver: &D) -> (r: LedCanvas)
        requires
            self.is_live_in(*driver),
        ensures
            r.handle() == driver.active(),
            r.is_drawable_in(*driver),
    {
        LedCanvas::from_handle(driver.get_canvas(self.handle))
    }

    /// Allocates a new canvas off the display, the size of the panel.
    pub fn offscreen_canvas<D: Driver>(&self, driver: &mut D) -> (r: LedCanvas)
        requires
            self.is_live_in(*old(driver)),
        ensures
            self.is_live_in(*final(driver)),
            r.is_drawable_in(*final(driver)),
            !old(driver).surfaces().contains(r.handle()),
            r.handle() != final(driver).active(),
            final(driver).surfaces() == old(driver).surfaces().insert(r.handle()),
            final(driver).fonts() == old(driver).fonts(),
            same_display(*old(driver), *final(driver)),
            same_pixels_except(*old(driver), *final(driver), r.handle()),
    {
        LedCanvas::from_handle(driver.create_offscreen_canvas(self.handle))
    }

    /// Waits for the next vertical sync, shows `canvas`, and hands back the
    /// canvas that was shown, now off the display.
    pub fn swap<D: Driver>(&self, driver: &mut D, canvas: LedCanvas) -> (r: LedCanvas)
        requires
            self.is_live_in(*old(driver)),
            canvas.is_drawable_in(*old(driver)),
            canvas.handle() != old(driver).active(),
        ensures
            self.is_live_in(*final(driver)),
            r.is_drawable_in(*final(driver)),
            r.handle() != canvas.handle(),
            r.handle() != final(driver).active(),
            swapped(*old(driver), *final(driver), canvas.handle(), r.handle()),
    {
        let handle = driver.swap_on_vsync(self.handle, canvas.raw_handle());
        LedCanvas::from_handle(handle)
    }

    /// Releases the matrix and its surfaces, then hands back the panel
    /// configuration, which the driver no longer reads.
    pub fn release<D: Driver>(self, driver: &mut D) -> (r: LedMatrixOptions)
        requires
            self.is_live_in(*old(driver)),
        ensures
            final(driver).inv(),
            final(driver).matrix() is None,
            final(driver).surfaces() == Set::<CLedCanvas>::empty(),
            final(driver).fonts() == old(driver).fonts(),
            r@ == self.options(),
    {
        driver.destroy_matrix(self.handle);
        self.options
    }
}

} // verus!
