use crate::color::LedColor;
use crate::driver::{
    black, on_surface, painted, same_layout, same_pixels_except, CLedCanvas, Driver,
};
use crate::error::LedError;
use crate::font::LedFont;
use crate::text::{is_nul_free, nul_free};
use vstd::prelude::*;
use vstd::string::StringSliceAdditionalSpecFns;

verus! {

/// A drawable surface of the matrix. The one that `LedMatrix::swap` hands
/// back is off the display and safe to draw on.
pub struct LedCanvas {
    handle: CLedCanvas,
}

impl LedCanvas {
    /// The driver's handle of the surface.
    pub closed spec fn handle(&self) -> CLedCanvas {
        self.handle
    }

    /// Whether the surface belongs to the live matrix of driver state `d`.
    pub open spec fn is_drawable_in<D: Driver>(&self, d: D) -> bool {
        d.inv() && d.surfaces().contains(self.handle())
    }

    pub(crate) fn from_handle(handle: CLedCanvas) -> (r: LedCanvas)
        ensures
            r.handle() == handle,
    {
        LedCanvas { handle }
    }

    /// The driver's handle of the surface, for reading it back from the driver.
    pub fn raw_handle(&self) -> (r: CLedCanvas)
        ensures
            r == self.handle(),
    {
        self.handle
    }

    /// The width and height of the canvas in pixels.
    pub fn canvas_size<D: Driver>(&self, driver: &D) -> (r: (i32, i32))
        requires
            self.is_drawable_in(*driver),
        ensures
            r.0 == driver.width(),
            r.1 == driver.height(),
    {
        driver.get_canvas_size(self.handle)
    }

    /// Sets the pixel at `(x, y)` to `color`; a pixel off the canvas is ignored.
    pub fn set<D: Driver>(&mut self, driver: &mut D, x: i32, y: i32, color: &LedColor)
        requires
            old(self).is_drawable_in(*old(driver)),
        ensures
            final(self).handle() == old(self).handle(),
            final(driver).inv(),
            same_layout(*old(driver), *final(driver)),
            forall|c: CLedCanvas, x2: int, y2: int|
                #[trigger] final(driver).pixel(c, x2, y2) == if c == old(self).handle() && x2 == x
                    && y2 == y && on_surface(old(driver).width(), old(driver).height(), x2, y2) {
                    *color
                } else {
                    old(driver).pixel(c, x2, y2)
                },
    {
        driver.set_pixel(self.handle, x, y, *color);
    }

    /// Sets every pixel of the canvas to black.
    pub fn clear<D: Driver>(&mut self, driver: &mut D)
        requires
            old(self).is_drawable_in(*old(driver)),
        ensures
            final(self).handle() == old(self).handle(),
            final(driver).inv(),
            same_layout(*old(driver), *final(driver)),
            same_pixels_except(*old(driver), *final(driver), old(self).handle()),
            painted(*final(driver), old(self).handle(), black()),
    {
        driver.clear_canvas(self.handle);
    }

    /// Sets every pixel of the canvas to `color`.
    pub fn fill<D: Driver>(&mut self, driver: &mut D, color: &LedColor)
        requires
            old(self).is_drawable_in(*old(driver)),
        ensures
            final(self).handle() == old(self).handle(),
            final(driver).inv(),
            same_layout(*old(driver), *final(driver)),
            same_pixels_except(*old(driver), *final(driver), old(self).handle()),
            painted(*final(driver), old(self).handle(), *color),
    {
        driver.fill_canvas(self.handle, *color);
    }

    /// Draws a straight, one pixel wide line: the driver's points of the line
    /// that lie on the canvas get `color`.
    pub fn draw_line<D: Driver>(
        &mut self,
        driver: &mut D,
        x0: i32,
        y0: i32,
        x1: i32,
        y1: i32,
        color: &LedColor,
    )
        requires
            old(self).is_drawable_in(*old(driver)),
        ensures
            final(self).handle() == old(self).handle(),
            final(driver).inv(),
            same_layout(*old(driver), *final(driver)),
            forall|c: CLedCanvas, x2: int, y2: int|
                #[trigger] final(driver).pixel(c, x2, y2) == if c == old(self).handle()
                    && on_surface(old(driver).width(), old(driver).height(), x2, y2)
                    && old(driver).line_points(x0 as int, y0 as int, x1 as int, y1 as int).contains((x2, y2)) {
                    *color
                } else {
                    old(driver).pixel(c, x2, y2)
                },
    {
        driver.draw_line(self.handle, x0, y0, x1, y1, *color);
    }

    /// Draws a one pixel wide circle: the driver's points of the circle that
    /// lie on the canvas get `color`. The
    /// radius is handed on as the driver's 32-bit integer.
    pub fn draw_circle<D: Driver>(
        &mut self,
        driver: &mut D,
        x: i32,
        y: i32,
        radius: u32,
        color: &LedColor,
    )
        requires
            old(self).is_drawable_in(*old(driver)),
        ensures
            final(self).handle() == old(self).handle(),
            final(driver).inv(),
            same_layout(*old(driver), *final(driver)),
            forall|c: CLedCanvas, x2: int, y2: int|
                #[trigger] final(driver).pixel(c, x2, y2) == if c == old(self).handle()
                    && on_surface(old(driver).width(), old(driver).height(), x2, y2)
                    && old(driver).circle_points(x as int, y as int, (radius as i32) as int).contains((x2, y2)) {
                    *color
                } else {
                    old(driver).pixel(c, x2, y2)
                },
    {
        driver.draw_circle(self.handle, x, y, radius as i32, *color);
    }

    /// Renders `text` with `font` from `(x, y)`, left to right or, if
    /// `vertical`, top to bottom: the driver's points of the glyphs that lie on
    /// the canvas get `color`. Returns the extent the driver reports.
    /// Text with a NUL byte is refused before the driver is asked.
    pub fn draw_text<D: Driver>(
        &mut self,
        driver: &mut D,
        font: &LedFont,
        text: &str,
        x: i32,
        y: i32,
        color: &LedColor,
        kerning_offset: i32,
        vertical: bool,
    ) -> (r: Result<i32, LedError>)
        requires
            old(self).is_drawable_in(*old(driver)),
            font.is_loaded_in(*old(driver)),
        ensures
            final(self).handle() == old(self).handle(),
            final(driver).inv(),
            !is_nul_free(text.spec_bytes()) ==> r == Err::<i32, LedError>(LedError::Encoding)
                && *final(driver) == *old(driver),
            is_nul_free(text.spec_bytes()) ==> r is Ok && r->Ok_0 == old(driver).text_extent(
                font.handle(),
                text.spec_bytes(),
                kerning_offset as int,
                vertical,
            ),
            same_layout(*old(driver), *final(driver)),
            forall|c: CLedCanvas, x2: int, y2: int|
                #[trigger] final(driver).pixel(c, x2, y2) == if c == old(self).handle()
                    && on_surface(old(driver).width(), old(driver).height(), x2, y2)
                    && (if is_nul_free(text.spec_bytes()) {
                        old(driver).text_points(
                            font.handle(),
                            x as int,
                            y as int,
                            text.spec_bytes(),
                            kerning_offset as int,
                            vertical,
                        )
                    } else {
                        Set::empty()
                    }).contains((x2, y2)) {
                    *color
                } else {
                    old(driver).pixel(c, x2, y2)
                },
    {
        if !nul_free(text) {
            return Err(LedError::Encoding);
        }
        let f = font.raw_handle();
        if vertical {
            Ok(driver.vertical_draw_text(self.handle, f, x, y, *color, text, kerning_offset))
        } else {
            Ok(driver.draw_text(self.handle, f, x, y, *color, text, kerning_offset))
        }
    }
}

} // verus!
