use crate::color::LedColor;
use crate::driver::{black, CLedCanvas, CLedFont, CLedMatrix, Driver};
use crate::options::{LedMatrixOptions, LedRuntimeOptions, OptionsView, RuntimeOptionsView};
use vstd::prelude::*;

verus! {

/// The driver as it stands on a host without LED hardware: it never creates
/// a matrix and never loads a font, so nothing can be drawn.
#[derive(Clone, Copy, Debug)]
pub struct HostStub;

impl HostStub {
    /// A stub driver.
    pub fn new() -> (r: HostStub)
        ensures
            r.inv(),
            r.matrix() is None,
    {
        HostStub
    }
}

impl Driver for HostStub {
    open spec fn inv(&self) -> bool {
        true
    }

    open spec fn accepts(&self, options: OptionsView, rt_options: RuntimeOptionsView) -> bool {
        false
    }

    open spec fn layout_width(&self, options: OptionsView) -> int {
        0
    }

    open spec fn layout_height(&self, options: OptionsView) -> int {
        0
    }

    open spec fn matrix(&self) -> Option<CLedMatrix> {
        None
    }

    open spec fn active(&self) -> CLedCanvas {
        CLedCanvas { id: 0 }
    }

    open spec fn surfaces(&self) -> Set<CLedCanvas> {
        Set::empty()
    }

    open spec fn width(&self) -> int {
        0
    }

    open spec fn height(&self) -> int {
        0
    }

    open spec fn pixel(&self, c: CLedCanvas, x: int, y: int) -> LedColor {
        black()
    }

    open spec fn fonts(&self) -> Set<CLedFont> {
        Set::empty()
    }

    open spec fn loads_font(&self, path: Seq<u8>) -> bool {
        false
    }

    open spec fn line_points(&self, x0: int, y0: int, x1: int, y1: int) -> Set<(int, int)> {
        Set::empty()
    }

    open spec fn circle_points(&self, x: int, y: int, radius: int) -> Set<(int, int)> {
        Set::empty()
    }

    open spec fn text_points(
        &self,
        f: CLedFont,
        x: int,
        y: int,
        text: Seq<u8>,
        kerning: int,
        vertical: bool,
    ) -> Set<(int, int)> {
        Set::empty()
    }

    open spec fn text_extent(&self, f: CLedFont, text: Seq<u8>, kerning: int, vertical: bool) -> int {
        0
    }

    fn create_matrix(
        &mut self,
        options: &LedMatrixOptions,
        rt_options: &LedRuntimeOptions,
    ) -> (r: Option<CLedMatrix>) {
        None
    }

    fn destroy_matrix(&mut self, m: CLedMatrix) {
    }

    fn get_canvas(&self, m: CLedMatrix) -> (r: CLedCanvas) {
        CLedCanvas { id: 0 }
    }

    fn create_offscreen_canvas(&mut self, m: CLedMatrix) -> (r: CLedCanvas) {
        CLedCanvas { id: 0 }
    }

    fn swap_on_vsync(&mut self, m: CLedMatrix, c: CLedCanvas) -> (r: CLedCanvas) {
        CLedCanvas { id: 0 }
    }

    fn get_canvas_size(&self, c: CLedCanvas) -> (r: (i32, i32)) {
        (0, 0)
    }

    fn set_pixel(&mut self, c: CLedCanvas, x: i32, y: i32, color: LedColor) {
    }

    fn clear_canvas(&mut self, c: CLedCanvas) {
    }

    fn fill_canvas(&mut self, c: CLedCanvas, color: LedColor) {
    }

    fn draw_line(
        &mut self,
        c: CLedCanvas,
        x0: i32,
        y0: i32,
        x1: i32,
        y1: i32,
        color: LedColor,
    ) {
    }

    fn draw_circle(&mut self, c: CLedCanvas, x: i32, y: i32, radius: i32, color: LedColor) {
    }

    fn load_font(&mut self, path: &str) -> (r: Option<CLedFont>) {
        None
    }

    fn delete_font(&mut self, f: CLedFont) {
    }

    fn draw_text(
        &mut self,
        c: CLedCanvas,
        f: CLedFont,
        x: i32,
        y: i32,
        color: LedColor,
        text: &str,
        kerning_offset: i32,
    ) -> (r: i32) {
        0
    }

    fn vertical_draw_text(
        &mut self,
        c: CLedCanvas,
        f: CLedFont,
        x: i32,
        y: i32,
        color: LedColor,
        text: &str,
        kerning_offset: i32,
    ) -> (r: i32) {
        0
    }
}

} // verus!
