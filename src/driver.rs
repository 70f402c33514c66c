use crate::color::LedColor;
use crate::options::{LedMatrixOptions, LedRuntimeOptions, OptionsView, RuntimeOptionsView};
use crate::text::is_nul_free;
use vstd::prelude::*;
use vstd::string::StringSliceAdditionalSpecFns;

verus! {

/// The driver's handle of a matrix resource.
#[derive(Clone, Copy, Debug, PartialEq, Eq, Structural)]
pub struct CLedMatrix {
    pub id: usize,
}

/// The driver's handle of a drawable surface.
#[derive(Clone, Copy, Debug, PartialEq, Eq, Structural)]
pub struct CLedCanvas {
    pub id: usize,
}

/// The driver's handle of a loaded font.
#[derive(Clone, Copy, Debug, PartialEq, Eq, Structural)]
pub struct CLedFont {
    pub id: usize,
}

/// Black, the color of a cleared pixel.
pub open spec fn black() -> LedColor {
    LedColor { red: 0, green: 0, blue: 0 }
}

/// Whether `(x, y)` is a pixel of a `width` by `height` surface.
pub open spec fn on_surface(width: int, height: int, x: int, y: int) -> bool {
    0 <= x < width && 0 <= y < height
}

/// The entry points of a native LED-panel driver, with a model of its state:
/// the live matrix, the surface on display, the surfaces of the matrix, their
/// size, the color of each pixel, and the loaded fonts.
///
/// Out-of-range pixels are ignored by the driver; what lines, circles and
/// text paint is the driver's own business, but they paint only the surface
/// they are drawn on.
pub trait Driver: Sized {
    /// The driver's own well-formedness.
    spec fn inv(&self) -> bool;

    /// Whether the driver creates a matrix from these options.
    spec fn accepts(&self, options: OptionsView, rt_options: RuntimeOptionsView) -> bool;

    /// The width of the surfaces of a matrix made from these options.
    spec fn layout_width(&self, options: OptionsView) -> int;

    /// The height of the surfaces of a matrix made from these options.
    spec fn layout_height(&self, options: OptionsView) -> int;

    /// The live matrix, if any.
    spec fn matrix(&self) -> Option<CLedMatrix>;

    /// The surface the panel shows.
    spec fn active(&self) -> CLedCanvas;

    /// The surfaces of the live matrix.
    spec fn surfaces(&self) -> Set<CLedCanvas>;

    /// The width in pixels of every surface of the live matrix.
    spec fn width(&self) -> int;

    /// The height in pixels of every surface of the live matrix.
    spec fn height(&self) -> int;

    /// The color of pixel `(x, y)` of surface `c`.
    spec fn pixel(&self, c: CLedCanvas, x: int, y: int) -> LedColor;

    /// The loaded fonts.
    spec fn fonts(&self) -> Set<CLedFont>;

    /// Whether the driver loads a font from the file at `path`; this depends
    /// on what the file holds, which the driver alone reads.
    spec fn loads_font(&self, path: Seq<u8>) -> bool;

    /// The pixels the driver paints for a line from `(x0, y0)` to `(x1, y1)`.
    spec fn line_points(&self, x0: int, y0: int, x1: int, y1: int) -> Set<(int, int)>;

    /// The pixels the driver paints for a circle around `(x, y)`.
    spec fn circle_points(&self, x: int, y: int, radius: int) -> Set<(int, int)>;

    /// The pixels the driver paints for `text` in font `f` from `(x, y)`,
    /// left to right or, if `vertical`, top to bottom.
    spec fn text_points(
        &self,
        f: CLedFont,
        x: int,
        y: int,
        text: Seq<u8>,
        kerning: int,
        vertical: bool,
    ) -> Set<(int, int)>;

    /// The width (or, if `vertical`, the height) that `text` in font `f` takes.
    spec fn text_extent(&self, f: CLedFont, text: Seq<u8>, kerning: int, vertical: bool) -> int;

    /// Creates the matrix from the two configurations.
    fn create_matrix(
        &mut self,
        options: &LedMatrixOptions,
        rt_options: &LedRuntimeOptions,
    ) -> (r: Option<CLedMatrix>)
        requires
            old(self).inv(),
            old(self).matrix() is None,
        ensures
            final(self).inv(),
            r is Some <==> old(self).accepts(options@, rt_options@),
            final(self).matrix() == r,
            final(self).fonts() == old(self).fonts(),
            r is Some ==> final(self).surfaces() == set![final(self).active()],
            r is Some ==> final(self).width() == old(self).layout_width(options@),
            r is Some ==> final(self).height() == old(self).layout_height(options@),
    ;

    /// Releases the matrix and its surfaces.
    fn destroy_matrix(&mut self, m: CLedMatrix)
        requires
            old(self).inv(),
            old(self).matrix() == Some(m),
        ensures
            final(self).inv(),
            final(self).matrix() is None,
            final(self).surfaces() == Set::<CLedCanvas>::empty(),
            final(self).fonts() == old(self).fonts(),
    ;

    /// The surface on display.
    fn get_canvas(&self, m: CLedMatrix) -> (r: CLedCanvas)
        requires
            self.inv(),
            self.matrix() == Some(m),
        ensures
            r == self.active(),
    ;

    /// Allocates a new surface of the matrix, off the display.
    fn create_offscreen_canvas(&mut self, m: CLedMatrix) -> (r: CLedCanvas)
        requires
            old(self).inv(),
            old(self).matrix() == Some(m),
        ensures
            final(self).inv(),
            !old(self).surfaces().contains(r),
            final(self).fonts() == old(self).fonts(),
            final(self).surfaces() == old(self).surfaces().insert(r),
            final(self).matrix() == old(self).matrix(),
            final(self).active() == old(self).active(),
            final(self).width() == old(self).width(),
            final(self).height() == old(self).height(),
            forall|c2: CLedCanvas, x: int, y: int|
                c2 != r ==> #[trigger] final(self).pixel(c2, x, y) == old(self).pixel(c2, x, y),
    ;

    /// Waits for the next vertical sync, then shows `c` and hands back the
    /// surface that was shown.
    fn swap_on_vsync(&mut self, m: CLedMatrix, c: CLedCanvas) -> (r: CLedCanvas)
        requires
            old(self).inv(),
            old(self).matrix() == Some(m),
            old(self).surfaces().contains(c),
            c != old(self).active(),
        ensures
            final(self).inv(),
            r == old(self).active(),
            final(self).active() == c,
            final(self).matrix() == old(self).matrix(),
            final(self).surfaces() == old(self).surfaces(),
            final(self).width() == old(self).width(),
            final(self).height() == old(self).height(),
            final(self).fonts() == old(self).fonts(),
            forall|c2: CLedCanvas, x: int, y: int|
                #[trigger] final(self).pixel(c2, x, y) == old(self).pixel(c2, x, y),
    ;

    /// The width and height of a surface.
    fn get_canvas_size(&self, c: CLedCanvas) -> (r: (i32, i32))
        requires
            self.inv(),
            self.surfaces().contains(c),
        ensures
            r.0 == self.width(),
            r.1 == self.height(),
    ;

    /// Sets one pixel; a pixel off the surface is ignored.
    fn set_pixel(&mut self, c: CLedCanvas, x: i32, y: i32, color: LedColor)
        requires
            old(self).inv(),
            old(self).surfaces().contains(c),
        ensures
            final(self).inv(),
            final(self).matrix() == old(self).matrix(),
            final(self).active() == old(self).active(),
            final(self).width() == old(self).width(),
            final(self).height() == old(self).height(),
            final(self).surfaces() == old(self).surfaces(),
            final(self).fonts() == old(self).fonts(),
            forall|c2: CLedCanvas, x2: int, y2: int|
                #[trigger] final(self).pixel(c2, x2, y2) == if c2 == c && x2 == x && y2 == y
                    && on_surface(old(self).width(), old(self).height(), x2, y2) {
                    color
                } else {
                    old(self).pixel(c2, x2, y2)
                },
    ;

    /// Sets every pixel of a surface to black.
    fn clear_canvas(&mut self, c: CLedCanvas)
        requires
            old(self).inv(),
            old(self).surfaces().contains(c),
        ensures
            final(self).inv(),
            final(self).matrix() == old(self).matrix(),
            final(self).active() == old(self).active(),
            final(self).width() == old(self).width(),
            final(self).height() == old(self).height(),
            final(self).surfaces() == old(self).surfaces(),
            final(self).fonts() == old(self).fonts(),
            forall|c2: CLedCanvas, x: int, y: int|
                c2 != c ==> #[trigger] final(self).pixel(c2, x, y) == old(self).pixel(c2, x, y),
            forall|x: int, y: int|
                on_surface(old(self).width(), old(self).height(), x, y) ==> #[trigger] final(self).pixel(c, x, y)
                    == black(),
    ;

    /// Sets every pixel of a surface to `color`.
    fn fill_canvas(&mut self, c: CLedCanvas, color: LedColor)
        requires
            old(self).inv(),
            old(self).surfaces().contains(c),
        ensures
            final(self).inv(),
            final(self).matrix() == old(self).matrix(),
            final(self).active() == old(self).active(),
            final(self).width() == old(self).width(),
            final(self).height() == old(self).height(),
            final(self).surfaces() == old(self).surfaces(),
            final(self).fonts() == old(self).fonts(),
            forall|c2: CLedCanvas, x: int, y: int|
                c2 != c ==> #[trigger] final(self).pixel(c2, x, y) == old(self).pixel(c2, x, y),
            forall|x: int, y: int|
                on_surface(old(self).width(), old(self).height(), x, y) ==> #[trigger] final(self).pixel(c, x, y)
                    == color,
    ;

    /// Draws a one pixel wide line: the points of the line that lie on the
    /// surface get `color`.
    fn draw_line(
        &mut self,
        c: CLedCanvas,
        x0: i32,
        y0: i32,
        x1: i32,
        y1: i32,
        color: LedColor,
    )
        requires
            old(self).inv(),
            old(self).surfaces().contains(c),
        ensures
            final(self).inv(),
            final(self).matrix() == old(self).matrix(),
            final(self).active() == old(self).active(),
            final(self).width() == old(self).width(),
            final(self).height() == old(self).height(),
            final(self).surfaces() == old(self).surfaces(),
            final(self).fonts() == old(self).fonts(),
            forall|c2: CLedCanvas, x2: int, y2: int|
                #[trigger] final(self).pixel(c2, x2, y2) == if c2 == c && on_surface(
                    old(self).width(),
                    old(self).height(),
                    x2,
                    y2,
                ) && old(self).line_points(x0 as int, y0 as int, x1 as int, y1 as int).contains((x2, y2)) {
                    color
                } else {
                    old(self).pixel(c2, x2, y2)
                },
    ;

    /// Draws a one pixel wide circle: the points of the circle that lie on
    /// the surface get `color`.
    fn draw_circle(&mut self, c: CLedCanvas, x: i32, y: i32, radius: i32, color: LedColor)
        requires
            old(self).inv(),
            old(self).surfaces().contains(c),
        ensures
            final(self).inv(),
            final(self).matrix() == old(self).matrix(),
            final(self).active() == old(self).active(),
            final(self).width() == old(self).width(),
            final(self).height() == old(self).height(),
            final(self).surfaces() == old(self).surfaces(),
            final(self).fonts() == old(self).fonts(),
            forall|c2: CLedCanvas, x2: int, y2: int|
                #[trigger] final(self).pixel(c2, x2, y2) == if c2 == c && on_surface(
                    old(self).width(),
                    old(self).height(),
                    x2,
                    y2,
                ) && old(self).circle_points(x as int, y as int, radius as int).contains((x2, y2)) {
                    color
                } else {
                    old(self).pixel(c2, x2, y2)
                },
    ;

    /// Loads a bitmap font from the file at `path`.
    fn load_font(&mut self, path: &str) -> (r: Option<CLedFont>)
        requires
            old(self).inv(),
            is_nul_free(path.spec_bytes()),
        ensures
            final(self).inv(),
            final(self).surfaces() == old(self).surfaces(),
            final(self).matrix() == old(self).matrix(),
            final(self).active() == old(self).active(),
            final(self).width() == old(self).width(),
            final(self).height() == old(self).height(),
            forall|c2: CLedCanvas, x: int, y: int|
                #[trigger] final(self).pixel(c2, x, y) == old(self).pixel(c2, x, y),
            r is Some <==> old(self).loads_font(path.spec_bytes()),
            match r {
                Some(f) => !old(self).fonts().contains(f) && final(self).fonts() == old(
                    self,
                ).fonts().insert(f),
                None => final(self).fonts() == old(self).fonts(),
            },
    ;

    /// Releases a loaded font.
    fn delete_font(&mut self, f: CLedFont)
        requires
            old(self).inv(),
            old(self).fonts().contains(f),
        ensures
            final(self).inv(),
            final(self).surfaces() == old(self).surfaces(),
            final(self).matrix() == old(self).matrix(),
            final(self).active() == old(self).active(),
            final(self).width() == old(self).width(),
            final(self).height() == old(self).height(),
            forall|c2: CLedCanvas, x: int, y: int|
                #[trigger] final(self).pixel(c2, x, y) == old(self).pixel(c2, x, y),
            final(self).fonts() == old(self).fonts().remove(f),
    ;

    /// Draws `text` left to right from `(x, y)`: the points of its glyphs that
    /// lie on the surface get `color`. Returns the width the text took.
    fn draw_text(
        &mut self,
        c: CLedCanvas,
        f: CLedFont,
        x: i32,
        y: i32,
        color: LedColor,
        text: &str,
        kerning_offset: i32,
    ) -> (r: i32)
        requires
            old(self).inv(),
            old(self).surfaces().contains(c),
            old(self).fonts().contains(f),
            is_nul_free(text.spec_bytes()),
        ensures
            final(self).inv(),
            final(self).matrix() == old(self).matrix(),
            final(self).active() == old(self).active(),
            final(self).width() == old(self).width(),
            final(self).height() == old(self).height(),
            final(self).surfaces() == old(self).surfaces(),
            final(self).fonts() == old(self).fonts(),
            r == old(self).text_extent(f, text.spec_bytes(), kerning_offset as int, false),
            forall|c2: CLedCanvas, x2: int, y2: int|
                #[trigger] final(self).pixel(c2, x2, y2) == if c2 == c && on_surface(
                    old(self).width(),
                    old(self).height(),
                    x2,
                    y2,
                ) && old(self).text_points(f, x as int, y as int, text.spec_bytes(), kerning_offset as int, false).contains((x2, y2)) {
                    color
                } else {
                    old(self).pixel(c2, x2, y2)
                },
    ;

    /// Draws `text` top to bottom from `(x, y)`: the points of its glyphs that
    /// lie on the surface get `color`. Returns the height the text took.
    fn vertical_draw_text(
        &mut self,
        c: CLedCanvas,
        f: CLedFont,
        x: i32,
        y: i32,
        color: LedColor,
        text: &str,
        kerning_offset: i32,
    ) -> (r: i32)
        requires
            old(self).inv(),
            old(self).surfaces().contains(c),
            old(self).fonts().contains(f),
            is_nul_free(text.spec_bytes()),
        ensures
            final(self).inv(),
            final(self).matrix() == old(self).matrix(),
            final(self).active() == old(self).active(),
            final(self).width() == old(self).width(),
            final(self).height() == old(self).height(),
            final(self).surfaces() == old(self).surfaces(),
            final(self).fonts() == old(self).fonts(),
            r == old(self).text_extent(f, text.spec_bytes(), kerning_offset as int, true),
            forall|c2: CLedCanvas, x2: int, y2: int|
                #[trigger] final(self).pixel(c2, x2, y2) == if c2 == c && on_surface(
                    old(self).width(),
                    old(self).height(),
                    x2,
                    y2,
                ) && old(self).text_points(f, x as int, y as int, text.spec_bytes(), kerning_offset as int, true).contains((x2, y2)) {
                    color
                } else {
                    old(self).pixel(c2, x2, y2)
                },
    ;
}

/// The two driver states agree on the matrix, the surface on display, the
/// surface size and the fonts.
pub open spec fn same_display<D: Driver>(a: D, b: D) -> bool {
    &&& b.matrix() == a.matrix()
    &&& b.active() == a.active()
    &&& b.width() == a.width()
    &&& b.height() == a.height()
}

/// As `same_display`, and the surfaces and fonts are the same too.
pub open spec fn same_layout<D: Driver>(a: D, b: D) -> bool {
    &&& same_display(a, b)
    &&& b.surfaces() == a.surfaces()
    &&& b.fonts() == a.fonts()
}

/// Every pixel of every surface is the same in the two states.
pub open spec fn same_pixels<D: Driver>(a: D, b: D) -> bool {
    forall|c: CLedCanvas, x: int, y: int| #[trigger] b.pixel(c, x, y) == a.pixel(c, x, y)
}

/// Every pixel of every surface but `c` is the same in the two states.
pub open spec fn same_pixels_except<D: Driver>(a: D, b: D, c: CLedCanvas) -> bool {
    forall|c2: CLedCanvas, x: int, y: int|
        c2 != c ==> #[trigger] b.pixel(c2, x, y) == a.pixel(c2, x, y)
}

/// Every pixel of surface `c` has `color`.
pub open spec fn painted<D: Driver>(d: D, c: CLedCanvas, color: LedColor) -> bool {
    forall|x: int, y: int|
        on_surface(d.width(), d.height(), x, y) ==> #[trigger] d.pixel(c, x, y) == color
}

} // verus!
