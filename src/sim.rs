use crate::color::LedColor;
use crate::driver::{black, on_surface, CLedCanvas, CLedFont, CLedMatrix, Driver};
use crate::options::{
    default_options, default_runtime_options, LedMatrixOptions, LedRuntimeOptions, OptionsView,
    RuntimeOptionsView,
};
use vstd::prelude::*;

verus! {

/// The largest number of pixels of one simulated surface.
pub const SIM_MAX_PIXELS: u64 = 1048576;

/// The width of the panel that the options describe: columns times chain length.
pub open spec fn panel_width(options: OptionsView) -> int {
    options.cols * options.chain_length
}

/// The height of the panel that the options describe: rows times parallel chains.
pub open spec fn panel_height(options: OptionsView) -> int {
    options.rows * options.parallel
}

/// Where pixel `(x, y)` lies in the row-major storage of a surface `width` wide.
pub open spec fn pixel_index(width: int, x: int, y: int) -> int {
    y * width + x
}

proof fn lemma_index_in_bounds(width: int, height: int, x: int, y: int)
    requires
        on_surface(width, height, x, y),
    ensures
        0 <= pixel_index(width, x, y) < width * height,
{
    assert(0 <= y * width + x < width * height) by (nonlinear_arith)
        requires
            0 <= x < width,
            0 <= y < height,
    ;
}

proof fn lemma_index_injective(width: int, x1: int, y1: int, x2: int, y2: int)
    requires
        0 <= x1 < width,
        0 <= x2 < width,
        0 <= y1,
        0 <= y2,
        pixel_index(width, x1, y1) == pixel_index(width, x2, y2),
    ensures
        x1 == x2,
        y1 == y2,
{
    if y1 < y2 {
        assert(y2 * width >= (y1 + 1) * width) by (nonlinear_arith)
            requires
                y2 >= y1 + 1,
                width >= 0,
        ;
        assert((y1 + 1) * width == y1 * width + width) by (nonlinear_arith);
    } else if y2 < y1 {
        assert(y1 * width >= (y2 + 1) * width) by (nonlinear_arith)
            requires
                y1 >= y2 + 1,
                width >= 0,
        ;
        assert((y2 + 1) * width == y2 * width + width) by (nonlinear_arith);
    }
}

/// The simulated panel accepts the default configuration, and its surfaces
/// are then 32 pixels wide and 32 high: a default matrix is 32 by 32.
pub proof fn lemma_default_panel(d: SimulatedPanel)
    ensures
        d.accepts(default_options(), default_runtime_options()),
        d.layout_width(default_options()) == 32,
        d.layout_height(default_options()) == 32,
{
    assert(panel_width(default_options()) == 32);
    assert(panel_height(default_options()) == 32);
}

/// An in-memory panel that stands in for the native driver: it keeps every
/// surface as a grid of colors that can be read back. It does not rasterise
/// lines, circles or glyphs, and it loads no font files: every path is
/// accepted as a font.
pub struct SimulatedPanel {
    live: bool,
    width: usize,
    height: usize,
    active: usize,
    surfaces: Vec<Vec<LedColor>>,
    fonts: Vec<bool>,
}

/// A surface of `n` black pixels.
fn blank_surface(n: usize) -> (s: Vec<LedColor>)
    ensures
        s@.len() == n,
        forall|i: int| 0 <= i < n ==> #[trigger] s@[i] == black(),
{
    let mut s: Vec<LedColor> = Vec::new();
    let mut i: usize = 0;
    while i < n
        invariant
            i <= n,
            s@.len() == i,
            forall|j: int| 0 <= j < i ==> #[trigger] s@[j] == black(),
        decreases n - i,
    {
        s.push(LedColor { red: 0, green: 0, blue: 0 });
        i = i + 1;
    }
    s
}

impl SimulatedPanel {
    /// A simulated panel with no matrix and no fonts.
    pub fn new() -> (r: SimulatedPanel)
        ensures
            r.inv(),
            r.matrix() is None,
            r.fonts() == Set::<CLedFont>::empty(),
    {
        let r = SimulatedPanel {
            live: false,
            width: 0,
            height: 0,
            active: 0,
            surfaces: Vec::new(),
            fonts: Vec::new(),
        };
        proof {
            assert(r.fonts() =~= Set::<CLedFont>::empty());
        }
        r
    }

    /// Reads back pixel `(x, y)` of surface `c`; `None` if there is no such pixel.
    pub fn pixel_at(&self, c: CLedCanvas, x: i32, y: i32) -> (r: Option<LedColor>)
        requires
            self.inv(),
        ensures
            r == if self.surfaces().contains(c) && on_surface(
                self.width(),
                self.height(),
                x as int,
                y as int,
            ) {
                Some(self.pixel(c, x as int, y as int))
            } else {
                None
            },
    {
        if c.id < self.surfaces.len() && 0 <= x && 0 <= y && (x as usize) < self.width && (y
            as usize) < self.height {
            proof {
                lemma_index_in_bounds(self.width as int, self.height as int, x as int, y as int);
            }
            let i = (y as usize) * self.width + (x as usize);
            Some(self.surfaces[c.id][i])
        } else {
            None
        }
    }

    /// Sets every pixel of surface `k` to `color`.
    fn paint(&mut self, k: usize, color: LedColor)
        requires
            old(self).inv(),
            k < old(self).surfaces@.len(),
        ensures
            final(self).inv(),
            final(self).live == old(self).live,
            final(self).width == old(self).width,
            final(self).height == old(self).height,
            final(self).active == old(self).active,
            final(self).fonts == old(self).fonts,
            final(self).surfaces@.len() == old(self).surfaces@.len(),
            forall|j: int|
                0 <= j < old(self).surfaces@.len() && j != k ==> #[trigger] final(self).surfaces@[j]
                    == old(self).surfaces@[j],
            forall|i: int|
                0 <= i < final(self).surfaces@[k as int]@.len()
                    ==> #[trigger] final(self).surfaces@[k as int]@[i] == color,
    {
        let n = self.surfaces[k].len();
        let mut i: usize = 0;
        while i < n
            invariant
                self.inv(),
                self.live == old(self).live,
                self.width == old(self).width,
                self.height == old(self).height,
                self.active == old(self).active,
                self.fonts == old(self).fonts,
                self.surfaces@.len() == old(self).surfaces@.len(),
                k < self.surfaces@.len(),
                n == self.surfaces@[k as int]@.len(),
                i <= n,
                forall|j: int|
                    0 <= j < old(self).surfaces@.len() && j != k ==> #[trigger] self.surfaces@[j]
                        == old(self).surfaces@[j],
                forall|j: int| 0 <= j < i ==> #[trigger] self.surfaces@[k as int]@[j] == color,
            decreases n - i,
        {
            self.surfaces[k][i] = color;
            i = i + 1;
        }
    }
}

impl Driver for SimulatedPanel {
    closed spec fn inv(&self) -> bool {
        &&& self.live ==> {
            &&& self.active < self.surfaces@.len()
            &&& 1 <= self.width <= SIM_MAX_PIXELS
            &&& 1 <= self.height <= SIM_MAX_PIXELS
            &&& self.width * self.height <= SIM_MAX_PIXELS
        }
        &&& !self.live ==> self.surfaces@.len() == 0
        &&& forall|k: int|
            0 <= k < self.surfaces@.len() ==> #[trigger] self.surfaces@[k]@.len() == self.width
                * self.height
    }

    open spec fn accepts(&self, options: OptionsView, rt_options: RuntimeOptionsView) -> bool {
        &&& 1 <= panel_width(options)
        &&& 1 <= panel_height(options)
        &&& panel_width(options) * panel_height(options) <= SIM_MAX_PIXELS
    }

    open spec fn layout_width(&self, options: OptionsView) -> int {
        panel_width(options)
    }

    open spec fn layout_height(&self, options: OptionsView) -> int {
        panel_height(options)
    }

    closed spec fn matrix(&self) -> Option<CLedMatrix> {
        if self.live {
            Some(CLedMatrix { id: 0 })
        } else {
            None
        }
    }

    closed spec fn active(&self) -> CLedCanvas {
        CLedCanvas { id: self.active }
    }

    closed spec fn surfaces(&self) -> Set<CLedCanvas> {
        Set::new(|c: CLedCanvas| (c.id as int) < self.surfaces@.len())
    }

    closed spec fn width(&self) -> int {
        self.width as int
    }

    closed spec fn height(&self) -> int {
        self.height as int
    }

    closed spec fn pixel(&self, c: CLedCanvas, x: int, y: int) -> LedColor {
        if (c.id as int) < self.surfaces@.len() && on_surface(
            self.width as int,
            self.height as int,
            x,
            y,
        ) {
            self.surfaces@[c.id as int]@[pixel_index(self.width as int, x, y)]
        } else {
            black()
        }
    }

    closed spec fn fonts(&self) -> Set<CLedFont> {
        Set::new(|f: CLedFont| (f.id as int) < self.fonts@.len() && self.fonts@[f.id as int])
    }

    open spec fn loads_font(&self, path: Seq<u8>) -> bool {
        true
    }

    open spec fn line_points(&self, x0: int, y0: int, x1: int, y1: int) -> Set<(int, int)> {
        Set::empty()
    }

    open spec fn circle_points(&self, x: int, y: int, radius: int) -> Set<(int, int)> {
        Set::empty()
    }

    open spec fn text_points(
        &self,
        f: CLedFont,
        x: int,
        y: int,
        text: Seq<u8>,
        kerning: int,
        vertical: bool,
    ) -> Set<(int, int)> {
        Set::empty()
    }

    open spec fn text_extent(&self, f: CLedFont, text: Seq<u8>, kerning: int, vertical: bool) -> int {
        0
    }

    fn create_matrix(
        &mut self,
        options: &LedMatrixOptions,
        rt_options: &LedRuntimeOptions,
    ) -> (r: Option<CLedMatrix>) {
        let cols = options.cols() as u64;
        let chain = options.chain_length() as u64;
        let rows = options.rows() as u64;
        let parallel = options.parallel() as u64;
        assert(cols * chain <= 0xffff_ffff * 0xffff_ffff) by (nonlinear_arith)
            requires
                cols <= 0xffff_ffff,
                chain <= 0xffff_ffff,
        ;
        assert(rows * parallel <= 0xffff_ffff * 0xffff_ffff) by (nonlinear_arith)
            requires
                rows <= 0xffff_ffff,
                parallel <= 0xffff_ffff,
        ;
        let w: u64 = cols * chain;
        let h: u64 = rows * parallel;
        if w == 0 || h == 0 || w > SIM_MAX_PIXELS || h > SIM_MAX_PIXELS {
            proof {
                if w > SIM_MAX_PIXELS && h >= 1 {
                    assert(w * h >= w) by (nonlinear_arith)
                        requires
                            h >= 1,
                    ;
                }
                if h > SIM_MAX_PIXELS && w >= 1 {
                    assert(w * h >= h) by (nonlinear_arith)
                        requires
                            w >= 1,
                    ;
                }
            }
            return None;
        }
        assert(w * h <= SIM_MAX_PIXELS * SIM_MAX_PIXELS) by (nonlinear_arith)
            requires
                w <= SIM_MAX_PIXELS,
                h <= SIM_MAX_PIXELS,
        ;
        if w * h > SIM_MAX_PIXELS {
            return None;
        }
        let n = (w * h) as usize;
        let s = blank_surface(n);
        let mut surfaces: Vec<Vec<LedColor>> = Vec::new();
        surfaces.push(s);
        self.live = true;
        self.width = w as usize;
        self.height = h as usize;
        self.active = 0;
        self.surfaces = surfaces;
        proof {
            assert(self.surfaces() =~= set![self.active()]);
        }
        Some(CLedMatrix { id: 0 })
    }

    fn destroy_matrix(&mut self, m: CLedMatrix) {
        self.live = false;
        self.surfaces = Vec::new();
        proof {
            assert(self.surfaces() =~= Set::<CLedCanvas>::empty());
        }
    }

    fn get_canvas(&self, m: CLedMatrix) -> (r: CLedCanvas) {
        CLedCanvas { id: self.active }
    }

    fn create_offscreen_canvas(&mut self, m: CLedMatrix) -> (r: CLedCanvas) {
        let ghost pre = *self;
        let id = self.surfaces.len();
        let s = blank_surface(self.width * self.height);
        self.surfaces.push(s);
        let r = CLedCanvas { id };
        proof {
            assert(self.surfaces() =~= pre.surfaces().insert(r));
            assert forall|c2: CLedCanvas, x: int, y: int| c2 != r implies #[trigger] self.pixel(
                c2,
                x,
                y,
            ) == pre.pixel(c2, x, y) by {
                if (c2.id as int) < pre.surfaces@.len() {
                    assert(self.surfaces@[c2.id as int] == pre.surfaces@[c2.id as int]);
                }
            }
        }
        r
    }

    fn swap_on_vsync(&mut self, m: CLedMatrix, c: CLedCanvas) -> (r: CLedCanvas) {
        let r = CLedCanvas { id: self.active };
        self.active = c.id;
        r
    }

    fn get_canvas_size(&self, c: CLedCanvas) -> (r: (i32, i32)) {
        (self.width as i32, self.height as i32)
    }

    fn set_pixel(&mut self, c: CLedCanvas, x: i32, y: i32, color: LedColor) {
        let ghost pre = *self;
        if 0 <= x && 0 <= y && (x as usize) < self.width && (y as usize) < self.height {
            proof {
                lemma_index_in_bounds(self.width as int, self.height as int, x as int, y as int);
            }
            let i = (y as usize) * self.width + (x as usize);
            self.surfaces[c.id][i] = color;
            proof {
                assert forall|c2: CLedCanvas, x2: int, y2: int|
                    #[trigger] self.pixel(c2, x2, y2) == if c2 == c && x2 == x && y2 == y
                        && on_surface(pre.width(), pre.height(), x2, y2) {
                        color
                    } else {
                        pre.pixel(c2, x2, y2)
                    } by {
                    if (c2.id as int) < pre.surfaces@.len() && on_surface(
                        pre.width(),
                        pre.height(),
                        x2,
                        y2,
                    ) {
                        lemma_index_in_bounds(self.width as int, self.height as int, x2, y2);
                        if c2.id == c.id && (x2 != x || y2 != y) {
                            if pixel_index(self.width as int, x2, y2) == i {
                                lemma_index_injective(self.width as int, x2, y2, x as int, y as int);
                            }
                        }
                    }
                }
            }
        }
    }

    fn clear_canvas(&mut self, c: CLedCanvas) {
        let ghost pre = *self;
        self.paint(c.id, LedColor { red: 0, green: 0, blue: 0 });
        proof {
            assert forall|x: int, y: int|
                on_surface(pre.width(), pre.height(), x, y) implies #[trigger] self.pixel(c, x, y)
                == black() by {
                lemma_index_in_bounds(self.width as int, self.height as int, x, y);
            }
        }
    }

    fn fill_canvas(&mut self, c: CLedCanvas, color: LedColor) {
        let ghost pre = *self;
        self.paint(c.id, color);
        proof {
            assert forall|x: int, y: int|
                on_surface(pre.width(), pre.height(), x, y) implies #[trigger] self.pixel(c, x, y)
                == color by {
                lemma_index_in_bounds(self.width as int, self.height as int, x, y);
            }
        }
    }

    fn draw_line(
        &mut self,
        c: CLedCanvas,
        x0: i32,
        y0: i32,
        x1: i32,
        y1: i32,
        color: LedColor,
    ) {
    }

    fn draw_circle(&mut self, c: CLedCanvas, x: i32, y: i32, radius: i32, color: LedColor) {
    }

    fn load_font(&mut self, path: &str) -> (r: Option<CLedFont>) {
        let ghost pre = *self;
        let f = CLedFont { id: self.fonts.len() };
        self.fonts.push(true);
        proof {
            assert(self.fonts() =~= pre.fonts().insert(f));
        }
        Some(f)
    }

    fn delete_font(&mut self, f: CLedFont) {
        let ghost pre = *self;
        self.fonts[f.id] = false;
        proof {
            assert(self.fonts() =~= pre.fonts().remove(f));
        }
    }

    fn draw_text(
        &mut self,
        c: CLedCanvas,
        f: CLedFont,
        x: i32,
        y: i32,
        color: LedColor,
        text: &str,
        kerning_offset: i32,
    ) -> (r: i32) {
        0
    }

    fn vertical_draw_text(
        &mut self,
        c: CLedCanvas,
        f: CLedFont,
        x: i32,
        y: i32,
        color: LedColor,
        text: &str,
        kerning_offset: i32,
    ) -> (r: i32) {
        0
    }
}

} // verus!
