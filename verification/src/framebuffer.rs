use vstd::prelude::*;

verus! {

/// A `width` x `height` image of packed `0xRRGGBB` pixels in row-major order,
/// drawn into one point at a time with the current colour.
pub struct Framebuffer {
    pub width: usize,
    pub height: usize,
    pub buffer: Vec<u32>,
    pub current_color: u32,
}

impl Framebuffer {
    /// The buffer holds exactly one pixel per position.
    pub open spec fn wf(&self) -> bool {
        self.buffer@.len() == self.width * self.height
    }

    /// The buffer index of position `(x, y)`.
    pub open spec fn index_of(&self, x: int, y: int) -> int {
        y * self.width + x
    }

    /// A black framebuffer; the current colour starts white.
    pub fn new(width: usize, height: usize) -> (fb: Framebuffer)
        requires
            width * height <= usize::MAX,
        ensures
            fb.wf(),
            fb.width == width,
            fb.height == height,
            forall|i: int| 0 <= i < fb.buffer@.len() ==> fb.buffer@[i] == 0,
            fb.current_color == 0xFFFFFF,
    {
        let n: usize = width * height;
        let mut buffer: Vec<u32> = Vec::new();
        let mut i: usize = 0;
        while i < n
            invariant
                i <= n,
                buffer@.len() == i,
                forall|j: int| 0 <= j < i ==> buffer@[j] == 0,
            decreases n - i,
        {
            buffer.push(0);
            i = i + 1;
        }
        Framebuffer { width, height, buffer, current_color: 0xFFFFFF }
    }

    /// Sets the colour that `point` draws with.
    pub fn set_current_color(&mut self, color: u32)
        ensures
            final(self).current_color == color,
            final(self).width == old(self).width,
            final(self).height == old(self).height,
            final(self).buffer@ == old(self).buffer@,
    {
        self.current_color = color;
    }

    /// Paints position `(x, y)` with the current colour; a position outside
    /// the framebuffer leaves it unchanged.
    pub fn point(&mut self, x: usize, y: usize)
        requires
            old(self).wf(),
        ensures
            final(self).wf(),
            final(self).width == old(self).width,
            final(self).height == old(self).height,
            final(self).current_color == old(self).current_color,
            x < old(self).width && y < old(self).height ==> final(self).buffer@ == old(
                self,
            ).buffer@.update(old(self).index_of(x as int, y as int), old(self).current_color),
            x < old(self).width && y < old(self).height
                ==> final(self).buffer@[y * old(self).width + x] == old(self).current_color,
            x < old(self).width && y < old(self).height ==> forall|j: int|
                0 <= j < old(self).buffer@.len() && j != y * old(self).width + x
                    ==> #[trigger] final(self).buffer@[j] == old(self).buffer@[j],
            final(self).buffer@.len() == old(self).buffer@.len(),
            !(x < old(self).width && y < old(self).height) ==> final(self).buffer@ == old(
                self,
            ).buffer@,
    {
        if x < self.width && y < self.height {
            let w = self.width;
            let h = self.height;
            assert(self.buffer.len() == w * h);
            assert(y * w + x < w * h) by (nonlinear_arith)
                requires
                    x < w,
                    y < h,
            ;
            let index = y * w + x;
            let color = self.current_color;
            self.buffer.set(index, color);
        }
    }
}

} // verus!
