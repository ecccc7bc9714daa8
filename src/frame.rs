//! The frame buffer: one brightness byte per LED, column by column.
use vstd::prelude::*;

verus! {

/// Number of columns of the panel.
pub const WIDTH: u8 = 9;

/// Number of LEDs in each column.
pub const HEIGHT: u8 = 34;

/// Number of LEDs of the panel, `WIDTH * HEIGHT`.
pub const FB_LEN: usize = 306;

/// Brightness of a fully lit LED.
pub const FULL_BRIGHTNESS: u8 = 0xff;

/// Where the LED at column `x`, row `y` lies in the buffer.
pub open spec fn pixel_index(x: int, y: int) -> int {
    x * HEIGHT as int + y
}

/// The pixels of column `x`, from row 0 up.
pub open spec fn column_of(pixels: Seq<u8>, x: int) -> Seq<u8> {
    pixels.subrange(pixel_index(x, 0), pixel_index(x + 1, 0))
}

/// Every LED of the panel lies inside the buffer, and its column ends there too.
pub proof fn lemma_pixel_index_bounds(x: int, y: int)
    requires
        0 <= x < WIDTH,
        0 <= y < HEIGHT,
    ensures
        0 <= pixel_index(x, y) < FB_LEN,
        pixel_index(x, y) == pixel_index(x, 0) + y,
        pixel_index(x + 1, 0) == pixel_index(x, 0) + HEIGHT,
        pixel_index(x + 1, 0) <= FB_LEN,
{
    assert(0 <= x * 34 + y < 306 && (x + 1) * 34 <= 306) by (nonlinear_arith)
        requires
            0 <= x < 9,
            0 <= y < 34,
    ;
}

/// A `WIDTH` by `HEIGHT` grid of brightness values, stored column-major.
pub struct FrameBuffer {
    pixels: Vec<u8>,
}

impl View for FrameBuffer {
    type V = Seq<u8>;

    closed spec fn view(&self) -> Seq<u8> {
        self.pixels@
    }
}

impl Default for FrameBuffer {
    /// A buffer with every LED off.
    fn default() -> (r: Self)
        ensures
            r@ == Seq::new(FB_LEN as nat, |i: int| 0u8),
            r.wf(),
    {
        let mut pixels: Vec<u8> = Vec::new();
        let mut i: usize = 0;
        while i < FB_LEN
            invariant
                i <= FB_LEN,
                pixels@ == Seq::new(i as nat, |k: int| 0u8),
            decreases FB_LEN - i,
        {
            pixels.push(0);
            i = i + 1;
            assert(pixels@ =~= Seq::new(i as nat, |k: int| 0u8));
        }
        FrameBuffer { pixels }
    }
}

impl FrameBuffer {
    /// The buffer holds exactly one byte per LED.
    pub open spec fn wf(&self) -> bool {
        self@.len() == FB_LEN
    }

    /// Sets the LED at column `x`, row `y` to `value`; no other LED changes.
    pub fn set_pixel(&mut self, x: u8, y: u8, value: u8)
        requires
            old(self).wf(),
            x < WIDTH,
            y < HEIGHT,
        ensures
            final(self).wf(),
            final(self)@ == old(self)@.update(pixel_index(x as int, y as int), value),
            final(self)@[pixel_index(x as int, y as int)] == value,
            forall|i: int|
                0 <= i < FB_LEN && i != pixel_index(x as int, y as int) ==> #[trigger] final(self)@[i]
                    == old(self)@[i],
    {
        proof {
            lemma_pixel_index_bounds(x as int, y as int);
        }
        let index = x as usize * HEIGHT as usize + y as usize;
        self.pixels.set(index, value);
    }

    /// The brightness of the LED at column `x`, row `y`.
    pub fn get_pixel(&self, x: u8, y: u8) -> (r: u8)
        requires
            self.wf(),
            x < WIDTH,
            y < HEIGHT,
        ensures
            r == self@[pixel_index(x as int, y as int)],
    {
        proof {
            lemma_pixel_index_bounds(x as int, y as int);
        }
        self.pixels[x as usize * HEIGHT as usize + y as usize]
    }

    /// The byte at position `index` of the column-major buffer.
    pub fn pixel_at_index(&self, index: usize) -> (r: u8)
        requires
            self.wf(),
            index < FB_LEN,
        ensures
            r == self@[index as int],
    {
        self.pixels[index]
    }

    /// A copy of column `x`, from row 0 up.
    pub fn column(&self, x: u8) -> (r: Vec<u8>)
        requires
            self.wf(),
            x < WIDTH,
        ensures
            r@ == column_of(self@, x as int),
            r@.len() == HEIGHT,
    {
        proof {
            lemma_pixel_index_bounds(x as int, 0);
        }
        let start = x as usize * HEIGHT as usize;
        let mut col: Vec<u8> = Vec::new();
        let mut y: usize = 0;
        while y < HEIGHT as usize
            invariant
                start == pixel_index(x as int, 0),
                start + HEIGHT <= FB_LEN,
                self@.len() == FB_LEN,
                y <= HEIGHT,
                col@ == self@.subrange(start as int, start + y),
            decreases HEIGHT - y,
        {
            col.push(self.pixels[start + y]);
            y = y + 1;
            assert(col@ =~= self@.subrange(start as int, start + y));
        }
        col
    }

    /// A copy of this buffer, taken so that a transmission never sees a
    /// half-updated frame.
    pub fn snapshot(&self) -> (r: FrameBuffer)
        ensures
            r@ == self@,
    {
        FrameBuffer { pixels: self.pixels.clone() }
    }

    /// Lights fully the LED that two drawn numbers point at: the column is
    /// `rx` modulo `WIDTH`, the row `ry` modulo `HEIGHT`.
    pub fn light_pixel_at(&mut self, rx: usize, ry: usize)
        requires
            old(self).wf(),
        ensures
            final(self).wf(),
            final(self)@ == old(self)@.update(
                pixel_index((rx % WIDTH as usize) as int, (ry % HEIGHT as usize) as int),
                FULL_BRIGHTNESS,
            ),
    {
        let x = (rx % WIDTH as usize) as u8;
        let y = (ry % HEIGHT as usize) as u8;
        self.set_pixel(x, y, FULL_BRIGHTNESS);
    }

    /// Lights fully one LED chosen at random.
    pub fn set_random_pixel(&mut self)
        requires
            old(self).wf(),
        ensures
            final(self).wf(),
            exists|x: int, y: int|
                0 <= x < WIDTH && 0 <= y < HEIGHT && final(self)@ == old(self)@.update(
                    #[trigger] pixel_index(x, y),
                    FULL_BRIGHTNESS,
                ),
    {
        let rx = random_usize();
        let ry = random_usize();
        self.light_pixel_at(rx, ry);
        assert(final(self)@ == old(self)@.update(
            pixel_index((rx % WIDTH as usize) as int, (ry % HEIGHT as usize) as int),
            FULL_BRIGHTNESS,
        ));
    }
}

/// Relies on rand::random: a number drawn from the thread's generator, of
/// which nothing can be promised.
#[verifier::external_body]
fn random_usize() -> usize {
    rand::random::<usize>()
}

} // verus!
