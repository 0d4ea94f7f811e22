//! The view over a framebuffer, and the arithmetic that places a pixel in
//! it.
//!
//! The model of a framebuffer is the sequence of its bytes. `pixel_offset`
//! says where in that sequence a pixel lies, `read_pixel` and `write_pixel`
//! say what reading and writing a pixel mean, and the lemmas state what
//! follows from that: a pixel written reads back, no other pixel changes, and
//! every pixel has its own four bytes inside the buffer.

use crate::color::ColorRGBA;
use vstd::arithmetic::div_mod::lemma_small_mod;
use vstd::prelude::*;

verus! {

/// The byte offset of pixel `(x, y)` in a row-major buffer of `width` pixels
/// per row and four bytes per pixel.
pub open spec fn pixel_offset(width: int, x: int, y: int) -> int {
    (y * width + x) * 4
}

/// The four bytes of pixel `(x, y)` in `bytes`.
pub open spec fn read_pixel(bytes: Seq<u8>, width: int, x: int, y: int) -> Seq<u8> {
    bytes.subrange(pixel_offset(width, x, y), pixel_offset(width, x, y) + 4)
}

/// `bytes` with the four bytes of pixel `(x, y)` replaced by `color`; every
/// other byte stays as it is.
pub open spec fn write_pixel(bytes: Seq<u8>, width: int, x: int, y: int, color: Seq<u8>) -> Seq<
    u8,
> {
    Seq::new(
        bytes.len(),
        |i: int|
            if pixel_offset(width, x, y) <= i < pixel_offset(width, x, y) + 4 {
                color[i - pixel_offset(width, x, y)]
            } else {
                bytes[i]
            },
    )
}

/// Each pixel of a `width` by `height` grid lies wholly inside a buffer of
/// `width * height * 4` bytes, the last row and the last column included.
pub proof fn lemma_offset_in_bounds(width: int, height: int, x: int, y: int)
    requires
        0 <= x < width,
        0 <= y < height,
    ensures
        0 <= pixel_offset(width, x, y),
        pixel_offset(width, x, y) + 4 <= width * height * 4,
        0 <= y * width,
        y * width + x < width * height,
{
    assert(0 <= y * width && y * width + width <= height * width) by (nonlinear_arith)
        requires
            0 <= y,
            y + 1 <= height,
            0 <= width,
    ;
    assert(height * width == width * height) by (nonlinear_arith);
}

/// Two different pixels of a grid never share a byte.
pub proof fn lemma_offsets_apart(width: int, x1: int, y1: int, x2: int, y2: int)
    requires
        0 <= x1 < width,
        0 <= x2 < width,
        0 <= y1,
        0 <= y2,
        x1 != x2 || y1 != y2,
    ensures
        pixel_offset(width, x1, y1) + 4 <= pixel_offset(width, x2, y2) || pixel_offset(
            width,
            x2,
            y2,
        ) + 4 <= pixel_offset(width, x1, y1),
{
    if y1 < y2 {
        assert(y1 * width + width <= y2 * width) by (nonlinear_arith)
            requires
                y1 + 1 <= y2,
                0 <= width,
        ;
    } else if y2 < y1 {
        assert(y2 * width + width <= y1 * width) by (nonlinear_arith)
            requires
                y2 + 1 <= y1,
                0 <= width,
        ;
    }
}

/// Coordinates reduced modulo the size of a grid name a pixel of the grid,
/// and coordinates that name one already are left as they are.
pub proof fn lemma_wrap_in_bounds(width: int, height: int, x: int, y: int)
    requires
        0 < width,
        0 < height,
    ensures
        0 <= x % width < width,
        0 <= y % height < height,
        0 <= x < width ==> x % width == x,
        0 <= y < height ==> y % height == y,
{
    if 0 <= x < width {
        lemma_small_mod(x as nat, width as nat);
    }
    if 0 <= y < height {
        lemma_small_mod(y as nat, height as nat);
    }
}

/// Reading a pixel right after writing it gives back the color written.
pub proof fn lemma_write_then_read(
    bytes: Seq<u8>,
    width: int,
    height: int,
    x: int,
    y: int,
    color: Seq<u8>,
)
    requires
        bytes.len() == width * height * 4,
        0 <= x < width,
        0 <= y < height,
        color.len() == 4,
    ensures
        read_pixel(write_pixel(bytes, width, x, y, color), width, x, y) == color,
{
    lemma_offset_in_bounds(width, height, x, y);
    assert(read_pixel(write_pixel(bytes, width, x, y, color), width, x, y) =~= color);
}

/// Writing one pixel leaves the color read at every other pixel as it was.
pub proof fn lemma_write_keeps_others(
    bytes: Seq<u8>,
    width: int,
    height: int,
    x1: int,
    y1: int,
    x2: int,
    y2: int,
    color: Seq<u8>,
)
    requires
        bytes.len() == width * height * 4,
        0 <= x1 < width,
        0 <= y1 < height,
        0 <= x2 < width,
        0 <= y2 < height,
        x1 != x2 || y1 != y2,
    ensures
        read_pixel(write_pixel(bytes, width, x1, y1, color), width, x2, y2) == read_pixel(
            bytes,
            width,
            x2,
            y2,
        ),
{
    lemma_offset_in_bounds(width, height, x1, y1);
    lemma_offset_in_bounds(width, height, x2, y2);
    lemma_offsets_apart(width, x1, y1, x2, y2);
    assert(read_pixel(write_pixel(bytes, width, x1, y1, color), width, x2, y2) =~= read_pixel(
        bytes,
        width,
        x2,
        y2,
    ));
}

/// A buffer of `len` bytes in which every pixel is `color`.
pub open spec fn filled(len: nat, color: Seq<u8>) -> Seq<u8> {
    Seq::new(len, |i: int| color[i % 4])
}

/// Every pixel of a filled grid reads as the fill color, the four corners
/// included.
pub proof fn lemma_filled_reads_color(width: int, height: int, x: int, y: int, color: Seq<u8>)
    requires
        0 <= x < width,
        0 <= y < height,
        color.len() == 4,
    ensures
        read_pixel(filled((width * height * 4) as nat, color), width, x, y) == color,
{
    lemma_offset_in_bounds(width, height, x, y);
    assert(read_pixel(filled((width * height * 4) as nat, color), width, x, y) =~= color);
}

/// Once a view is done with, the buffer holds what the view held last. A
/// caller that drops a view, rather than ending it with `into_inner`, learns
/// what is in its buffer from this lemma; `broadcast use` brings it in.
pub broadcast proof fn lemma_released<'a>(window: PixelWindow<'a>)
    ensures
        #[trigger] has_resolved(window) ==> final(window.buffer())@ == window@,
{
}

/// A view over a borrowed RGBA framebuffer of `width` by `height` pixels.
///
/// The view holds the buffer for its whole life and hands it back in
/// `into_inner`, or when it is dropped. Its bytes are the pixels row after
/// row, four bytes each, so the buffer is `width * height * 4` bytes long.
pub struct PixelWindow<'a> {
    width: u32,
    height: u32,
    raw_buffer: &'a mut [u8],
}

impl<'a> View for PixelWindow<'a> {
    type V = Seq<u8>;

    /// The bytes that the buffer holds now.
    open spec fn view(&self) -> Seq<u8> {
        self.buffer()@
    }
}

impl<'a> PixelWindow<'a> {
    #[verifier::type_invariant]
    spec fn inv(&self) -> bool {
        self.wf()
    }

    /// The borrow that the view holds: `w.buffer()@` is what the buffer
    /// holds now, and `final(w.buffer())@` what it holds once the borrow has
    /// ended. No operation of the view trades the borrow for another.
    pub closed spec fn buffer(&self) -> &'a mut [u8] {
        self.raw_buffer
    }

    pub closed spec fn spec_width(&self) -> u32 {
        self.width
    }

    pub closed spec fn spec_height(&self) -> u32 {
        self.height
    }

    /// The buffer is exactly as long as the grid needs. This holds of every
    /// view at all times.
    pub open spec fn wf(&self) -> bool {
        self@.len() == self.spec_width() * self.spec_height() * 4
    }

    /// Whether `(x, y)` names a pixel of the grid.
    pub open spec fn in_bounds(&self, x: int, y: int) -> bool {
        0 <= x < self.spec_width() && 0 <= y < self.spec_height()
    }

    /// The four bytes of pixel `(x, y)`.
    pub open spec fn pixel(&self, x: int, y: int) -> Seq<u8> {
        read_pixel(self@, self.spec_width() as int, x, y)
    }

    /// Wraps `raw_buffer` in a view of `width` by `height` pixels. The buffer
    /// stays with the caller and is lent for as long as the view lives.
    pub fn new(width: u32, height: u32, raw_buffer: &'a mut [u8]) -> (window: Self)
        requires
            old(raw_buffer)@.len() == width * height * 4,
        ensures
            window.wf(),
            window.spec_width() == width,
            window.spec_height() == height,
            window@ == old(raw_buffer)@,
            final(window.buffer())@ == final(raw_buffer)@,
    {
        PixelWindow { width, height, raw_buffer }
    }

    /// Wraps `raw_buffer` like `new` if it is exactly `width * height * 4`
    /// bytes long, and otherwise gives the borrow back untouched.
    pub fn try_new(width: u32, height: u32, raw_buffer: &'a mut [u8]) -> (window: Option<Self>)
        ensures
            window is Some <==> old(raw_buffer)@.len() == width * height * 4,
            window matches Some(w) ==> {
                &&& w.wf()
                &&& w.spec_width() == width
                &&& w.spec_height() == height
                &&& w@ == old(raw_buffer)@
                &&& final(w.buffer())@ == final(raw_buffer)@
            },
            window is None ==> final(raw_buffer)@ == old(raw_buffer)@,
    {
        assert(width * height <= 0xffff_ffff * 0xffff_ffff) by (nonlinear_arith)
            requires
                0 <= width <= 0xffff_ffff,
                0 <= height <= 0xffff_ffff,
        ;
        let needed = width as u128 * height as u128 * 4;
        if raw_buffer.len() as u128 == needed {
            Some(Self::new(width, height, raw_buffer))
        } else {
            None
        }
    }

    /// The width of the view in pixels.
    #[verifier::when_used_as_spec(spec_width)]
    pub fn width(&self) -> (width: u32)
        ensures
            width == self.spec_width(),
    {
        self.width
    }

    /// The height of the view in pixels.
    #[verifier::when_used_as_spec(spec_height)]
    pub fn height(&self) -> (height: u32)
        ensures
            height == self.spec_height(),
    {
        self.height
    }

    fn xy_to_index(&self, x: u32, y: u32) -> (index: usize)
        requires
            self.in_bounds(x as int, y as int),
        ensures
            index == pixel_offset(self.spec_width() as int, x as int, y as int),
            index + 4 <= self@.len(),
    {
        proof {
            use_type_invariant(self);
            assert(self.raw_buffer@.len() == self.raw_buffer.len());
            lemma_offset_in_bounds(self.width as int, self.height as int, x as int, y as int);
        }
        (y as usize * self.width as usize + x as usize) * 4
    }

    /// The color of pixel `(x, y)`, copied out of the buffer.
    pub fn get_pixel_unchecked(&self, x: u32, y: u32) -> (color: ColorRGBA)
        requires
            self.in_bounds(x as int, y as int),
        ensures
            color@ == self.pixel(x as int, y as int),
    {
        let index = self.xy_to_index(x, y);
        let color = [
            self.raw_buffer[index],
            self.raw_buffer[index + 1],
            self.raw_buffer[index + 2],
            self.raw_buffer[index + 3],
        ];
        assert(color@ =~= self.pixel(x as int, y as int));
        color
    }

    fn write_to_buffer(&mut self, start: usize, bytes: &[u8])
        requires
            start + bytes@.len() <= old(self)@.len(),
        ensures
            final(self)@ == Seq::new(
                old(self)@.len(),
                |i: int|
                    if start <= i < start + bytes@.len() {
                        bytes@[i - start]
                    } else {
                        old(self)@[i]
                    },
            ),
            final(self).spec_width() == old(self).spec_width(),
            final(self).spec_height() == old(self).spec_height(),
            final(final(self).buffer())@ == final(old(self).buffer())@,
    {
        let mut i: usize = 0;
        while i < bytes.len()
            invariant
                i <= bytes@.len(),
                start + bytes@.len() <= old(self)@.len(),
                self@.len() == old(self)@.len(),
                forall|j: int| 0 <= j < self@.len() ==> self@[j] == if start <= j < start + i {
                    bytes@[j - start]
                } else {
                    old(self)@[j]
                },
                self.spec_width() == old(self).spec_width(),
                self.spec_height() == old(self).spec_height(),
                final(self.buffer())@ == final(old(self).buffer())@,
            decreases bytes@.len() - i,
        {
            proof {
                use_type_invariant(&*self);
                assert(self.raw_buffer@.len() == self.raw_buffer.len());
            }
            self.raw_buffer[start + i] = bytes[i];
            i += 1;
        }
    }

    /// Sets pixel `(x, y)` to `color`. No other byte of the buffer changes.
    pub fn set_pixel_unchecked(&mut self, x: u32, y: u32, color: ColorRGBA)
        requires
            old(self).in_bounds(x as int, y as int),
        ensures
            final(self)@ == write_pixel(
                old(self)@,
                old(self).spec_width() as int,
                x as int,
                y as int,
                color@,
            ),
            final(self).pixel(x as int, y as int) == color@,
            forall|x2: int, y2: int|
                old(self).in_bounds(x2, y2) && (x2 != x || y2 != y) ==> #[trigger] final(self).pixel(
                    x2,
                    y2,
                ) == old(self).pixel(x2, y2),
            final(self).wf(),
            final(self).spec_width() == old(self).spec_width(),
            final(self).spec_height() == old(self).spec_height(),
            final(final(self).buffer())@ == final(old(self).buffer())@,
    {
        let index = self.xy_to_index(x, y);
        self.write_to_buffer(index, &color);
        proof {
            use_type_invariant(&*self);
            let width = self.width as int;
            let height = self.height as int;
            lemma_write_then_read(old(self)@, width, height, x as int, y as int, color@);
            assert forall|x2: int, y2: int|
                old(self).in_bounds(x2, y2) && (x2 != x || y2 != y) implies #[trigger] self.pixel(
                x2,
                y2,
            ) == old(self).pixel(x2, y2) by {
                lemma_write_keeps_others(
                    old(self)@,
                    width,
                    height,
                    x as int,
                    y as int,
                    x2,
                    y2,
                    color@,
                );
            }
        }
    }

    /// Sets the pixel that `(x, y)` wraps to: `x` is reduced modulo the
    /// width and `y` modulo the height, so coordinates outside the grid come
    /// back in on the other side. The effect is that of
    /// `set_pixel_unchecked(x % width, y % height, color)`.
    pub fn set_pixel(&mut self, x: u32, y: u32, color: ColorRGBA)
        requires
            old(self).spec_width() > 0,
            old(self).spec_height() > 0,
        ensures
            final(self)@ == write_pixel(
                old(self)@,
                old(self).spec_width() as int,
                x as int % old(self).spec_width() as int,
                y as int % old(self).spec_height() as int,
                color@,
            ),
            final(self).pixel(
                x as int % old(self).spec_width() as int,
                y as int % old(self).spec_height() as int,
            ) == color@,
            final(self).wf(),
            final(self).spec_width() == old(self).spec_width(),
            final(self).spec_height() == old(self).spec_height(),
            final(final(self).buffer())@ == final(old(self).buffer())@,
    {
        let x = x % self.width;
        let y = y % self.height;
        self.set_pixel_unchecked(x, y, color)
    }

    /// The color of the pixel that `(x, y)` wraps to, copied out of the
    /// buffer: that of `get_pixel_unchecked(x % width, y % height)`.
    pub fn get_pixel(&self, x: u32, y: u32) -> (color: ColorRGBA)
        requires
            self.spec_width() > 0,
            self.spec_height() > 0,
        ensures
            color@ == self.pixel(
                x as int % self.spec_width() as int,
                y as int % self.spec_height() as int,
            ),
    {
        let x = x % self.width;
        let y = y % self.height;
        self.get_pixel_unchecked(x, y)
    }

    /// Sets every pixel of the view to `color`.
    pub fn clear(&mut self, color: ColorRGBA)
        ensures
            final(self)@ == filled(old(self)@.len(), color@),
            forall|x: int, y: int|
                old(self).in_bounds(x, y) ==> #[trigger] final(self).pixel(x, y) == color@,
            final(self).wf(),
            final(self).spec_width() == old(self).spec_width(),
            final(self).spec_height() == old(self).spec_height(),
            final(final(self).buffer())@ == final(old(self).buffer())@,
    {
        proof {
            use_type_invariant(&*self);
        }
        let pixels = self.raw_buffer.len() / 4;
        let mut done: usize = 0;
        while done < pixels
            invariant
                done <= pixels,
                pixels * 4 == old(self)@.len() <= usize::MAX,
                self@.len() == old(self)@.len(),
                forall|j: int| 0 <= j < done * 4 ==> self@[j] == color@[j % 4],
                self.spec_width() == old(self).spec_width(),
                self.spec_height() == old(self).spec_height(),
                final(self.buffer())@ == final(old(self).buffer())@,
            decreases pixels - done,
        {
            self.write_to_buffer(done * 4, &color);
            done += 1;
        }
        proof {
            use_type_invariant(&*self);
            let width = self.width as int;
            let height = self.height as int;
            assert(self@ =~= filled(old(self)@.len(), color@));
            assert forall|x: int, y: int| old(self).in_bounds(x, y) implies #[trigger] self.pixel(
                x,
                y,
            ) == color@ by {
                lemma_filled_reads_color(width, height, x, y, color@);
            }
        }
    }

    /// Ends the view and hands back the buffer it was made over, holding
    /// what was drawn.
    pub fn into_inner(self) -> (buffer: &'a mut [u8])
        ensures
            buffer@ == self@,
            final(buffer)@ == final(self.buffer())@,
    {
        let PixelWindow { raw_buffer, .. } = self;
        raw_buffer
    }
}

} // verus!
