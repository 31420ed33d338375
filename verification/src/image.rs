//! The image handle, and writes into the pixels of an image.
//!
//! The pixels lie in the toolkit's memory: line after line, each line
//! `size_line` bytes long, each pixel `bits_per_pixel` bits wide. The handle
//! knows where they start and says where a byte goes; the store itself is
//! for whoever holds that memory.

use crate::binding;
use crate::binding::{data_failure, handle_or, image_failure};
use crate::error::{ErrorModel, MlxError};
use vstd::prelude::*;

verus! {

/// The order of the bytes of a pixel in memory.
#[derive(Clone, Copy, Debug, PartialEq, Eq, Structural)]
pub enum Endian {
    /// Least significant byte first.
    Little,
    /// Most significant byte first.
    Big,
}

/// The byte order that the toolkit's flag stands for: 1 is big-endian, every
/// other value little-endian.
pub open spec fn endian_of(flag: i32) -> Endian {
    if flag == 1 {
        Endian::Big
    } else {
        Endian::Little
    }
}

/// One byte to store at an address in the toolkit's memory.
#[derive(Clone, Copy, Debug, PartialEq, Eq, Structural)]
pub struct ByteWrite {
    pub address: usize,
    pub value: u8,
}

/// An image of the display, with what the toolkit said of its pixels when
/// the image was made.
#[derive(Clone, Copy, Debug)]
pub struct MlxImage {
    img_ptr: usize,
    /// Width in pixels.
    pub width: i32,
    /// Height in pixels.
    pub height: i32,
    area_start: usize,
    /// The number of bits that one pixel takes.
    pub bits_per_pixel: i32,
    /// The number of bytes that one line of the image takes in memory.
    pub size_line: i32,
    /// The byte order of a pixel.
    pub endian: Endian,
}

/// An image handle as a plain value.
pub struct ImageModel {
    pub img_ptr: usize,
    pub width: i32,
    pub height: i32,
    pub area_start: usize,
    pub bits_per_pixel: i32,
    pub size_line: i32,
    pub endian: Endian,
}

impl View for MlxImage {
    type V = ImageModel;

    closed spec fn view(&self) -> ImageModel {
        ImageModel {
            img_ptr: self.img_ptr,
            width: self.width,
            height: self.height,
            area_start: self.area_start,
            bits_per_pixel: self.bits_per_pixel,
            size_line: self.size_line,
            endian: self.endian,
        }
    }
}

/// How an image handle comes about: a null address for the pixels is a
/// failure; any other gives the handle that keeps what it was made from,
/// with the byte order read from the toolkit's flag.
pub open spec fn image_outcome(
    img_ptr: usize,
    width: i32,
    height: i32,
    area: usize,
    bits_per_pixel: i32,
    size_line: i32,
    endian: i32,
) -> Result<ImageModel, ErrorModel> {
    if area == 0 {
        Err(data_failure())
    } else {
        Ok(
            ImageModel {
                img_ptr,
                width,
                height,
                area_start: area,
                bits_per_pixel,
                size_line,
                endian: endian_of(endian),
            },
        )
    }
}

/// A result of making an image, as plain values.
pub open spec fn image_result(r: Result<MlxImage, MlxError>) -> Result<ImageModel, ErrorModel> {
    match r {
        Ok(image) => Ok(image@),
        Err(e) => Err(e@),
    }
}

/// An address computed the way the machine computes it: what leaves the
/// range of addresses at one end comes back in at the other.
pub open spec fn wrapped(address: int) -> int {
    if address < 0 {
        address + usize::MAX + 1
    } else if address > usize::MAX {
        address - usize::MAX - 1
    } else {
        address
    }
}

/// One byte of a colour: place 0 is the least significant.
pub open spec fn byte_of(color: u32, place: int) -> u8 {
    if place == 0 {
        (color % 256) as u8
    } else if place == 1 {
        (color / 256 % 256) as u8
    } else if place == 2 {
        (color / 65536 % 256) as u8
    } else {
        (color / 16777216 % 256) as u8
    }
}

impl ImageModel {
    /// The store that writes `value` at `offset` bytes from the start of the
    /// pixels.
    pub open spec fn write_to(self, offset: i32, value: u8) -> ByteWrite {
        ByteWrite { address: wrapped(self.area_start + offset) as usize, value }
    }

    /// The number of bytes that the pixels take.
    pub open spec fn area_len(self) -> int {
        self.height * self.size_line
    }

    /// The number of bytes that one pixel takes.
    pub open spec fn pixel_bytes(self) -> int {
        self.bits_per_pixel as int / 8
    }

    /// Whether the pixel in column `x` of line `y` is one that can be
    /// written: it lies in the image, a pixel is one to four whole bytes, the
    /// pixel's bytes lie in its line, and the lines lie in memory.
    pub open spec fn holds_pixel(self, x: i32, y: i32) -> bool {
        &&& 0 <= x < self.width
        &&& 0 <= y < self.height
        &&& (self.bits_per_pixel == 8 || self.bits_per_pixel == 16 || self.bits_per_pixel == 24
            || self.bits_per_pixel == 32)
        &&& (x + 1) * self.pixel_bytes() <= self.size_line
        &&& self.area_start + self.area_len() <= usize::MAX
    }

    /// Where the pixel in column `x` of line `y` starts, in bytes from the
    /// start of the pixels.
    pub open spec fn pixel_offset(self, x: i32, y: i32) -> int {
        y * self.size_line + x * self.pixel_bytes()
    }

    /// The byte of a colour that goes `k` bytes into a pixel.
    pub open spec fn color_byte(self, color: u32, k: int) -> u8 {
        if self.endian is Little {
            byte_of(color, k)
        } else {
            byte_of(color, self.pixel_bytes() - 1 - k)
        }
    }

    /// The stores that set one pixel to a colour: its bytes, from the first
    /// in memory to the last. A pixel that cannot be written takes none.
    pub open spec fn pixel_writes(self, x: i32, y: i32, color: u32) -> Seq<ByteWrite> {
        if self.holds_pixel(x, y) {
            Seq::new(
                self.pixel_bytes() as nat,
                |k: int|
                    ByteWrite {
                        address: (self.area_start + self.pixel_offset(x, y) + k) as usize,
                        value: self.color_byte(color, k),
                    },
            )
        } else {
            Seq::empty()
        }
    }
}

/// A buffer that starts at the address `base`, after a store was made. A
/// store outside the buffer leaves it as it was.
pub open spec fn stored(buffer: Seq<u8>, base: usize, write: ByteWrite) -> Seq<u8> {
    if base <= write.address < base + buffer.len() {
        buffer.update(write.address - base, write.value)
    } else {
        buffer
    }
}

/// A buffer that starts at the address `base`, after a run of stores was
/// made, one after the other.
pub open spec fn stored_all(buffer: Seq<u8>, base: usize, writes: Seq<ByteWrite>) -> Seq<u8>
    decreases writes.len(),
{
    if writes.len() == 0 {
        buffer
    } else {
        stored(stored_all(buffer, base, writes.drop_last()), base, writes.last())
    }
}

/// Making an image from end to end: what comes of the address that the
/// allocation returned and, where that is an image, of the answer to the
/// question for its pixels.
pub open spec fn created_image(
    width: i32,
    height: i32,
    img_ptr: usize,
    area: usize,
    bits_per_pixel: i32,
    size_line: i32,
    endian: i32,
) -> Result<ImageModel, ErrorModel> {
    match handle_or(img_ptr, image_failure(width, height)) {
        Ok(img_ptr) => image_outcome(
            img_ptr,
            width,
            height,
            area,
            bits_per_pixel,
            size_line,
            endian,
        ),
        Err(e) => Err(e),
    }
}

impl MlxImage {
    #[verifier::type_invariant]
    spec fn non_null(self) -> bool {
        self.area_start != 0
    }

    /// The address of the image.
    pub(crate) fn as_ptr(&self) -> (ptr: usize)
        ensures
            ptr == self@.img_ptr,
    {
        self.img_ptr
    }

    /// Makes the image handle from the image's address and dimensions and
    /// from what asking for its pixels returned. A null address for the
    /// pixels is a failure; otherwise the handle keeps all of it, with the
    /// byte order read from the toolkit's flag.
    pub fn new(
        img_ptr: usize,
        width: i32,
        height: i32,
        area: usize,
        bits_per_pixel: i32,
        size_line: i32,
        endian: i32,
    ) -> (r: Result<MlxImage, MlxError>)
        ensures
            image_result(r) == image_outcome(
                img_ptr,
                width,
                height,
                area,
                bits_per_pixel,
                size_line,
                endian,
            ),
    {
        match binding::get_data_addr_reply(area, bits_per_pixel, size_line, endian) {
            Ok(data) => Ok(
                MlxImage {
                    img_ptr,
                    width,
                    height,
                    area_start: data.area,
                    bits_per_pixel: data.bits_per_pixel,
                    size_line: data.size_line,
                    endian: if data.endian == 1 {
                        Endian::Big
                    } else {
                        Endian::Little
                    },
                },
            ),
            Err(e) => Err(e),
        }
    }

    /// The store that writes `value` at `offset` bytes from the start of the
    /// image's pixels. Nothing holds the offset to the image, and nothing is
    /// checked: that the byte lies inside is for the caller to see to.
    pub fn write_to(&self, offset: i32, value: u8) -> (write: ByteWrite)
        ensures
            write == self@.write_to(offset, value),
    {
        let address = if offset >= 0 {
            let forward: usize = offset as usize;
            if forward <= usize::MAX - self.area_start {
                self.area_start + forward
            } else {
                forward - (usize::MAX - self.area_start) - 1
            }
        } else {
            let back: usize = (-(offset as i64)) as usize;
            if back <= self.area_start {
                self.area_start - back
            } else {
                usize::MAX - (back - self.area_start) + 1
            }
        };
        ByteWrite { address, value }
    }

    /// The stores that set the pixel in column `x` of line `y` to a colour,
    /// which is the display's own value for it: the pixel's bytes in the
    /// order of the image, from the first in memory to the last. Where the
    /// pixel is outside the image, or the layout is not one of whole bytes
    /// inside their line, nothing is to be stored.
    pub fn pixel_put(&self, x: i32, y: i32, color: u32) -> (writes: Vec<ByteWrite>)
        ensures
            writes@ == self@.pixel_writes(x, y, color),
    {
        let mut writes: Vec<ByteWrite> = Vec::new();
        if x < 0 || x >= self.width || y < 0 || y >= self.height {
            return writes;
        }
        let depth = self.bits_per_pixel;
        if !(depth == 8 || depth == 16 || depth == 24 || depth == 32) {
            return writes;
        }
        let n: u64 = (depth / 8) as u64;
        if self.size_line < 0 {
            assert(0 <= (x + 1) * self@.pixel_bytes()) by (nonlinear_arith)
                requires
                    0 <= x,
                    0 <= self@.pixel_bytes(),
            ;
            return writes;
        }
        assert(n == self@.pixel_bytes() && 1 <= n <= 4);
        assert((x as u64 + 1) * n <= 0x2_0000_0000) by (nonlinear_arith)
            requires
                0 <= x < 0x8000_0000,
                1 <= n <= 4,
        ;
        if (x as u64 + 1) * n > self.size_line as u64 {
            return writes;
        }
        assert((self.height as u64) * (self.size_line as u64) <= 0x4000_0000_0000_0000)
            by (nonlinear_arith)
            requires
                0 <= self.height <= 0x8000_0000,
                0 <= self.size_line <= 0x8000_0000,
        ;
        let len: u64 = (self.height as u64) * (self.size_line as u64);
        if self.area_start as u128 + len as u128 > usize::MAX as u128 {
            return writes;
        }
        assert(self@.holds_pixel(x, y));
        proof {
            lemma_pixel_lies_in_area(self@, x, y);
        }
        let line: u64 = (y as u64) * (self.size_line as u64);
        let offset: u64 = line + (x as u64) * n;
        let first: usize = self.area_start + offset as usize;
        let mut k: u64 = 0;
        while k < n
            invariant
                k <= n,
                n == self@.pixel_bytes(),
                1 <= n <= 4,
                first == self@.area_start + self@.pixel_offset(x, y),
                first + n <= usize::MAX,
                writes@.len() == k,
                forall|j: int|
                    0 <= j < k ==> writes@[j] == (ByteWrite {
                        address: (first + j) as usize,
                        value: self@.color_byte(color, j),
                    }),
            decreases n - k,
        {
            let place: u64 = match self.endian {
                Endian::Little => k,
                Endian::Big => n - 1 - k,
            };
            writes.push(ByteWrite { address: first + k as usize, value: color_byte(color, place) });
            k += 1;
        }
        assert(writes@ =~= self@.pixel_writes(x, y, color));
        writes
    }
}

fn color_byte(color: u32, place: u64) -> (byte: u8)
    requires
        place < 4,
    ensures
        byte == byte_of(color, place as int),
{
    let shifted: u32 = if place == 0 {
        color
    } else if place == 1 {
        color >> 8
    } else if place == 2 {
        color >> 16
    } else {
        color >> 24
    };
    assert(color >> 8 == color / 256) by (bit_vector);
    assert(color >> 16 == color / 65536) by (bit_vector);
    assert(color >> 24 == color / 16777216) by (bit_vector);
    assert(shifted & 0xff == shifted % 256) by (bit_vector);
    (shifted & 0xff) as u8
}

/// A pixel that can be written lies in the pixels of its image: it starts
/// at or after their start and ends at or before their end.
pub proof fn lemma_pixel_lies_in_area(image: ImageModel, x: i32, y: i32)
    requires
        image.holds_pixel(x, y),
    ensures
        1 <= image.pixel_bytes() <= 4,
        0 <= y * image.size_line,
        0 <= x * image.pixel_bytes(),
        0 <= image.pixel_offset(x, y),
        image.pixel_offset(x, y) + image.pixel_bytes() <= image.area_len(),
        image.area_start + image.pixel_offset(x, y) + image.pixel_bytes() <= usize::MAX,
{
    let n = image.pixel_bytes();
    let line = image.size_line as int;
    let rows = image.height as int;
    assert(0 <= x * n && x * n + n == (x + 1) * n) by (nonlinear_arith)
        requires
            0 <= x,
            1 <= n,
    ;
    assert(0 <= y * line && y * line + line <= rows * line) by (nonlinear_arith)
        requires
            0 <= y < rows,
            0 <= line,
    ;
}

/// Every store that sets a pixel goes to a byte of the image's pixels.
pub proof fn lemma_pixel_put_stays_inside(image: ImageModel, x: i32, y: i32, color: u32, k: int)
    requires
        0 <= k < image.pixel_writes(x, y, color).len(),
    ensures
        image.area_start <= image.pixel_writes(x, y, color)[k].address < image.area_start
            + image.area_len(),
{
    lemma_pixel_lies_in_area(image, x, y);
}

proof fn lemma_pixel_bytes_stored(
    image: ImageModel,
    buffer: Seq<u8>,
    x: i32,
    y: i32,
    color: u32,
    m: int,
)
    requires
        image.holds_pixel(x, y),
        buffer.len() == image.area_len(),
        0 <= m <= image.pixel_bytes(),
    ensures
        ({
            let after = stored_all(
                buffer,
                image.area_start,
                image.pixel_writes(x, y, color).take(m),
            );
            let at = image.pixel_offset(x, y);
            &&& after.len() == buffer.len()
            &&& forall|k: int| 0 <= k < m ==> after[at + k] == image.color_byte(color, k)
            &&& forall|i: int|
                0 <= i < buffer.len() && !(at <= i < at + m) ==> after[i] == buffer[i]
        }),
    decreases m,
{
    lemma_pixel_lies_in_area(image, x, y);
    let writes = image.pixel_writes(x, y, color);
    if m > 0 {
        lemma_pixel_bytes_stored(image, buffer, x, y, color, m - 1);
        assert(writes.take(m).drop_last() =~= writes.take(m - 1));
        assert(writes.take(m).last() == writes[m - 1]);
    }
}

/// Setting a pixel gives its bytes the bytes of the colour, in the order of
/// the image, and changes no byte of any other pixel.
pub proof fn lemma_pixel_put_sets_the_pixel(
    image: ImageModel,
    buffer: Seq<u8>,
    x: i32,
    y: i32,
    color: u32,
)
    requires
        image.holds_pixel(x, y),
        buffer.len() == image.area_len(),
    ensures
        ({
            let after = stored_all(buffer, image.area_start, image.pixel_writes(x, y, color));
            let at = image.pixel_offset(x, y);
            &&& after.len() == buffer.len()
            &&& forall|k: int|
                0 <= k < image.pixel_bytes() ==> after[at + k] == image.color_byte(color, k)
            &&& forall|i: int|
                0 <= i < buffer.len() && !(at <= i < at + image.pixel_bytes()) ==> after[i]
                    == buffer[i]
        }),
{
    lemma_pixel_lies_in_area(image, x, y);
    let writes = image.pixel_writes(x, y, color);
    lemma_pixel_bytes_stored(image, buffer, x, y, color, image.pixel_bytes());
    assert(writes.take(image.pixel_bytes()) =~= writes);
}

/// Two different pixels share no byte: no store for the one goes where a
/// store for the other goes.
pub proof fn lemma_pixels_are_apart(
    image: ImageModel,
    x1: i32,
    y1: i32,
    x2: i32,
    y2: i32,
    color1: u32,
    color2: u32,
    j: int,
    k: int,
)
    requires
        x1 != x2 || y1 != y2,
        0 <= j < image.pixel_writes(x1, y1, color1).len(),
        0 <= k < image.pixel_writes(x2, y2, color2).len(),
    ensures
        image.pixel_writes(x1, y1, color1)[j].address != image.pixel_writes(
            x2,
            y2,
            color2,
        )[k].address,
{
    lemma_pixel_lies_in_area(image, x1, y1);
    lemma_pixel_lies_in_area(image, x2, y2);
    let n = image.pixel_bytes();
    let line = image.size_line as int;
    if y1 == y2 {
        assert(x1 < x2 ==> x1 * n + n <= x2 * n) by (nonlinear_arith)
            requires
                1 <= n,
        ;
        assert(x2 < x1 ==> x2 * n + n <= x1 * n) by (nonlinear_arith)
            requires
                1 <= n,
        ;
    } else {
        assert(y1 < y2 ==> y1 * line + line <= y2 * line) by (nonlinear_arith)
            requires
                0 <= line,
        ;
        assert(y2 < y1 ==> y2 * line + line <= y1 * line) by (nonlinear_arith)
            requires
                0 <= line,
        ;
        assert(x1 * n + n == (x1 + 1) * n && x2 * n + n == (x2 + 1) * n) by (nonlinear_arith);
    }
}

/// An image is made exactly when the toolkit returns neither a null image
/// nor a null address for its pixels, and the handle then has the width and
/// the height that were asked for.
pub proof fn lemma_image_keeps_dimensions(
    width: i32,
    height: i32,
    img_ptr: usize,
    area: usize,
    bits_per_pixel: i32,
    size_line: i32,
    endian: i32,
)
    ensures
        created_image(width, height, img_ptr, area, bits_per_pixel, size_line, endian) is Ok <==> (
        img_ptr != 0 && area != 0),
        img_ptr != 0 && area != 0 ==> ({
            let image = created_image(
                width,
                height,
                img_ptr,
                area,
                bits_per_pixel,
                size_line,
                endian,
            )->Ok_0;
            image.width == width && image.height == height && image.img_ptr == img_ptr
        }),
{
}

/// Where the toolkit returns a null image, making the image fails with the
/// error that names the size asked for; where it returns an image and then a
/// null address for its pixels, with the error that says so.
pub proof fn lemma_null_image_fails(
    width: i32,
    height: i32,
    img_ptr: usize,
    area: usize,
    bits_per_pixel: i32,
    size_line: i32,
    endian: i32,
)
    ensures
        img_ptr == 0 ==> created_image(
            width,
            height,
            img_ptr,
            area,
            bits_per_pixel,
            size_line,
            endian,
        ) == Err::<ImageModel, ErrorModel>(image_failure(width, height)),
        img_ptr != 0 && area == 0 ==> created_image(
            width,
            height,
            img_ptr,
            area,
            bits_per_pixel,
            size_line,
            endian,
        ) == Err::<ImageModel, ErrorModel>(data_failure()),
{
}

/// A write at an offset inside the pixels sets the byte at that offset to
/// the value written and changes no other byte.
pub proof fn lemma_write_changes_one_byte(
    image: ImageModel,
    buffer: Seq<u8>,
    offset: i32,
    value: u8,
)
    requires
        0 <= offset < buffer.len(),
        image.area_start + buffer.len() <= usize::MAX,
    ensures
        stored(buffer, image.area_start, image.write_to(offset, value)) == buffer.update(
            offset as int,
            value,
        ),
        stored(buffer, image.area_start, image.write_to(offset, value))[offset as int] == value,
        forall|k: int|
            0 <= k < buffer.len() && k != offset ==> stored(
                buffer,
                image.area_start,
                image.write_to(offset, value),
            )[k] == buffer[k],
{
}

} // verus!
