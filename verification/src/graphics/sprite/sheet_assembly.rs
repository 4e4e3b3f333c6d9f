//! Assembling the sprite sheet: every uploaded sprite gets a region of the
//! atlas and its pixels are copied there.

use super::packer::{
    lemma_packed, lemma_regions_disjoint, normalized_size, Node, TextureRegion,
};
use crate::image::Image;
use super::Handle;
use vstd::prelude::*;

verus! {

/// A sprite on its way into the sheet: its handle and its RGBA8 pixels.
pub struct SpriteData {
    pub handle: Handle,
    pub data: Vec<u8>,
    pub width: u32,
    pub height: u32,
}

impl SpriteData {
    /// The pixel data has four bytes for each pixel.
    pub open spec fn wf(self) -> bool {
        self.data@.len() == self.width * self.height * 4
    }
}

/// The widths and heights of `sprites`, in order.
pub open spec fn requests(sprites: Seq<SpriteData>) -> Seq<(u32, u32)> {
    Seq::new(sprites.len(), |k: int| (sprites[k].width, sprites[k].height))
}

/// Some of `allocations` has the pixel `(px, py)` in its region.
pub open spec fn painted(allocations: Seq<(Handle, TextureRegion)>, px: int, py: int) -> bool {
    exists|k: int| 0 <= k < allocations.len() && (#[trigger] allocations[k]).1.contains(px, py)
}

/// One of the first `n` of `allocations` has the pixel `(px, py)` in its
/// region.
pub open spec fn painted_by_first(
    allocations: Seq<(Handle, TextureRegion)>,
    n: int,
    px: int,
    py: int,
) -> bool
    decreases n,
{
    n > 0 && (allocations[n - 1].1.contains(px, py) || painted_by_first(
        allocations,
        n - 1,
        px,
        py,
    ))
}

/// The `region` of the sheet, an RGBA8 square of edge `size`, holds the
/// image `data`, which is `width` pixels wide.
pub open spec fn shows(
    sheet: Seq<u8>,
    size: int,
    region: TextureRegion,
    data: Seq<u8>,
    width: int,
) -> bool {
    forall|px: int, py: int, c: int|
        #![trigger texel(sheet, size, px, py, c)]
        region.contains(px, py) && 0 <= c < 4 ==> texel(sheet, size, px, py, c) == texel(
            data,
            width,
            px - region.left,
            py - region.top,
            c,
        )
}

/// What a pass over `sprites` makes of an assembler: the atlas has served
/// the sprites in order and `allocations` are their handles and regions;
/// the sheet is as wide as the atlas and holds every sprite in its region;
/// every other pixel is as it was where the sheet had it before, and zero
/// where the sheet is new.
pub open spec fn worked(
    before: SheetAssemblerView,
    after: SheetAssemblerView,
    sprites: Seq<SpriteData>,
    allocations: Seq<(Handle, TextureRegion)>,
) -> bool {
    &&& after.wf()
    &&& after.layout == before.layout.packed(requests(sprites))
    &&& allocations.len() == sprites.len()
    &&& forall|k: int|
        #![trigger allocations[k]]
        0 <= k < sprites.len() ==> allocations[k] == (
            sprites[k].handle,
            before.layout.region(requests(sprites), k),
        )
    &&& forall|k: int|
        #![trigger allocations[k]]
        0 <= k < sprites.len() ==> shows(
            after.sheet,
            after.sheet_size as int,
            allocations[k].1,
            sprites[k].data@,
            sprites[k].width as int,
        )
    &&& forall|px: int, py: int, c: int|
        #![trigger texel(after.sheet, after.sheet_size as int, px, py, c)]
        0 <= px < after.sheet_size && 0 <= py < after.sheet_size && 0 <= c < 4 && !painted(
            allocations,
            px,
            py,
        ) ==> texel(after.sheet, after.sheet_size as int, px, py, c) == if px
            < before.sheet_size && py < before.sheet_size {
            texel(before.sheet, before.sheet_size as int, px, py, c)
        } else {
            0
        }
}

/// Every region has the extent of its sprite and lies in the square of
/// edge `size`, and no two regions share a pixel.
pub open spec fn laid_out(
    allocations: Seq<(Handle, TextureRegion)>,
    sprites: Seq<SpriteData>,
    size: int,
) -> bool {
    &&& allocations.len() == sprites.len()
    &&& forall|j: int|
        #![trigger allocations[j]]
        0 <= j < allocations.len() ==> {
            &&& allocations[j].1.right - allocations[j].1.left == sprites[j].width
            &&& allocations[j].1.bottom - allocations[j].1.top == sprites[j].height
            &&& allocations[j].1.right <= size
            &&& allocations[j].1.bottom <= size
            &&& sprites[j].wf()
        }
    &&& forall|i: int, j: int|
        #![trigger allocations[i], allocations[j]]
        0 <= i < allocations.len() && 0 <= j < allocations.len() && i != j
            ==> allocations[i].1.disjoint(allocations[j].1)
}

/// The state of the sheet assembler: the atlas layout and the CPU-side
/// copy of the sheet, an RGBA8 square as wide as the atlas.
pub struct SheetAssembler {
    layout: Node,
    sheet: Vec<u8>,
    sheet_size: u32,
}

/// What a sheet assembler holds.
pub ghost struct SheetAssemblerView {
    pub layout: Node,
    pub sheet: Seq<u8>,
    pub sheet_size: u32,
}

impl View for SheetAssembler {
    type V = SheetAssemblerView;

    closed spec fn view(&self) -> SheetAssemblerView {
        SheetAssemblerView {
            layout: self.layout,
            sheet: self.sheet@,
            sheet_size: self.sheet_size,
        }
    }
}

impl SheetAssemblerView {
    /// The layout is a well-formed atlas, and the sheet is as wide as it
    /// and holds four bytes for each of its pixels.
    pub open spec fn wf(self) -> bool {
        &&& self.layout.wf()
        &&& self.sheet_size == self.layout.edge()
        &&& self.sheet.len() == self.sheet_size * self.sheet_size * 4
    }

    /// A pass over `sprites` stays within the machine's integers: every
    /// sprite has four bytes for each pixel, the atlas can serve them all,
    /// and the bytes of the sheet it then needs can be counted.
    pub open spec fn admits(self, sprites: Seq<SpriteData>) -> bool {
        &&& forall|k: int| 0 <= k < sprites.len() ==> (#[trigger] sprites[k]).wf()
        &&& self.layout.serves(requests(sprites))
        &&& self.layout.packed(requests(sprites)).edge() * self.layout.packed(
            requests(sprites),
        ).edge() * 4 <= usize::MAX
    }
}

impl SheetAssembler {
    /// An assembler with no atlas yet and an empty sheet.
    pub fn new() -> (r: SheetAssembler)
        ensures
            r@.wf(),
            r@.layout == (Node::Empty { size: 0, x: 0, y: 0 }),
            r@.sheet == Seq::<u8>::empty(),
            r@.sheet_size == 0,
    {
        let r = SheetAssembler { layout: Node::empty(), sheet: Vec::new(), sheet_size: 0 };
        assert(r@.sheet.len() == r@.sheet_size * r@.sheet_size * 4) by {
            assert(r@.sheet_size == 0);
            assert(r@.sheet.len() == 0);
        }
        r
    }

    /// The sheet's pixels, row by row.
    pub fn sheet(&self) -> (r: &[u8])
        ensures
            r@ == self@.sheet,
    {
        self.sheet.as_slice()
    }

    /// The sheet's edge in pixels.
    pub fn sheet_size(&self) -> (r: u32)
        ensures
            r == self@.sheet_size,
    {
        self.sheet_size
    }

    /// The atlas layout.
    pub fn layout(&self) -> (r: &Node)
        ensures
            *r == self@.layout,
    {
        &self.layout
    }

    /// Whether `work` can take these sprites.
    pub fn can_work(&self, sprites: &Vec<SpriteData>) -> (r: bool)
        requires
            self@.wf(),
        ensures
            r == self@.admits(sprites@),
    {
        let ghost reqs = requests(sprites@);
        let mut scratch = self.layout.clone();
        let mut i: usize = 0;
        while i < sprites.len()
            invariant
                0 <= i <= sprites@.len(),
                reqs == requests(sprites@),
                scratch == self.layout.packed(reqs.take(i as int)),
                scratch.wf(),
                forall|j: int| 0 <= j < i ==> (#[trigger] sprites@[j]).wf(),
                forall|j: int|
                    #![trigger self.layout.packed(reqs.take(j))]
                    0 <= j < i ==> {
                        &&& reqs[j].0 <= 0x8000_0000
                        &&& reqs[j].1 <= 0x8000_0000
                        &&& self.layout.packed(reqs.take(j)).grown_edge(
                            normalized_size(reqs[j].0, reqs[j].1),
                        ) <= u32::MAX
                    },
            decreases sprites@.len() - i,
        {
            let sprite = &sprites[i];
            proof {
                assert(reqs[i as int] == (sprite.width, sprite.height));
                assert(reqs.take(i + 1).drop_last() =~= reqs.take(i as int));
                assert(reqs.take(i + 1).last() == reqs[i as int]);
            }
            if !Image::data_fits(sprite.data.len(), sprite.width, sprite.height) {
                assert(!sprites@[i as int].wf());
                return false;
            }
            if scratch.try_allocate(sprite.width, sprite.height).is_none() {
                return false;
            }
            i += 1;
        }
        proof {
            assert(reqs.take(sprites@.len() as int) =~= reqs);
        }
        let size: u128 = scratch.size() as u128;
        assert(size * size * 4 <= 0xffff_ffff * 0xffff_ffff * 4) by (nonlinear_arith)
            requires
                0 <= size <= 0xffff_ffff,
        ;
        size * size * 4 <= usize::MAX as u128
    }

    /// One pass of the assembler over the sprites that were waiting for it.
    ///
    /// Every sprite gets a region of the atlas, in order. Where the atlas
    /// grew, the sheet grows with it and keeps what it held in its top-left
    /// corner; what is new is zero. Then the pixels of every sprite are
    /// copied into its region. The regions come back with the handles.
    pub fn work(&mut self, sprites: &Vec<SpriteData>) -> (allocations: Vec<(Handle, TextureRegion)>)
        requires
            old(self)@.wf(),
            old(self)@.admits(sprites@),
        ensures
            worked(old(self)@, final(self)@, sprites@, allocations@),
            laid_out(allocations@, sprites@, final(self)@.sheet_size as int),
    {
        let allocations = self.pack(sprites);
        self.grow();
        self.blit(sprites, &allocations);
        proof {
            assert forall|k: int| 0 <= k < allocations@.len() implies shows(
                self.sheet@,
                self.sheet_size as int,
                (#[trigger] allocations@[k]).1,
                sprites@[k].data@,
                sprites@[k].width as int,
            ) by {
                assert forall|px: int, py: int, c: int|
                    allocations@[k].1.contains(px, py) && 0 <= c < 4 implies #[trigger] texel(
                    self.sheet@,
                    self.sheet_size as int,
                    px,
                    py,
                    c,
                ) == texel(
                    sprites@[k].data@,
                    sprites@[k].width as int,
                    px - allocations@[k].1.left,
                    py - allocations@[k].1.top,
                    c,
                ) by {}
            }
        }
        allocations
    }

    /// Gives every sprite a region of the atlas, in order.
    fn pack(&mut self, sprites: &Vec<SpriteData>) -> (allocations: Vec<(Handle, TextureRegion)>)
        requires
            old(self).layout.wf(),
            forall|k: int| 0 <= k < sprites@.len() ==> (#[trigger] sprites@[k]).wf(),
            old(self).layout.serves(requests(sprites@)),
        ensures
            final(self).layout == old(self).layout.packed(requests(sprites@)),
            final(self).layout.wf(),
            final(self).sheet == old(self).sheet,
            final(self).sheet_size == old(self).sheet_size,
            old(self).layout.edge() <= final(self).layout.edge(),
            allocations@.len() == sprites@.len(),
            forall|k: int|
                #![trigger allocations@[k]]
                0 <= k < sprites@.len() ==> allocations@[k] == (
                    sprites@[k].handle,
                    old(self).layout.region(requests(sprites@), k),
                ),
            laid_out(allocations@, sprites@, final(self).layout.edge() as int),
    {
        let ghost reqs = requests(sprites@);
        let ghost start = self.layout;
        let mut allocations: Vec<(Handle, TextureRegion)> = Vec::with_capacity(sprites.len());
        let mut i: usize = 0;
        while i < sprites.len()
            invariant
                0 <= i <= sprites@.len(),
                reqs == requests(sprites@),
                start.wf(),
                start.serves(reqs),
                self.layout == start.packed(reqs.take(i as int)),
                self.layout.wf(),
                self.sheet == old(self).sheet,
                self.sheet_size == old(self).sheet_size,
                allocations@.len() == i,
                forall|j: int|
                    #![trigger allocations@[j]]
                    0 <= j < i ==> allocations@[j] == (sprites@[j].handle, start.region(reqs, j)),
            decreases sprites@.len() - i,
        {
            let sprite = &sprites[i];
            proof {
                assert(reqs[i as int] == (sprite.width, sprite.height));
                assert(reqs.take(i + 1).drop_last() =~= reqs.take(i as int));
                assert(reqs.take(i + 1).last() == reqs[i as int]);
            }
            let region = self.layout.allocate(sprite.width, sprite.height);
            allocations.push((sprite.handle, region));
            i += 1;
        }
        proof {
            assert(reqs.take(sprites@.len() as int) =~= reqs);
            lemma_laid_out(start, sprites@, allocations@);
        }
        allocations
    }

    /// Makes the sheet as wide as the atlas: a sheet of zeros with the
    /// old sheet in its top-left corner.
    fn grow(&mut self)
        requires
            old(self).sheet_size <= old(self).layout.edge(),
            old(self).sheet@.len() == old(self).sheet_size * old(self).sheet_size * 4,
            old(self).layout.edge() * old(self).layout.edge() * 4 <= usize::MAX,
        ensures
            final(self).layout == old(self).layout,
            final(self).sheet_size == old(self).layout.edge(),
            final(self).sheet@.len() == final(self).sheet_size * final(self).sheet_size * 4,
            forall|px: int, py: int, c: int|
                #![trigger texel(final(self).sheet@, final(self).sheet_size as int, px, py, c)]
                0 <= px < final(self).sheet_size && 0 <= py < final(self).sheet_size && 0 <= c < 4
                    ==> texel(final(self).sheet@, final(self).sheet_size as int, px, py, c)
                    == if px < old(self).sheet_size && py < old(self).sheet_size {
                    texel(old(self).sheet@, old(self).sheet_size as int, px, py, c)
                } else {
                    0
                },
    {
        let size: u32 = self.layout.size();
        if size > self.sheet_size {
            let ghost old_sheet = self.sheet@;
            let ghost old_size = self.sheet_size as int;
            let n: usize = size as usize;
            proof {
                lemma_square_bytes(old_size, size as int);
            }
            let mut new_sheet: Vec<u8> = vec![0u8; n * n * 4];
            let ghost zeros = new_sheet@;
            proof {
                if old_size > 0 {
                    lemma_texel_index(size as int, 0, 0, old_size, old_size - 1, 0, 0, 0);
                }
            }
            copy(&mut new_sheet, size, 0, 0, self.sheet.as_slice(), self.sheet_size);
            proof {
                if old_size > 0 {
                    lemma_copied_texels(zeros, size as int, 0, 0, old_sheet, old_size, old_size);
                }
                assert forall|px: int, py: int, c: int|
                    0 <= px < size && 0 <= py < size && 0 <= c < 4 implies #[trigger] texel(
                    new_sheet@,
                    size as int,
                    px,
                    py,
                    c,
                ) == if px < old_size && py < old_size {
                    texel(old_sheet, old_size, px, py, c)
                } else {
                    0
                } by {
                    lemma_zero_texel(zeros, size as int, px, py, c);
                }
            }
            self.sheet = new_sheet;
            self.sheet_size = size;
        }
    }

    /// Copies the pixels of every sprite into its region of the sheet.
    fn blit(&mut self, sprites: &Vec<SpriteData>, allocations: &Vec<(Handle, TextureRegion)>)
        requires
            laid_out(allocations@, sprites@, old(self).sheet_size as int),
            old(self).sheet@.len() == old(self).sheet_size * old(self).sheet_size * 4,
        ensures
            final(self).layout == old(self).layout,
            final(self).sheet_size == old(self).sheet_size,
            final(self).sheet@.len() == old(self).sheet@.len(),
            forall|k: int, px: int, py: int, c: int|
                #![trigger allocations@[k], texel(final(self).sheet@, final(self).sheet_size as int, px, py, c)]
                0 <= k < sprites@.len() && allocations@[k].1.contains(px, py) && 0 <= c < 4
                    ==> texel(final(self).sheet@, final(self).sheet_size as int, px, py, c)
                    == texel(
                    sprites@[k].data@,
                    sprites@[k].width as int,
                    px - allocations@[k].1.left,
                    py - allocations@[k].1.top,
                    c,
                ),
            forall|px: int, py: int, c: int|
                #![trigger texel(final(self).sheet@, final(self).sheet_size as int, px, py, c)]
                0 <= px < final(self).sheet_size && 0 <= py < final(self).sheet_size && 0 <= c < 4
                    && !painted(allocations@, px, py) ==> texel(
                    final(self).sheet@,
                    final(self).sheet_size as int,
                    px,
                    py,
                    c,
                ) == texel(old(self).sheet@, old(self).sheet_size as int, px, py, c),
    {
        let ghost base = self.sheet@;
        let size: u32 = self.sheet_size;
        let sheet_len: usize = self.sheet.len();
        let mut k: usize = 0;
        while k < sprites.len()
            invariant
                0 <= k <= sprites@.len(),
                laid_out(allocations@, sprites@, size as int),
                self.layout == old(self).layout,
                self.sheet_size == size,
                self.sheet@.len() == size * size * 4,
                self.sheet@.len() == sheet_len,
                forall|j: int, px: int, py: int, c: int|
                    #![trigger allocations@[j], texel(self.sheet@, size as int, px, py, c)]
                    0 <= j < k && allocations@[j].1.contains(px, py) && 0 <= c < 4 ==> texel(
                        self.sheet@,
                        size as int,
                        px,
                        py,
                        c,
                    ) == texel(
                        sprites@[j].data@,
                        sprites@[j].width as int,
                        px - allocations@[j].1.left,
                        py - allocations@[j].1.top,
                        c,
                    ),
                forall|px: int, py: int, c: int|
                    #![trigger texel(self.sheet@, size as int, px, py, c)]
                    0 <= px < size && 0 <= py < size && 0 <= c < 4 && !painted_by_first(
                        allocations@,
                        k as int,
                        px,
                        py,
                    ) ==> texel(self.sheet@, size as int, px, py, c) == texel(
                        base,
                        size as int,
                        px,
                        py,
                        c,
                    ),
            decreases sprites@.len() - k,
        {
            let region: TextureRegion = allocations[k].1;
            let sprite = &sprites[k];
            let ghost before = self.sheet@;
            let ghost w = sprite.width as int;
            let ghost h = sprite.height as int;
            proof {
                assert(allocations@[k as int].1 == region);
                lemma_sprite_rows(sprite.data@, w, h);
                if w > 0 && h > 0 {
                    lemma_texel_index(
                        size as int,
                        region.left as int,
                        region.top as int,
                        w,
                        h - 1,
                        0,
                        0,
                        0,
                    );
                }
                if w > 0 {
                    lemma_square_bytes(w, size as int);
                }
            }
            copy(
                &mut self.sheet,
                self.sheet_size,
                region.left,
                region.top,
                sprite.data.as_slice(),
                region.right - region.left,
            );
            proof {
                lemma_blit_step(
                    before,
                    self.sheet@,
                    size as int,
                    region,
                    sprite.data@,
                    w,
                    h,
                );
                assert forall|j: int, px: int, py: int, c: int|
                    0 <= j < k + 1 && (#[trigger] allocations@[j]).1.contains(px, py) && 0 <= c
                        < 4 implies #[trigger] texel(self.sheet@, size as int, px, py, c) == texel(
                    sprites@[j].data@,
                    sprites@[j].width as int,
                    px - allocations@[j].1.left,
                    py - allocations@[j].1.top,
                    c,
                ) by {
                    if j < k {
                        assert(allocations@[j].1.disjoint(allocations@[k as int].1));
                        assert(!region.contains(px, py));
                        assert(texel(before, size as int, px, py, c) == texel(
                            sprites@[j].data@,
                            sprites@[j].width as int,
                            px - allocations@[j].1.left,
                            py - allocations@[j].1.top,
                            c,
                        ));
                    }
                }
                assert forall|px: int, py: int, c: int|
                    0 <= px < size && 0 <= py < size && 0 <= c < 4 && !painted_by_first(
                        allocations@,
                        k + 1,
                        px,
                        py,
                    ) implies #[trigger] texel(self.sheet@, size as int, px, py, c) == texel(
                    base,
                    size as int,
                    px,
                    py,
                    c,
                ) by {
                    assert(!region.contains(px, py));
                    assert(!painted_by_first(allocations@, k as int, px, py));
                    assert(texel(before, size as int, px, py, c) == texel(
                        base,
                        size as int,
                        px,
                        py,
                        c,
                    ));
                }
            }
            k += 1;
        }
        proof {
            assert forall|px: int, py: int| #[trigger]
                painted_by_first(allocations@, allocations@.len() as int, px, py) implies painted(
                allocations@,
                px,
                py,
            ) by {
                lemma_painted(allocations@, allocations@.len() as int, px, py);
            }
        }
    }
}


/// Byte `c` of the pixel `(px, py)` of an RGBA8 image that is `stride`
/// pixels wide.
#[verifier::opaque]
pub open spec fn texel(pixels: Seq<u8>, stride: int, px: int, py: int, c: int) -> u8 {
    pixels[(py * stride + px) * 4 + c]
}

/// The pixel `(px, py)` lies in the `width` by `height` rectangle whose
/// top-left pixel is `(x, y)`.
pub open spec fn in_rect(px: int, py: int, x: int, y: int, width: int, height: int) -> bool {
    x <= px < x + width && y <= py < y + height
}

/// Start of row `row` of the copy in the destination: the byte offset of
/// the pixel `(dest_x, dest_y + row)` in an image `dest_size` pixels wide.
pub open spec fn row_start(dest_size: int, dest_x: int, dest_y: int, row: int) -> int {
    (dest_y + row) * dest_size * 4 + dest_x * 4
}

/// The number of whole rows of `src_width` pixels that `src` holds.
pub open spec fn whole_rows(src: Seq<u8>, src_width: int) -> int {
    if src_width <= 0 {
        0
    } else {
        src.len() as int / (src_width * 4)
    }
}

/// `dest` after the first `rows` rows of `src` were written to it, row
/// `r` at `row_start(dest_size, dest_x, dest_y, r)`, in order.
pub open spec fn copied(
    dest: Seq<u8>,
    dest_size: int,
    dest_x: int,
    dest_y: int,
    src: Seq<u8>,
    src_width: int,
    rows: int,
) -> Seq<u8>
    decreases rows,
{
    if rows <= 0 {
        dest
    } else {
        let before = copied(dest, dest_size, dest_x, dest_y, src, src_width, rows - 1);
        let start = row_start(dest_size, dest_x, dest_y, rows - 1);
        let row = src.subrange((rows - 1) * src_width * 4, rows * src_width * 4);
        before.subrange(0, start) + row + before.subrange(
            start + src_width * 4,
            before.len() as int,
        )
    }
}

/// Copies the rows of `src`, an RGBA8 image `src_width` pixels wide, into
/// `dest`, an RGBA8 image `dest_size` pixels wide, with the top-left pixel
/// of `src` going to `(dest_x, dest_y)`. Bytes of `src` after its last whole
/// row are ignored.
pub fn copy(
    dest: &mut Vec<u8>,
    dest_size: u32,
    dest_x: u32,
    dest_y: u32,
    src: &[u8],
    src_width: u32,
)
    requires
        src_width * 4 <= usize::MAX,
        dest_y + whole_rows(src@, src_width as int) <= usize::MAX,
        whole_rows(src@, src_width as int) > 0 ==> row_start(
            dest_size as int,
            dest_x as int,
            dest_y as int,
            whole_rows(src@, src_width as int) - 1,
        ) + src_width * 4 <= old(dest)@.len(),
    ensures
        final(dest)@ == copied(
            old(dest)@,
            dest_size as int,
            dest_x as int,
            dest_y as int,
            src@,
            src_width as int,
            whole_rows(src@, src_width as int),
        ),
        final(dest)@.len() == old(dest)@.len(),
{
    if src_width == 0 {
        return ;
    }
    let dest_size: usize = dest_size as usize;
    let dest_x: usize = dest_x as usize;
    let dest_y: usize = dest_y as usize;
    let row_len: usize = src_width as usize * 4;
    let rows: usize = src.len() / row_len;
    let dest_len: usize = dest.len();
    let src_len: usize = src.len();
    proof {
        lemma_whole_rows(src@.len() as int, row_len as int);
    }
    let mut src_y: usize = 0;
    while src_y < rows
        invariant
            0 <= src_y <= rows,
            row_len == src_width * 4,
            row_len > 0,
            rows == whole_rows(src@, src_width as int),
            rows * row_len <= src@.len(),
            src@.len() == src_len,
            dest_y + rows <= usize::MAX,
            rows > 0 ==> row_start(dest_size as int, dest_x as int, dest_y as int, rows - 1)
                + row_len <= dest@.len(),
            dest@.len() == old(dest)@.len(),
            dest@.len() == dest_len,
            dest@ == copied(
                old(dest)@,
                dest_size as int,
                dest_x as int,
                dest_y as int,
                src@,
                src_width as int,
                src_y as int,
            ),
        decreases rows - src_y,
    {
        proof {
            lemma_row_start_monotone(
                dest_size as int,
                dest_x as int,
                dest_y as int,
                src_y as int,
                rows - 1,
            );
            lemma_row_inside(src_y as int, rows as int, row_len as int);
            assert(row_start(dest_size as int, dest_x as int, dest_y as int, src_y as int) + row_len
                <= dest@.len());
        }
        let dest_offset: usize = (dest_y + src_y) * dest_size * 4 + dest_x * 4;
        let src_offset: usize = src_y * row_len;
        let ghost before = dest@;
        let mut k: usize = 0;
        while k < row_len
            invariant
                0 <= k <= row_len,
                dest_offset + row_len <= dest@.len(),
                src_offset + row_len <= src@.len(),
                src@.len() == src_len,
                dest@.len() == before.len(),
                dest@.len() == dest_len,
                dest@ =~= before.subrange(0, dest_offset as int) + src@.subrange(
                    src_offset as int,
                    src_offset + k,
                ) + before.subrange(dest_offset + k, before.len() as int),
            decreases row_len - k,
        {
            dest[dest_offset + k] = src[src_offset + k];
            k += 1;
        }
        src_y += 1;
        proof {
            assert((src_y - 1) * src_width * 4 == src_offset) by (nonlinear_arith)
                requires
                    src_offset == (src_y - 1) * row_len,
                    row_len == src_width * 4,
            ;
            assert(src_y * src_width * 4 == src_offset + row_len) by (nonlinear_arith)
                requires
                    src_offset == (src_y - 1) * row_len,
                    row_len == src_width * 4,
            ;
        }
    }
}

/// Whole rows of `len` bytes take no more than the `total` they are cut from.
pub proof fn lemma_whole_rows(total: int, len: int)
    requires
        0 <= total,
        0 < len,
    ensures
        0 <= total / len,
        (total / len) * len <= total,
{
    assert(0 <= total / len && (total / len) * len <= total) by (nonlinear_arith)
        requires
            0 <= total,
            0 < len,
    ;
}

/// Rows start further into the destination the further down they are.
pub proof fn lemma_row_start_monotone(dest_size: int, dest_x: int, dest_y: int, a: int, b: int)
    requires
        0 <= dest_size,
        0 <= dest_x,
        0 <= dest_y,
        0 <= a <= b,
    ensures
        0 <= (dest_y + a) * dest_size,
        (dest_y + a) * dest_size <= (dest_y + a) * dest_size * 4,
        (dest_y + a) * dest_size * 4 <= row_start(dest_size, dest_x, dest_y, a),
        dest_x * 4 <= row_start(dest_size, dest_x, dest_y, a),
        row_start(dest_size, dest_x, dest_y, a) <= row_start(dest_size, dest_x, dest_y, b),
{
    assert(0 <= (dest_y + a) * dest_size <= (dest_y + b) * dest_size) by (nonlinear_arith)
        requires
            0 <= dest_size,
            0 <= dest_y,
            0 <= a <= b,
    ;
}

/// Row `r` of `rows` rows of `len` bytes ends within `rows * len` bytes.
pub proof fn lemma_row_inside(r: int, rows: int, len: int)
    requires
        0 <= r < rows,
        0 <= len,
    ensures
        0 <= r * len,
        r * len + len <= rows * len,
{
    assert(0 <= r * len && r * len + len <= rows * len) by (nonlinear_arith)
        requires
            0 <= r < rows,
            0 <= len,
    ;
}

/// Where the bytes of a pixel lie, relative to row `r` of a copy that is
/// `w` pixels wide and goes to `(x, y)` of a square image of edge `size`.
pub proof fn lemma_texel_index(size: int, x: int, y: int, w: int, r: int, px: int, py: int, c: int)
    requires
        0 <= x,
        0 <= y,
        0 < w,
        x + w <= size,
        0 <= r,
        y + r < size,
        0 <= px < size,
        0 <= py < size,
        0 <= c < 4,
    ensures
        0 <= (py * size + px) * 4 + c < size * size * 4,
        0 <= row_start(size, x, y, r),
        row_start(size, x, y, r) + w * 4 <= size * size * 4,
        in_rect(px, py, x, y + r, w, 1) ==> (py * size + px) * 4 + c == row_start(size, x, y, r) + (
        px - x) * 4 + c,
        !in_rect(px, py, x, y + r, w, 1) ==> (py * size + px) * 4 + c < row_start(size, x, y, r)
            || (py * size + px) * 4 + c >= row_start(size, x, y, r) + w * 4,
{
    assert(0 <= py * size && py * size + size <= size * size) by (nonlinear_arith)
        requires
            0 <= py < size,
    ;
    assert(0 <= (y + r) * size && (y + r) * size + size <= size * size) by (nonlinear_arith)
        requires
            0 <= y + r < size,
    ;
    if py < y + r {
        assert(py * size + size <= (y + r) * size) by (nonlinear_arith)
            requires
                0 <= py < y + r,
                0 <= size,
        ;
    } else if py > y + r {
        assert((y + r) * size + size <= py * size) by (nonlinear_arith)
            requires
                0 <= y + r < py,
                0 <= size,
        ;
    }
}

/// What a copy leaves in a square image when every row of the source fits
/// between the left and right edge: the pixels of the rectangle it was
/// copied to are those of the source, and all others are as they were.
pub proof fn lemma_copied_texels(
    dest: Seq<u8>,
    size: int,
    x: int,
    y: int,
    src: Seq<u8>,
    w: int,
    rows: int,
)
    requires
        0 <= x,
        0 <= y,
        0 < w,
        x + w <= size,
        0 <= rows,
        y + rows <= size,
        dest.len() == size * size * 4,
        rows * w * 4 <= src.len(),
    ensures
        copied(dest, size, x, y, src, w, rows).len() == dest.len(),
        forall|px: int, py: int, c: int|
            #![trigger texel(copied(dest, size, x, y, src, w, rows), size, px, py, c)]
            0 <= px < size && 0 <= py < size && 0 <= c < 4 ==> texel(
                copied(dest, size, x, y, src, w, rows),
                size,
                px,
                py,
                c,
            ) == if in_rect(px, py, x, y, w, rows) {
                texel(src, w, px - x, py - y, c)
            } else {
                texel(dest, size, px, py, c)
            },
    decreases rows,
{
    reveal(texel);
    if rows > 0 {
        let r = rows - 1;
        assert(r * w * 4 <= rows * w * 4 && rows * w * 4 == r * w * 4 + w * 4 && 0 <= r * w * 4)
            by (nonlinear_arith)
            requires
                r == rows - 1,
                0 <= r,
                0 < w,
        ;
        lemma_copied_texels(dest, size, x, y, src, w, r);
        let before = copied(dest, size, x, y, src, w, r);
        let after = copied(dest, size, x, y, src, w, rows);
        let start = row_start(size, x, y, r);
        let row = src.subrange(r * w * 4, rows * w * 4);
        lemma_texel_index(size, x, y, w, r, x, y + r, 0);
        assert(after == before.subrange(0, start) + row + before.subrange(
            start + w * 4,
            before.len() as int,
        ));
        assert(after.len() == dest.len());
        assert forall|px: int, py: int, c: int|
            0 <= px < size && 0 <= py < size && 0 <= c < 4 implies texel(after, size, px, py, c)
            == if in_rect(px, py, x, y, w, rows) {
            texel(src, w, px - x, py - y, c)
        } else {
            texel(dest, size, px, py, c)
        } by {
            lemma_texel_index(size, x, y, w, r, px, py, c);
            let b = (py * size + px) * 4 + c;
            if in_rect(px, py, x, y + r, w, 1) {
                assert(after[b] == row[(px - x) * 4 + c]);
                assert(((py - y) * w + (px - x)) * 4 + c == r * w * 4 + (px - x) * 4 + c)
                    by (nonlinear_arith)
                    requires
                        py - y == r,
                ;
            } else {
                assert(after[b] == before[b]);
                assert(texel(before, size, px, py, c) == before[b]);
                assert(in_rect(px, py, x, y, w, rows) == in_rect(px, py, x, y, w, r));
            }
        }
    }
}

/// The regions that an atlas hands out for `sprites` are laid out in the
/// atlas as it is after it served them, which is no smaller than before.
pub proof fn lemma_laid_out(
    start: Node,
    sprites: Seq<SpriteData>,
    allocations: Seq<(Handle, TextureRegion)>,
)
    requires
        start.wf(),
        start.serves(requests(sprites)),
        forall|k: int| 0 <= k < sprites.len() ==> (#[trigger] sprites[k]).wf(),
        allocations.len() == sprites.len(),
        forall|j: int|
            #![trigger allocations[j]]
            0 <= j < sprites.len() ==> allocations[j].1 == start.region(requests(sprites), j),
    ensures
        laid_out(allocations, sprites, start.packed(requests(sprites)).edge() as int),
        start.edge() <= start.packed(requests(sprites)).edge(),
        start.packed(requests(sprites)).wf(),
{
    let reqs = requests(sprites);
    let size = start.packed(reqs).edge();
    assert(reqs.take(reqs.len() as int) =~= reqs);
    lemma_packed(start, reqs, reqs.len() as int);
    assert forall|a: int, b: int|
        0 <= a < allocations.len() && 0 <= b < allocations.len() && a != b implies (
    #[trigger] allocations[a]).1.disjoint((#[trigger] allocations[b]).1) by {
        lemma_regions_disjoint(start, reqs, a, b);
    }
    assert forall|j: int|
        #![trigger allocations[j]]
        0 <= j < allocations.len() implies {
        &&& allocations[j].1.right - allocations[j].1.left == sprites[j].width
        &&& allocations[j].1.bottom - allocations[j].1.top == sprites[j].height
        &&& allocations[j].1.right <= size
        &&& allocations[j].1.bottom <= size
        &&& sprites[j].wf()
    } by {
        assert(allocations[j].1 == start.region(reqs, j));
        assert(reqs[j] == (sprites[j].width, sprites[j].height));
    }
}

/// Every byte of an image of zeros is zero.
pub proof fn lemma_zero_texel(pixels: Seq<u8>, size: int, px: int, py: int, c: int)
    requires
        pixels.len() == size * size * 4,
        forall|i: int| 0 <= i < pixels.len() ==> pixels[i] == 0,
        0 <= px < size,
        0 <= py < size,
        0 <= c < 4,
    ensures
        texel(pixels, size, px, py, c) == 0,
{
    reveal(texel);
    lemma_texel_index(size, 0, 0, 1, 0, px, py, c);
}

/// A pixel that one of the first `n` regions holds is held by some region.
pub proof fn lemma_painted(allocations: Seq<(Handle, TextureRegion)>, n: int, px: int, py: int)
    requires
        0 <= n <= allocations.len(),
        painted_by_first(allocations, n, px, py),
    ensures
        painted(allocations, px, py),
    decreases n,
{
    if allocations[n - 1].1.contains(px, py) {
    } else {
        lemma_painted(allocations, n - 1, px, py);
    }
}

/// A sprite of `w` by `h` pixels with four bytes a pixel has `h` whole rows.
pub proof fn lemma_sprite_rows(data: Seq<u8>, w: int, h: int)
    requires
        0 <= w,
        0 <= h,
        data.len() == w * h * 4,
    ensures
        w > 0 ==> whole_rows(data, w) == h,
        w == 0 ==> whole_rows(data, w) == 0,
        h * w * 4 == data.len(),
{
    let len = data.len() as int;
    if w > 0 {
        assert(len / (w * 4) == h && h * w * 4 == len) by (nonlinear_arith)
            requires
                0 < w,
                0 <= h,
                len == w * h * 4,
        ;
    } else {
        assert(h * w * 4 == len) by (nonlinear_arith)
            requires
                w == 0,
                len == w * h * 4,
        ;
    }
}

/// What one sprite's copy leaves in the sheet: the sprite in its region,
/// and every other pixel as it was.
pub proof fn lemma_blit_step(
    before: Seq<u8>,
    after: Seq<u8>,
    size: int,
    region: TextureRegion,
    data: Seq<u8>,
    w: int,
    h: int,
)
    requires
        0 <= w,
        0 <= h,
        region.right - region.left == w,
        region.bottom - region.top == h,
        region.right <= size,
        region.bottom <= size,
        data.len() == w * h * 4,
        before.len() == size * size * 4,
        after == copied(
            before,
            size,
            region.left as int,
            region.top as int,
            data,
            w,
            whole_rows(data, w),
        ),
    ensures
        after.len() == before.len(),
        forall|px: int, py: int, c: int|
            #![trigger texel(after, size, px, py, c)]
            0 <= px < size && 0 <= py < size && 0 <= c < 4 ==> texel(after, size, px, py, c)
                == if region.contains(px, py) {
                texel(data, w, px - region.left, py - region.top, c)
            } else {
                texel(before, size, px, py, c)
            },
{
    lemma_sprite_rows(data, w, h);
    if w > 0 {
        lemma_copied_texels(before, size, region.left as int, region.top as int, data, w, h);
        assert forall|px: int, py: int, c: int|
            0 <= px < size && 0 <= py < size && 0 <= c < 4 implies #[trigger] texel(
            after,
            size,
            px,
            py,
            c,
        ) == if region.contains(px, py) {
            texel(data, w, px - region.left, py - region.top, c)
        } else {
            texel(before, size, px, py, c)
        } by {
            assert(region.contains(px, py) == in_rect(
                px,
                py,
                region.left as int,
                region.top as int,
                w,
                h,
            ));
        }
    }
}

/// The bytes of a square image are at least four times its edge, and no
/// fewer than those of a smaller square.
pub proof fn lemma_square_bytes(small: int, large: int)
    requires
        0 <= small <= large,
    ensures
        small * 4 <= large * large * 4,
        small * small * 4 <= large * large * 4,
        large * large <= large * large * 4,
        0 <= large * large,
        small > 0 ==> (small * small * 4) / (small * 4) == small,
{
    assert(small * 4 <= large * large * 4 && small * small * 4 <= large * large * 4 && 0 <= large
        * large) by (nonlinear_arith)
        requires
            0 <= small <= large,
    ;
    if small > 0 {
        assert((small * small * 4) / (small * 4) == small) by (nonlinear_arith)
            requires
                0 < small,
        ;
    }
}

/// A pass keeps what the sheet showed: an image that the sheet held in a
/// region of reserved pixels before the pass is still there after it, and
/// its pixels are still reserved.
pub proof fn lemma_pass_keeps_image(
    before: SheetAssemblerView,
    after: SheetAssemblerView,
    sprites: Seq<SpriteData>,
    allocations: Seq<(Handle, TextureRegion)>,
    region: TextureRegion,
    data: Seq<u8>,
    width: int,
)
    requires
        before.wf(),
        before.admits(sprites),
        worked(before, after, sprites, allocations),
        forall|px: int, py: int| #[trigger]
            region.contains(px, py) ==> before.layout.occupied(px, py),
        shows(before.sheet, before.sheet_size as int, region, data, width),
    ensures
        forall|px: int, py: int| #[trigger]
            region.contains(px, py) ==> after.layout.occupied(px, py),
        shows(after.sheet, after.sheet_size as int, region, data, width),
{
    let reqs = requests(sprites);
    assert(reqs.take(reqs.len() as int) =~= reqs);
    lemma_packed(before.layout, reqs, reqs.len() as int);
    super::packer::lemma_covers_within(before.layout, 0, 0);
    assert forall|px: int, py: int, c: int|
        region.contains(px, py) && 0 <= c < 4 implies #[trigger] texel(
        after.sheet,
        after.sheet_size as int,
        px,
        py,
        c,
    ) == texel(data, width, px - region.left, py - region.top, c) by {
        assert(before.layout.occupied(px, py));
        assert(super::packer::within(px, py, 0, 0, before.layout.edge() as int));
        if painted(allocations, px, py) {
            let k = choose|k: int|
                0 <= k < allocations.len() && (#[trigger] allocations[k]).1.contains(px, py);
            assert(allocations[k].1 == before.layout.region(reqs, k));
            assert(before.layout.region(reqs, k).contains(px, py));
        }
        assert(texel(before.sheet, before.sheet_size as int, px, py, c) == texel(
            data,
            width,
            px - region.left,
            py - region.top,
            c,
        ));
    }
}

/// After a pass the pixels of every sprite of the pass are reserved.
pub proof fn lemma_pass_reserves(
    before: SheetAssemblerView,
    after: SheetAssemblerView,
    sprites: Seq<SpriteData>,
    allocations: Seq<(Handle, TextureRegion)>,
    k: int,
)
    requires
        before.wf(),
        before.admits(sprites),
        worked(before, after, sprites, allocations),
        0 <= k < sprites.len(),
    ensures
        forall|px: int, py: int| #[trigger]
            allocations[k].1.contains(px, py) ==> after.layout.occupied(px, py),
{
    let reqs = requests(sprites);
    assert(reqs.take(reqs.len() as int) =~= reqs);
    lemma_packed(before.layout, reqs, reqs.len() as int);
    assert(allocations[k].1 == before.layout.region(reqs, k));
}

} // verus!
