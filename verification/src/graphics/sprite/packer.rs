//! The atlas packer: a quadtree over power-of-two squares that hands out
//! pixel regions for sprites and grows on demand.

use vstd::arithmetic::power2::is_pow2;
use vstd::pervasive::unreached;
use vstd::prelude::*;

verus! {

/// `u32::next_power_of_two`: for an argument of at most `2^31` the result is
/// the smallest power of two that is not below the argument. Larger
/// arguments, for which std overflows, are left out.
pub assume_specification[ u32::next_power_of_two ](n: u32) -> (r: u32)
    requires
        n <= 0x8000_0000,
    ensures
        is_pow2(r as int),
        n <= r,
        forall|p: int| is_pow2(p) && n <= p ==> r <= p,
;

/// An axis-aligned pixel rectangle; `right` and `bottom` are exclusive.
#[derive(Clone, Copy, Debug, PartialEq, Eq, Structural)]
pub struct TextureRegion {
    pub left: u32,
    pub top: u32,
    pub right: u32,
    pub bottom: u32,
}

/// The four quadrants of a subdivided square.
pub struct Subdivision {
    pub top_left: Node,
    pub top_right: Node,
    pub bottom_left: Node,
    pub bottom_right: Node,
}

/// Why a square could not take a request.
#[derive(Clone, Copy, Debug, PartialEq, Eq, Structural)]
pub enum AllocError {
    /// The square is large enough but has no free slot left.
    Occupied,
    /// The square is in use and smaller than the request.
    Undersized,
    /// The square is free but smaller than the request.
    EmptyUndersized,
}

/// A square of the atlas quadtree.
pub enum Node {
    /// An occupied square.
    Leaf { size: u32 },
    /// A square split into four quadrants of half its edge.
    Subdivided { size: u32, children: Box<Subdivision> },
    /// A free square whose top-left corner lies at `(x, y)` of the atlas.
    Empty { size: u32, x: u32, y: u32 },
}

impl Clone for Node {
    fn clone(&self) -> (r: Node)
        ensures
            r == *self,
        decreases *self,
    {
        match self {
            Node::Leaf { size } => Node::Leaf { size: *size },
            Node::Subdivided { size, children } => Node::Subdivided {
                size: *size,
                children: Box::new(
                    Subdivision {
                        top_left: children.top_left.clone(),
                        top_right: children.top_right.clone(),
                        bottom_left: children.bottom_left.clone(),
                        bottom_right: children.bottom_right.clone(),
                    },
                ),
            },
            Node::Empty { size, x, y } => Node::Empty { size: *size, x: *x, y: *y },
        }
    }
}

/// The smallest power of two that is not below `n`.
pub open spec fn pow2_ceiling(n: int) -> int
    decreases n,
{
    if n <= 1 {
        1
    } else {
        2 * pow2_ceiling((n + 1) / 2)
    }
}

/// The edge of the square reserved for a `width` by `height` sprite.
pub open spec fn normalized_size(width: u32, height: u32) -> u32 {
    pow2_ceiling(if width >= height { width as int } else { height as int }) as u32
}

/// The pixel `(px, py)` lies in the square of edge `s` whose corner is `(x, y)`.
pub open spec fn within(px: int, py: int, x: int, y: int, s: int) -> bool {
    x <= px < x + s && y <= py < y + s
}

impl TextureRegion {
    /// The `width` by `height` region whose top-left pixel is `corner`.
    pub open spec fn at(corner: (u32, u32), width: u32, height: u32) -> TextureRegion {
        TextureRegion {
            left: corner.0,
            top: corner.1,
            right: (corner.0 + width) as u32,
            bottom: (corner.1 + height) as u32,
        }
    }

    /// The pixel `(px, py)` lies in this region.
    pub open spec fn contains(self, px: int, py: int) -> bool {
        self.left <= px < self.right && self.top <= py < self.bottom
    }

    /// The two regions share no pixel.
    pub open spec fn disjoint(self, other: TextureRegion) -> bool {
        forall|px: int, py: int| !(#[trigger] self.contains(px, py) && other.contains(px, py))
    }
}

impl Node {
    /// Edge length of this square.
    pub open spec fn edge(self) -> u32 {
        match self {
            Node::Leaf { size } => size,
            Node::Subdivided { size, .. } => size,
            Node::Empty { size, .. } => size,
        }
    }

    /// The corner recorded in a free square; `(0, 0)` for the others.
    pub open spec fn corner(self) -> (u32, u32) {
        match self {
            Node::Empty { x, y, .. } => (x, y),
            _ => (0, 0),
        }
    }

    /// A subdivided square of edge `size`.
    pub open spec fn quad(size: u32, tl: Node, tr: Node, bl: Node, br: Node) -> Node {
        Node::Subdivided {
            size,
            children: Box::new(
                Subdivision { top_left: tl, top_right: tr, bottom_left: bl, bottom_right: br },
            ),
        }
    }

    /// A free square.
    pub open spec fn free(size: u32, x: int, y: int) -> Node {
        Node::Empty { size, x: x as u32, y: y as u32 }
    }

    /// The square of edge `size` at `(x, y)` split into four free quadrants.
    pub open spec fn split(size: u32, x: u32, y: u32) -> Node {
        let half = (size / 2) as u32;
        Node::quad(
            size,
            Node::free(half, x as int, y as int),
            Node::free(half, x + half, y as int),
            Node::free(half, x as int, y + half),
            Node::free(half, x + half, y + half),
        )
    }

    /// Sizes are powers of two, quadrants have half their parent's edge, and
    /// free squares end inside the `u32` range. A free square may have edge
    /// zero: the atlas that does not exist yet.
    pub open spec fn shaped(self) -> bool
        decreases self,
    {
        match self {
            Node::Leaf { size } => is_pow2(size as int),
            Node::Empty { size, x, y } => {
                &&& size == 0 || is_pow2(size as int)
                &&& x + size <= u32::MAX
                &&& y + size <= u32::MAX
            },
            Node::Subdivided { size, children } => {
                &&& is_pow2(size as int)
                &&& size >= 2
                &&& children.top_left.edge() == size / 2
                &&& children.top_right.edge() == size / 2
                &&& children.bottom_left.edge() == size / 2
                &&& children.bottom_right.edge() == size / 2
                &&& children.top_left.shaped()
                &&& children.top_right.shaped()
                &&& children.bottom_left.shaped()
                &&& children.bottom_right.shaped()
            },
        }
    }

    /// This free square after a square of edge `s` was carved out of its
    /// top-left corner.
    pub open spec fn carve(self, s: u32) -> Node
        decreases self.edge(),
    {
        match self {
            Node::Empty { size, x, y } => {
                if s < size && size >= 2 {
                    let half = (size / 2) as u32;
                    Node::quad(
                        size,
                        Node::free(half, x as int, y as int).carve(s),
                        Node::free(half, x + half, y as int),
                        Node::free(half, x as int, y + half),
                        Node::free(half, x + half, y + half),
                    )
                } else {
                    Node::Leaf { size }
                }
            },
            _ => self,
        }
    }

    /// This free square after `node`, which is no larger, was moved into its
    /// top-left corner.
    pub open spec fn embed(self, node: Node) -> Node
        decreases self.edge(),
    {
        match self {
            Node::Empty { size, x, y } => {
                if node.edge() < size && size >= 2 {
                    let half = (size / 2) as u32;
                    Node::quad(
                        size,
                        Node::free(half, x as int, y as int).embed(node),
                        Node::free(half, x + half, y as int),
                        Node::free(half, x as int, y + half),
                        Node::free(half, x + half, y + half),
                    )
                } else {
                    node
                }
            },
            _ => self,
        }
    }

    /// Where a square of edge `s` goes: the corner of the first free square
    /// that is large enough, quadrants taken in the order top-left,
    /// top-right, bottom-left, bottom-right.
    pub open spec fn slot(self, s: u32) -> Option<(u32, u32)>
        decreases self,
    {
        match self {
            Node::Leaf { .. } => None,
            Node::Empty { size, x, y } => if s <= size {
                Some((x, y))
            } else {
                None
            },
            Node::Subdivided { size, children } => {
                if s >= size {
                    None
                } else if children.top_left.slot(s) is Some {
                    children.top_left.slot(s)
                } else if children.top_right.slot(s) is Some {
                    children.top_right.slot(s)
                } else if children.bottom_left.slot(s) is Some {
                    children.bottom_left.slot(s)
                } else {
                    children.bottom_right.slot(s)
                }
            },
        }
    }

    /// The tree after a square of edge `s` was placed at `self.slot(s)`;
    /// the tree itself where there is no slot.
    pub open spec fn taken(self, s: u32) -> Node
        decreases self,
    {
        match self {
            Node::Leaf { .. } => self,
            Node::Empty { size, .. } => if s <= size {
                self.carve(s)
            } else {
                self
            },
            Node::Subdivided { size, children } => {
                let tl = children.top_left;
                let tr = children.top_right;
                let bl = children.bottom_left;
                let br = children.bottom_right;
                if s >= size {
                    self
                } else if tl.slot(s) is Some {
                    Node::quad(size, tl.taken(s), tr, bl, br)
                } else if tr.slot(s) is Some {
                    Node::quad(size, tl, tr.taken(s), bl, br)
                } else if bl.slot(s) is Some {
                    Node::quad(size, tl, tr, bl.taken(s), br)
                } else if br.slot(s) is Some {
                    Node::quad(size, tl, tr, bl, br.taken(s))
                } else {
                    self
                }
            },
        }
    }

    /// Why a square without a slot for `s` refuses the request.
    pub open spec fn refusal(self, s: u32) -> AllocError {
        match self {
            Node::Empty { .. } => AllocError::EmptyUndersized,
            _ => if s <= self.edge() {
                AllocError::Occupied
            } else {
                AllocError::Undersized
            },
        }
    }

    /// Free squares record the corner they have when this square's own
    /// corner lies at `(x, y)`.
    pub open spec fn placed(self, x: int, y: int) -> bool
        decreases self,
    {
        match self {
            Node::Leaf { .. } => true,
            Node::Empty { x: ex, y: ey, .. } => ex == x && ey == y,
            Node::Subdivided { size, children } => {
                let half = size as int / 2;
                &&& children.top_left.placed(x, y)
                &&& children.top_right.placed(x + half, y)
                &&& children.bottom_left.placed(x, y + half)
                &&& children.bottom_right.placed(x + half, y + half)
            },
        }
    }

    /// The pixel `(px, py)` lies in an occupied square of this square, whose
    /// own corner lies at `(x, y)`.
    pub open spec fn covers(self, x: int, y: int, px: int, py: int) -> bool
        decreases self,
    {
        match self {
            Node::Leaf { size } => within(px, py, x, y, size as int),
            Node::Empty { .. } => false,
            Node::Subdivided { size, children } => {
                let half = size as int / 2;
                ||| children.top_left.covers(x, y, px, py)
                ||| children.top_right.covers(x + half, y, px, py)
                ||| children.bottom_left.covers(x, y + half, px, py)
                ||| children.bottom_right.covers(x + half, y + half, px, py)
            },
        }
    }

    /// A well-formed atlas root: shaped, with its corner at the origin.
    pub open spec fn wf(self) -> bool {
        self.shaped() && self.placed(0, 0)
    }

    /// The pixel `(px, py)` of the atlas is reserved for some sprite.
    pub open spec fn occupied(self, px: int, py: int) -> bool {
        self.covers(0, 0, px, py)
    }

    /// Where the atlas puts a square of edge `s`: in its first free slot,
    /// or, where it has none, in the top-right quadrant of the doubled
    /// atlas, or at the origin of an atlas that was free and too small.
    pub open spec fn placement(self, s: u32) -> (u32, u32) {
        match self.slot(s) {
            Some(p) => p,
            None => match self.refusal(s) {
                AllocError::Occupied => (self.edge(), 0),
                AllocError::Undersized => (s, 0),
                AllocError::EmptyUndersized => (0, 0),
            },
        }
    }

    /// Edge of the atlas after it took a square of edge `s`.
    pub open spec fn grown_edge(self, s: u32) -> int {
        match self.slot(s) {
            Some(_) => self.edge() as int,
            None => match self.refusal(s) {
                AllocError::Occupied => 2 * self.edge(),
                AllocError::Undersized => 2 * s,
                AllocError::EmptyUndersized => s as int,
            },
        }
    }

    /// The atlas after it took a square of edge `s`.
    pub open spec fn allocated(self, s: u32) -> Node {
        match self.slot(s) {
            Some(_) => self.taken(s),
            None => match self.refusal(s) {
                AllocError::Occupied => {
                    let e = self.edge();
                    Node::quad(
                        (2 * e) as u32,
                        self,
                        Node::free(e, e as int, 0).carve(s),
                        Node::free(e, 0, e as int),
                        Node::free(e, e as int, e as int),
                    )
                },
                AllocError::Undersized => Node::quad(
                    (2 * s) as u32,
                    Node::free(s, 0, 0).embed(self),
                    Node::Leaf { size: s },
                    Node::free(s, 0, s as int),
                    Node::free(s, s as int, s as int),
                ),
                AllocError::EmptyUndersized => Node::Leaf { size: s },
            },
        }
    }

    /// The atlas after it served `requests`, each a width and a height,
    /// in order.
    pub open spec fn packed(self, requests: Seq<(u32, u32)>) -> Node
        decreases requests.len(),
    {
        if requests.len() == 0 {
            self
        } else {
            self.packed(requests.drop_last()).allocated(
                normalized_size(requests.last().0, requests.last().1),
            )
        }
    }

    /// The region that request `i` of `requests` gets.
    pub open spec fn region(self, requests: Seq<(u32, u32)>, i: int) -> TextureRegion {
        TextureRegion::at(
            self.packed(requests.take(i)).placement(
                normalized_size(requests[i].0, requests[i].1),
            ),
            requests[i].0,
            requests[i].1,
        )
    }

    /// Every one of `requests` can be served in order without an edge
    /// leaving the `u32` range.
    pub open spec fn serves(self, requests: Seq<(u32, u32)>) -> bool {
        forall|i: int|
            #![trigger self.packed(requests.take(i))]
            0 <= i < requests.len() ==> {
                &&& requests[i].0 <= 0x8000_0000
                &&& requests[i].1 <= 0x8000_0000
                &&& self.packed(requests.take(i)).grown_edge(
                    normalized_size(requests[i].0, requests[i].1),
                ) <= u32::MAX
            }
    }

    /// The atlas that does not exist yet.
    pub fn empty() -> (r: Node)
        ensures
            r == (Node::Empty { size: 0, x: 0, y: 0 }),
            r.wf(),
    {
        Node::Empty { size: 0, x: 0, y: 0 }
    }

    /// A square of edge `outer_size` at the origin, split into four free
    /// quadrants.
    pub fn subdivided(outer_size: u32) -> (r: Node)
        ensures
            r == Node::split(outer_size, 0, 0),
    {
        let half: u32 = outer_size / 2;
        Node::Subdivided {
            size: outer_size,
            children: Box::new(
                Subdivision {
                    top_left: Node::Empty { size: half, x: 0, y: 0 },
                    top_right: Node::Empty { size: half, x: half, y: 0 },
                    bottom_left: Node::Empty { size: half, x: 0, y: half },
                    bottom_right: Node::Empty { size: half, x: half, y: half },
                },
            ),
        }
    }

    /// An occupied square.
    pub fn leaf(size: u32) -> (r: Node)
        ensures
            r == (Node::Leaf { size }),
    {
        Node::Leaf { size }
    }

    /// Edge length of this square.
    pub fn size(&self) -> (r: u32)
        ensures
            r == self.edge(),
    {
        match self {
            Node::Leaf { size } => *size,
            Node::Subdivided { size, .. } => *size,
            Node::Empty { size, .. } => *size,
        }
    }

    /// Carves a square of edge `sprite_size` out of the top-left corner of
    /// this free square and returns that corner.
    pub fn empty_alloc(&mut self, sprite_size: u32) -> (r: (u32, u32))
        requires
            *old(self) is Empty,
            old(self).shaped(),
            is_pow2(sprite_size as int),
            sprite_size <= old(self).edge(),
        ensures
            *final(self) == old(self).carve(sprite_size),
            r == old(self).corner(),
        decreases old(self).edge(),
    {
        match self {
            Node::Empty { size, x, y } => {
                let size: u32 = *size;
                let x: u32 = *x;
                let y: u32 = *y;
                if sprite_size < size {
                    proof {
                        lemma_pow2_below(sprite_size as int, size as int);
                    }
                    let half: u32 = size / 2;
                    let mut top_left = Node::Empty { size: half, x, y };
                    let allocation = top_left.empty_alloc(sprite_size);
                    *self = Node::Subdivided {
                        size,
                        children: Box::new(
                            Subdivision {
                                top_left,
                                top_right: Node::Empty { size: half, x: x + half, y },
                                bottom_left: Node::Empty { size: half, x, y: y + half },
                                bottom_right: Node::Empty { size: half, x: x + half, y: y + half },
                            },
                        ),
                    };
                    allocation
                } else {
                    *self = Node::Leaf { size };
                    (x, y)
                }
            },
            _ => unreached(),
        }
    }

    /// Moves `node` into the top-left corner of this free square.
    pub fn realloc(&mut self, node: Node)
        requires
            *old(self) is Empty,
            old(self).shaped(),
            is_pow2(node.edge() as int),
            node.edge() <= old(self).edge(),
        ensures
            *final(self) == old(self).embed(node),
        decreases old(self).edge(),
    {
        match self {
            Node::Empty { size, x, y } => {
                let size: u32 = *size;
                let x: u32 = *x;
                let y: u32 = *y;
                if node.size() < size {
                    proof {
                        lemma_pow2_below(node.edge() as int, size as int);
                    }
                    let half: u32 = size / 2;
                    let mut top_left = Node::Empty { size: half, x, y };
                    top_left.realloc(node);
                    *self = Node::Subdivided {
                        size,
                        children: Box::new(
                            Subdivision {
                                top_left,
                                top_right: Node::Empty { size: half, x: x + half, y },
                                bottom_left: Node::Empty { size: half, x, y: y + half },
                                bottom_right: Node::Empty { size: half, x: x + half, y: y + half },
                            },
                        ),
                    };
                } else {
                    *self = node;
                }
            },
            _ => unreached(),
        }
    }
    /// Places a square of edge `sprite_size` in the first free slot of this
    /// square and returns the slot's corner, or says why there is none and
    /// leaves the square as it was.
    pub fn try_alloc(&mut self, sprite_size: u32) -> (r: Result<(u32, u32), AllocError>)
        requires
            old(self).shaped(),
            is_pow2(sprite_size as int),
        ensures
            match old(self).slot(sprite_size) {
                Some(p) => r == Ok::<(u32, u32), AllocError>(p) && *final(self) == old(self).taken(
                    sprite_size,
                ),
                None => r == Err::<(u32, u32), AllocError>(old(self).refusal(sprite_size))
                    && *final(self) == *old(self),
            },
        decreases *old(self),
    {
        match self {
            Node::Leaf { size } => {
                if sprite_size <= *size {
                    Err(AllocError::Occupied)
                } else {
                    Err(AllocError::Undersized)
                }
            },
            Node::Subdivided { size, children } => {
                let size: u32 = *size;
                if sprite_size < size {
                    proof {
                        lemma_pow2_below(sprite_size as int, size as int);
                    }
                    match children.top_left.try_alloc(sprite_size) {
                        Ok(allocation) => {
                            return Ok(allocation);
                        },
                        Err(e) => {
                            assert(e == AllocError::Occupied);
                        },
                    }
                    match children.top_right.try_alloc(sprite_size) {
                        Ok(allocation) => {
                            return Ok(allocation);
                        },
                        Err(e) => {
                            assert(e == AllocError::Occupied);
                        },
                    }
                    match children.bottom_left.try_alloc(sprite_size) {
                        Ok(allocation) => {
                            return Ok(allocation);
                        },
                        Err(e) => {
                            assert(e == AllocError::Occupied);
                        },
                    }
                    match children.bottom_right.try_alloc(sprite_size) {
                        Ok(allocation) => {
                            return Ok(allocation);
                        },
                        Err(e) => {
                            assert(e == AllocError::Occupied);
                        },
                    }
                    Err(AllocError::Occupied)
                } else if sprite_size == size {
                    Err(AllocError::Occupied)
                } else {
                    Err(AllocError::Undersized)
                }
            },
            Node::Empty { size, .. } => {
                if sprite_size <= *size {
                    Ok(self.empty_alloc(sprite_size))
                } else {
                    Err(AllocError::EmptyUndersized)
                }
            },
        }
    }
    /// Whether this square has a free slot for a square of edge
    /// `sprite_size`.
    pub fn has_slot(&self, sprite_size: u32) -> (r: bool)
        ensures
            r == (self.slot(sprite_size) is Some),
        decreases *self,
    {
        match self {
            Node::Leaf { .. } => false,
            Node::Empty { size, .. } => sprite_size <= *size,
            Node::Subdivided { size, children } => {
                sprite_size < *size && (children.top_left.has_slot(sprite_size)
                    || children.top_right.has_slot(sprite_size)
                    || children.bottom_left.has_slot(sprite_size)
                    || children.bottom_right.has_slot(sprite_size))
            },
        }
    }

    /// Whether `allocate` can serve a `width` by `height` sprite without an
    /// edge leaving the `u32` range.
    pub fn can_allocate(&self, width: u32, height: u32) -> (r: bool)
        ensures
            r == (width <= 0x8000_0000 && height <= 0x8000_0000 && self.grown_edge(
                normalized_size(width, height),
            ) <= u32::MAX),
    {
        if width > 0x8000_0000 || height > 0x8000_0000 {
            return false;
        }
        let longest: u32 = if width >= height {
            width
        } else {
            height
        };
        let edge: u32 = longest.next_power_of_two();
        proof {
            lemma_pow2_ceiling(longest as int);
            lemma_pow2_ceiling_least(longest as int, edge as int);
            assert(edge == normalized_size(width, height));
        }
        if self.has_slot(edge) {
            true
        } else {
            match self {
                Node::Empty { .. } => true,
                _ => if edge <= self.size() {
                    self.size() <= 0x7fff_ffff
                } else {
                    edge <= 0x7fff_ffff
                },
            }
        }
    }

    /// Reserves a region for a `width` by `height` sprite as `allocate`
    /// does, or returns `None` and leaves the atlas as it is where that
    /// would take an edge out of the `u32` range.
    pub fn try_allocate(&mut self, width: u32, height: u32) -> (r: Option<TextureRegion>)
        requires
            old(self).wf(),
        ensures
            final(self).wf(),
            match r {
                Some(region) => {
                    &&& width <= 0x8000_0000
                    &&& height <= 0x8000_0000
                    &&& old(self).grown_edge(normalized_size(width, height)) <= u32::MAX
                    &&& *final(self) == old(self).allocated(normalized_size(width, height))
                    &&& region == TextureRegion::at(
                        old(self).placement(normalized_size(width, height)),
                        width,
                        height,
                    )
                },
                None => {
                    &&& !(width <= 0x8000_0000 && height <= 0x8000_0000 && old(self).grown_edge(
                        normalized_size(width, height),
                    ) <= u32::MAX)
                    &&& *final(self) == *old(self)
                },
            },
    {
        if self.can_allocate(width, height) {
            Some(self.allocate(width, height))
        } else {
            None
        }
    }

    /// Reserves a region for a `width` by `height` sprite and returns it.
    ///
    /// The sprite gets the top-left corner of a square of edge
    /// `normalized_size(width, height)`. The square goes into the first
    /// free slot; an atlas without one doubles (or grows to twice the
    /// square, where the square is larger than the atlas) and keeps what it
    /// held in its top-left quadrant. No region handed out earlier moves,
    /// and the new region shares no pixel with any of them.
    pub fn allocate(&mut self, width: u32, height: u32) -> (r: TextureRegion)
        requires
            old(self).wf(),
            width <= 0x8000_0000,
            height <= 0x8000_0000,
            old(self).grown_edge(normalized_size(width, height)) <= u32::MAX,
        ensures
            *final(self) == old(self).allocated(normalized_size(width, height)),
            r == TextureRegion::at(
                old(self).placement(normalized_size(width, height)),
                width,
                height,
            ),
            final(self).wf(),
            r.right - r.left == width,
            r.bottom - r.top == height,
            width <= normalized_size(width, height),
            height <= normalized_size(width, height),
            normalized_size(width, height) <= final(self).edge(),
            r.right <= final(self).edge(),
            r.bottom <= final(self).edge(),
            old(self).edge() <= final(self).edge(),
            is_pow2(final(self).edge() as int),
            forall|px: int, py: int| #[trigger]
                r.contains(px, py) ==> !old(self).occupied(px, py) && final(self).occupied(px, py),
            forall|px: int, py: int| #[trigger]
                old(self).occupied(px, py) ==> final(self).occupied(px, py),
    {
        let longest: u32 = if width >= height {
            width
        } else {
            height
        };
        let edge: u32 = longest.next_power_of_two();
        proof {
            lemma_pow2_ceiling(longest as int);
            lemma_pow2_ceiling_least(longest as int, edge as int);
            assert(edge == normalized_size(width, height));
            lemma_allocated(*old(self), edge);
        }
        let (x, y) = match self.try_alloc(edge) {
            Ok(allocation) => allocation,
            Err(AllocError::Occupied) => {
                let mut previous = Node::subdivided(self.size() * 2);
                core::mem::swap(self, &mut previous);
                match self {
                    Node::Subdivided { children, .. } => {
                        children.top_left = previous;
                        children.top_right.empty_alloc(edge)
                    },
                    _ => unreached(),
                }
            },
            Err(AllocError::Undersized) => {
                let mut previous = Node::subdivided(edge * 2);
                core::mem::swap(self, &mut previous);
                match self {
                    Node::Subdivided { children, .. } => {
                        children.top_left.realloc(previous);
                        children.top_right = Node::leaf(edge);
                        (edge, 0)
                    },
                    _ => unreached(),
                }
            },
            Err(AllocError::EmptyUndersized) => {
                *self = Node::leaf(edge);
                (0, 0)
            },
        };
        TextureRegion { left: x, top: y, right: x + width, bottom: y + height }
    }
}

/// Of two powers of two, the smaller is at most half the larger, and that
/// half is a power of two.
pub proof fn lemma_pow2_below(a: int, b: int)
    requires
        is_pow2(a),
        is_pow2(b),
        a < b,
    ensures
        b >= 2,
        b % 2 == 0,
        is_pow2(b / 2),
        a <= b / 2,
    decreases b,
{
    reveal(is_pow2);
    if a > 1 {
        lemma_pow2_below(a / 2, b / 2);
    }
}

/// Twice a power of two is a power of two.
pub proof fn lemma_pow2_double(a: int)
    requires
        is_pow2(a),
    ensures
        is_pow2(2 * a),
        a >= 1,
{
    reveal(is_pow2);
}

/// `pow2_ceiling(n)` is a power of two that is not below `n`.
pub proof fn lemma_pow2_ceiling(n: int)
    ensures
        is_pow2(pow2_ceiling(n)),
        n <= pow2_ceiling(n),
        n >= 1 ==> pow2_ceiling(n) < 2 * n,
    decreases n,
{
    reveal(is_pow2);
    if n > 1 {
        lemma_pow2_ceiling((n + 1) / 2);
    }
}

/// No power of two that is not below `n` is smaller than `pow2_ceiling(n)`.
pub proof fn lemma_pow2_ceiling_least(n: int, p: int)
    requires
        is_pow2(p),
        n <= p,
    ensures
        pow2_ceiling(n) <= p,
    decreases n,
{
    reveal(is_pow2);
    if n > 1 {
        lemma_pow2_ceiling_least((n + 1) / 2, p / 2);
    }
}

/// What a subdivided square covers is what its quadrants cover.
pub proof fn lemma_covers_quadrants(node: Node, x: int, y: int, px: int, py: int)
    requires
        node is Subdivided,
    ensures
        node.covers(x, y, px, py) == ({
            let half = node.edge() as int / 2;
            ||| node->children.top_left.covers(x, y, px, py)
            ||| node->children.top_right.covers(x + half, y, px, py)
            ||| node->children.bottom_left.covers(x, y + half, px, py)
            ||| node->children.bottom_right.covers(x + half, y + half, px, py)
        }),
{
}

/// What a square covers lies inside it.
pub proof fn lemma_covers_within(node: Node, x: int, y: int)
    requires
        node.shaped(),
    ensures
        forall|px: int, py: int|
            #![trigger node.covers(x, y, px, py)]
            node.covers(x, y, px, py) ==> within(px, py, x, y, node.edge() as int),
    decreases node,
{
    match node {
        Node::Subdivided { size, children } => {
            let half = size as int / 2;
            lemma_covers_within(children.top_left, x, y);
            lemma_covers_within(children.top_right, x + half, y);
            lemma_covers_within(children.bottom_left, x, y + half);
            lemma_covers_within(children.bottom_right, x + half, y + half);
            assert forall|px: int, py: int| node.covers(x, y, px, py) implies within(
                px,
                py,
                x,
                y,
                node.edge() as int,
            ) by {
                lemma_covers_quadrants(node, x, y, px, py);
            }
        },
        _ => {},
    }
}

/// Carving a free square keeps it shaped and in place, and makes it cover
/// exactly the carved square.
pub proof fn lemma_carve(size: u32, x: u32, y: u32, s: u32)
    requires
        is_pow2(size as int),
        is_pow2(s as int),
        s <= size,
        x + size <= u32::MAX,
        y + size <= u32::MAX,
    ensures
        ({
            let c = (Node::Empty { size, x, y }).carve(s);
            &&& c.shaped()
            &&& c.edge() == size
            &&& c.placed(x as int, y as int)
            &&& forall|px: int, py: int|
                #![trigger c.covers(x as int, y as int, px, py)]
                c.covers(x as int, y as int, px, py) <==> within(
                    px,
                    py,
                    x as int,
                    y as int,
                    s as int,
                )
        }),
    decreases size,
{
    reveal_with_fuel(Node::shaped, 2);
    reveal_with_fuel(Node::placed, 2);
    let c = (Node::Empty { size, x, y }).carve(s);
    if s < size {
        lemma_pow2_below(s as int, size as int);
        let half = (size / 2) as u32;
        lemma_carve(half, x, y, s);
        assert forall|px: int, py: int|
            c.covers(x as int, y as int, px, py) <==> within(
                px,
                py,
                x as int,
                y as int,
                s as int,
            ) by {
            lemma_covers_quadrants(c, x as int, y as int, px, py);
        }
    }
}

/// Moving a square into a free one keeps it shaped and in place, and
/// changes nothing of what it covers.
pub proof fn lemma_embed(size: u32, x: u32, y: u32, node: Node)
    requires
        is_pow2(size as int),
        x + size <= u32::MAX,
        y + size <= u32::MAX,
        node.shaped(),
        node.placed(x as int, y as int),
        is_pow2(node.edge() as int),
        node.edge() <= size,
    ensures
        ({
            let e = (Node::Empty { size, x, y }).embed(node);
            &&& e.shaped()
            &&& e.edge() == size
            &&& e.placed(x as int, y as int)
            &&& forall|px: int, py: int|
                #![trigger e.covers(x as int, y as int, px, py)]
                e.covers(x as int, y as int, px, py) <==> node.covers(x as int, y as int, px, py)
        }),
    decreases size,
{
    reveal_with_fuel(Node::shaped, 2);
    reveal_with_fuel(Node::placed, 2);
    let e = (Node::Empty { size, x, y }).embed(node);
    if node.edge() < size {
        lemma_pow2_below(node.edge() as int, size as int);
        let half = (size / 2) as u32;
        lemma_embed(half, x, y, node);
        assert forall|px: int, py: int|
            e.covers(x as int, y as int, px, py) <==> node.covers(
                x as int,
                y as int,
                px,
                py,
            ) by {
            lemma_covers_quadrants(e, x as int, y as int, px, py);
        }
    }
}

/// Taking the first free slot keeps a square shaped and in place, adds
/// exactly the slot to what it covers, and the slot was free before.
pub proof fn lemma_taken(node: Node, x: int, y: int, s: u32)
    requires
        node.shaped(),
        node.placed(x, y),
        is_pow2(s as int),
        node.slot(s) is Some,
    ensures
        ({
            let t = node.taken(s);
            let (ax, ay) = node.slot(s)->0;
            &&& t.shaped()
            &&& t.edge() == node.edge()
            &&& t.placed(x, y)
            &&& x <= ax
            &&& y <= ay
            &&& ax + s <= x + node.edge()
            &&& ay + s <= y + node.edge()
            &&& forall|px: int, py: int|
                #![trigger t.covers(x, y, px, py)]
                t.covers(x, y, px, py) <==> node.covers(x, y, px, py) || within(
                    px,
                    py,
                    ax as int,
                    ay as int,
                    s as int,
                )
            &&& forall|px: int, py: int|
                #![trigger node.covers(x, y, px, py)]
                within(px, py, ax as int, ay as int, s as int) ==> !node.covers(x, y, px, py)
        }),
    decreases node,
{
    let t = node.taken(s);
    let (ax, ay) = node.slot(s)->0;
    match node {
        Node::Leaf { .. } => {},
        Node::Empty { size, x: ex, y: ey } => {
            reveal(is_pow2);
            lemma_carve(size, ex, ey, s);
        },
        Node::Subdivided { size, children } => {
            let half = size as int / 2;
            lemma_pow2_below(s as int, size as int);
            lemma_covers_within(children.top_left, x, y);
            lemma_covers_within(children.top_right, x + half, y);
            lemma_covers_within(children.bottom_left, x, y + half);
            lemma_covers_within(children.bottom_right, x + half, y + half);
            if children.top_left.slot(s) is Some {
                lemma_taken(children.top_left, x, y, s);
            } else if children.top_right.slot(s) is Some {
                lemma_taken(children.top_right, x + half, y, s);
            } else if children.bottom_left.slot(s) is Some {
                lemma_taken(children.bottom_left, x, y + half, s);
            } else {
                lemma_taken(children.bottom_right, x + half, y + half, s);
            }
            assert forall|px: int, py: int|
                t.covers(x, y, px, py) <==> node.covers(x, y, px, py) || within(
                    px,
                    py,
                    ax as int,
                    ay as int,
                    s as int,
                ) by {
                lemma_covers_quadrants(t, x, y, px, py);
                lemma_covers_quadrants(node, x, y, px, py);
            }
            assert forall|px: int, py: int|
                within(px, py, ax as int, ay as int, s as int) implies !node.covers(
                    x,
                    y,
                    px,
                    py,
                ) by {
                lemma_covers_quadrants(node, x, y, px, py);
            }
        },
    }
}

/// An allocation keeps the atlas well-formed, never shrinks it, puts the
/// new square inside it and on pixels that were free, and keeps every pixel
/// that was reserved.
pub proof fn lemma_allocated(node: Node, s: u32)
    requires
        node.wf(),
        is_pow2(s as int),
        node.grown_edge(s) <= u32::MAX,
    ensures
        ({
            let a = node.allocated(s);
            let (ax, ay) = node.placement(s);
            &&& a.wf()
            &&& a.edge() == node.grown_edge(s)
            &&& a.edge() >= node.edge()
            &&& a.edge() >= s
            &&& is_pow2(a.edge() as int)
            &&& ax + s <= a.edge()
            &&& ay + s <= a.edge()
            &&& forall|px: int, py: int|
                #![trigger a.occupied(px, py)]
                a.occupied(px, py) <==> node.occupied(px, py) || within(
                    px,
                    py,
                    ax as int,
                    ay as int,
                    s as int,
                )
            &&& forall|px: int, py: int|
                #![trigger node.occupied(px, py)]
                within(px, py, ax as int, ay as int, s as int) ==> !node.occupied(px, py)
        }),
{
    reveal_with_fuel(Node::shaped, 2);
    reveal_with_fuel(Node::placed, 2);
    let a = node.allocated(s);
    let (ax, ay) = node.placement(s);
    lemma_covers_within(node, 0, 0);
    match node.slot(s) {
        Some(_) => {
            lemma_taken(node, 0, 0, s);
            lemma_slot_fits(node, s);
        },
        None => match node.refusal(s) {
            AllocError::Occupied => {
                let e = node.edge();
                lemma_pow2_double(e as int);
                lemma_carve(e, e, 0, s);
                assert forall|px: int, py: int|
                    a.occupied(px, py) <==> node.occupied(px, py) || within(
                        px,
                        py,
                        ax as int,
                        ay as int,
                        s as int,
                    ) by {
                    lemma_covers_quadrants(a, 0, 0, px, py);
                }
            },
            AllocError::Undersized => {
                lemma_pow2_double(s as int);
                lemma_embed(s, 0, 0, node);
                assert forall|px: int, py: int|
                    a.occupied(px, py) <==> node.occupied(px, py) || within(
                        px,
                        py,
                        ax as int,
                        ay as int,
                        s as int,
                    ) by {
                    lemma_covers_quadrants(a, 0, 0, px, py);
                }
            },
            AllocError::EmptyUndersized => {},
        },
    }
}

/// A square with a slot for `s` has a positive power of two for its edge,
/// and `s` is no larger.
pub proof fn lemma_slot_fits(node: Node, s: u32)
    requires
        node.shaped(),
        is_pow2(s as int),
        node.slot(s) is Some,
    ensures
        s <= node.edge(),
        is_pow2(node.edge() as int),
{
    reveal(is_pow2);
}

/// Serving the first `k` of `requests` leaves a well-formed atlas that is
/// no smaller, keeps every pixel that was reserved, and has reserved the
/// pixels of every region it handed out, none of which was reserved before.
pub proof fn lemma_packed(node: Node, requests: Seq<(u32, u32)>, k: int)
    requires
        node.wf(),
        node.serves(requests),
        0 <= k <= requests.len(),
    ensures
        node.packed(requests.take(k)).wf(),
        node.edge() <= node.packed(requests.take(k)).edge(),
        k > 0 ==> is_pow2(node.packed(requests.take(k)).edge() as int),
        forall|px: int, py: int|
            #![trigger node.occupied(px, py)]
            node.occupied(px, py) ==> node.packed(requests.take(k)).occupied(px, py),
        forall|i: int, px: int, py: int|
            #![trigger node.region(requests, i).contains(px, py)]
            0 <= i < k && node.region(requests, i).contains(px, py) ==> node.packed(
                requests.take(k),
            ).occupied(px, py) && !node.occupied(px, py),
        forall|i: int|
            #![trigger node.region(requests, i)]
            0 <= i < k ==> {
                &&& node.region(requests, i).right - node.region(requests, i).left
                    == requests[i].0
                &&& node.region(requests, i).bottom - node.region(requests, i).top
                    == requests[i].1
                &&& node.region(requests, i).right <= node.packed(requests.take(k)).edge()
                &&& node.region(requests, i).bottom <= node.packed(requests.take(k)).edge()
                &&& normalized_size(requests[i].0, requests[i].1) <= node.packed(
                    requests.take(k),
                ).edge()
            },
    decreases k,
{
    if k == 0 {
        assert(requests.take(0) =~= Seq::<(u32, u32)>::empty());
    } else {
        lemma_packed(node, requests, k - 1);
        let before = node.packed(requests.take(k - 1));
        let (w, h) = requests[k - 1];
        assert(requests.take(k).drop_last() =~= requests.take(k - 1));
        assert(requests.take(k).last() == requests[k - 1]);
        let after = node.packed(requests.take(k));
        assert(after == before.allocated(normalized_size(w, h)));
        lemma_served(before, w, h);
        let r = node.region(requests, k - 1);
        assert(r == TextureRegion::at(before.placement(normalized_size(w, h)), w, h));
        assert forall|px: int, py: int| #[trigger]
            node.occupied(px, py) implies after.occupied(px, py) by {
            assert(before.occupied(px, py));
        }
        assert forall|i: int, px: int, py: int|
            0 <= i < k && #[trigger] node.region(requests, i).contains(px, py) implies after.occupied(
                px,
                py,
            ) && !node.occupied(px, py) by {
            if i == k - 1 {
                assert(r.contains(px, py));
                assert(!before.occupied(px, py));
            } else {
                assert(before.occupied(px, py));
            }
        }
        assert forall|i: int|
            #![trigger node.region(requests, i)]
            0 <= i < k implies {
                &&& node.region(requests, i).right - node.region(requests, i).left
                    == requests[i].0
                &&& node.region(requests, i).bottom - node.region(requests, i).top
                    == requests[i].1
                &&& node.region(requests, i).right <= after.edge()
                &&& node.region(requests, i).bottom <= after.edge()
                &&& normalized_size(requests[i].0, requests[i].1) <= after.edge()
            } by {
            if i == k - 1 {
            } else {
                assert(node.region(requests, i).right <= before.edge());
            }
        }
    }
}

/// Serving one request leaves a well-formed atlas that is no smaller and
/// keeps every pixel that was reserved; the region handed out has the
/// requested extent, lies inside the atlas, and its pixels were free.
pub proof fn lemma_served(node: Node, width: u32, height: u32)
    requires
        node.wf(),
        width <= 0x8000_0000,
        height <= 0x8000_0000,
        node.grown_edge(normalized_size(width, height)) <= u32::MAX,
    ensures
        ({
            let s = normalized_size(width, height);
            let after = node.allocated(s);
            let r = TextureRegion::at(node.placement(s), width, height);
            &&& after.wf()
            &&& node.edge() <= after.edge()
            &&& is_pow2(after.edge() as int)
            &&& s <= after.edge()
            &&& r.right - r.left == width
            &&& r.bottom - r.top == height
            &&& r.right <= after.edge()
            &&& r.bottom <= after.edge()
            &&& forall|px: int, py: int|
                #![trigger node.occupied(px, py)]
                node.occupied(px, py) ==> after.occupied(px, py)
            &&& forall|px: int, py: int|
                #![trigger r.contains(px, py)]
                r.contains(px, py) ==> after.occupied(px, py) && !node.occupied(px, py)
        }),
{
    let s = normalized_size(width, height);
    let after = node.allocated(s);
    let (ax, ay) = node.placement(s);
    let r = TextureRegion::at(node.placement(s), width, height);
    lemma_normalized_size(width, height);
    lemma_allocated(node, s);
    assert forall|px: int, py: int| #[trigger] r.contains(px, py) implies after.occupied(px, py)
        && !node.occupied(px, py) by {
        assert(within(px, py, ax as int, ay as int, s as int));
    }
}

/// The edge reserved for a sprite is a power of two that is not below
/// the sprite's width or height.
pub proof fn lemma_normalized_size(width: u32, height: u32)
    requires
        width <= 0x8000_0000,
        height <= 0x8000_0000,
    ensures
        is_pow2(normalized_size(width, height) as int),
        width <= normalized_size(width, height),
        height <= normalized_size(width, height),
        normalized_size(width, height) <= 0x8000_0000,
{
    let longest = if width >= height {
        width as int
    } else {
        height as int
    };
    lemma_pow2_ceiling(longest);
    lemma_pow2_31();
    lemma_pow2_ceiling_least(longest, 0x8000_0000);
}

/// `2^31` is a power of two.
pub proof fn lemma_pow2_31()
    ensures
        is_pow2(0x8000_0000),
{
    reveal(is_pow2);
    assert(is_pow2(0x8000_0000)) by {
        reveal_with_fuel(is_pow2, 32);
    }
}

/// Any two regions that an atlas hands out while it serves `requests`
/// share no pixel.
pub proof fn lemma_regions_disjoint(node: Node, requests: Seq<(u32, u32)>, i: int, j: int)
    requires
        node.wf(),
        node.serves(requests),
        0 <= i < requests.len(),
        0 <= j < requests.len(),
        i != j,
    ensures
        node.region(requests, i).disjoint(node.region(requests, j)),
{
    let (lo, hi) = if i < j {
        (i, j)
    } else {
        (j, i)
    };
    lemma_packed(node, requests, hi);
    let before = node.packed(requests.take(hi));
    lemma_served(before, requests[hi].0, requests[hi].1);
    assert forall|px: int, py: int|
        !(#[trigger] node.region(requests, i).contains(px, py) && node.region(
            requests,
            j,
        ).contains(px, py)) by {
        if node.region(requests, lo).contains(px, py) && node.region(requests, hi).contains(
            px,
            py,
        ) {
            assert(before.occupied(px, py));
        }
    }
}

/// Every region that an atlas hands out while it serves `requests` has the
/// requested width and height, lies inside the atlas as it is in the end,
/// and touches no pixel that was reserved before; the square reserved for
/// it is no larger than that atlas.
pub proof fn lemma_regions_fit(node: Node, requests: Seq<(u32, u32)>, i: int)
    requires
        node.wf(),
        node.serves(requests),
        0 <= i < requests.len(),
    ensures
        node.region(requests, i).right - node.region(requests, i).left == requests[i].0,
        node.region(requests, i).bottom - node.region(requests, i).top == requests[i].1,
        node.region(requests, i).right <= node.packed(requests).edge(),
        node.region(requests, i).bottom <= node.packed(requests).edge(),
        requests[i].0 <= normalized_size(requests[i].0, requests[i].1),
        requests[i].1 <= normalized_size(requests[i].0, requests[i].1),
        normalized_size(requests[i].0, requests[i].1) <= node.packed(requests).edge(),
        forall|px: int, py: int|
            #![trigger node.region(requests, i).contains(px, py)]
            node.region(requests, i).contains(px, py) ==> !node.occupied(px, py)
                && node.packed(requests).occupied(px, py),
{
    lemma_packed(node, requests, requests.len() as int);
    lemma_packed(node, requests, i);
    assert(requests.take(requests.len() as int) =~= requests);
    lemma_normalized_size(requests[i].0, requests[i].1);
}

/// The atlas never shrinks while it serves `requests`, and once it has
/// served one its edge is a power of two.
pub proof fn lemma_growth_monotone(node: Node, requests: Seq<(u32, u32)>, i: int, j: int)
    requires
        node.wf(),
        node.serves(requests),
        0 <= i <= j <= requests.len(),
    ensures
        node.packed(requests.take(i)).edge() <= node.packed(requests.take(j)).edge(),
        j > 0 ==> is_pow2(node.packed(requests.take(j)).edge() as int),
    decreases j - i,
{
    lemma_packed(node, requests, j);
    if i < j {
        lemma_growth_monotone(node, requests, i, j - 1);
        lemma_packed(node, requests, j - 1);
        let before = node.packed(requests.take(j - 1));
        assert(requests.take(j).drop_last() =~= requests.take(j - 1));
        lemma_served(before, requests[j - 1].0, requests[j - 1].1);
    }
}

} // verus!
