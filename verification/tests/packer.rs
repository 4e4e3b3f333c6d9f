use heart::graphics::sprite::packer::{AllocError, Node, TextureRegion};

fn region(left: u32, top: u32, right: u32, bottom: u32) -> TextureRegion {
    TextureRegion { left, top, right, bottom }
}

fn overlap(a: &TextureRegion, b: &TextureRegion) -> bool {
    a.left < b.right && b.left < a.right && a.top < b.bottom && b.top < a.bottom
}

#[test]
fn fresh_atlas_has_no_size() {
    assert_eq!(Node::empty().size(), 0);
}

#[test]
fn four_squares_then_a_larger_one() {
    let mut atlas = Node::empty();
    let mut sizes = Vec::new();
    let mut regions = Vec::new();
    for (w, h) in [(16, 16), (16, 16), (16, 16), (16, 16), (32, 32)] {
        assert!(atlas.can_allocate(w, h));
        regions.push(atlas.allocate(w, h));
        sizes.push(atlas.size());
    }
    assert_eq!(sizes, vec![16, 32, 32, 32, 64]);
    assert_eq!(
        regions,
        vec![
            region(0, 0, 16, 16),
            region(16, 0, 32, 16),
            region(0, 16, 16, 32),
            region(16, 16, 32, 32),
            region(32, 0, 64, 32),
        ]
    );
    for i in 0..regions.len() {
        assert!(regions[i].right <= 64 && regions[i].bottom <= 64);
        for j in 0..i {
            assert!(!overlap(&regions[i], &regions[j]));
        }
    }
}

#[test]
fn sprite_takes_the_corner_of_its_square() {
    let mut atlas = Node::empty();
    assert_eq!(atlas.allocate(5, 3), region(0, 0, 5, 3));
    assert_eq!(atlas.size(), 8);
    assert_eq!(atlas.allocate(3, 2), region(8, 0, 11, 2));
    assert_eq!(atlas.size(), 16);
    // the second sprite took a 4 by 4 square of the top-right quadrant
    assert_eq!(atlas.allocate(4, 4), region(12, 0, 16, 4));
    assert_eq!(atlas.allocate(1, 1), region(8, 4, 9, 5));
}

#[test]
fn larger_request_re_embeds_the_atlas() {
    let mut atlas = Node::empty();
    assert_eq!(atlas.allocate(4, 4), region(0, 0, 4, 4));
    assert_eq!(atlas.allocate(16, 10), region(16, 0, 32, 10));
    assert_eq!(atlas.size(), 32);
    // the old atlas sits in the top-left corner; free space around it is used next
    assert_eq!(atlas.allocate(4, 4), region(4, 0, 8, 4));
    assert_eq!(atlas.allocate(8, 8), region(8, 0, 16, 8));
    assert_eq!(atlas.allocate(16, 16), region(0, 16, 16, 32));
}

#[test]
fn empty_sprite_still_takes_a_pixel() {
    let mut atlas = Node::empty();
    assert_eq!(atlas.allocate(0, 0), region(0, 0, 0, 0));
    assert_eq!(atlas.size(), 1);
    assert_eq!(atlas.allocate(0, 0), region(1, 0, 1, 0));
    assert_eq!(atlas.size(), 2);
}

#[test]
fn try_alloc_reports_why_it_failed() {
    let mut leaf = Node::leaf(8);
    assert!(matches!(leaf.try_alloc(8), Err(AllocError::Occupied)));
    assert!(matches!(leaf.try_alloc(4), Err(AllocError::Occupied)));
    assert!(matches!(leaf.try_alloc(16), Err(AllocError::Undersized)));
    let mut free = Node::Empty { size: 4, x: 2, y: 6 };
    assert!(matches!(free.try_alloc(8), Err(AllocError::EmptyUndersized)));
    assert!(matches!(free.try_alloc(4), Ok((2, 6))));
    assert!(matches!(free, Node::Leaf { size: 4 }));
    let mut quad = Node::subdivided(8);
    assert!(matches!(quad.try_alloc(8), Err(AllocError::Occupied)));
    assert!(matches!(quad.try_alloc(16), Err(AllocError::Undersized)));
    assert!(matches!(quad.try_alloc(4), Ok((0, 0))));
    assert!(matches!(quad.try_alloc(4), Ok((4, 0))));
    assert!(matches!(quad.try_alloc(2), Ok((0, 4))));
    assert!(matches!(quad.try_alloc(4), Ok((4, 4))));
    assert!(matches!(quad.try_alloc(4), Err(AllocError::Occupied)));
    assert!(matches!(quad.try_alloc(2), Ok((2, 4))));
}

#[test]
fn empty_alloc_splits_down_to_the_request() {
    let mut free = Node::Empty { size: 8, x: 8, y: 0 };
    assert_eq!(free.empty_alloc(2), (8, 0));
    assert_eq!(free.size(), 8);
    assert!(free.has_slot(4));
    assert!(matches!(free.try_alloc(4), Ok((12, 0))));
    assert!(matches!(free.try_alloc(2), Ok((10, 0))));
}

#[test]
fn realloc_keeps_the_corner() {
    let mut free = Node::Empty { size: 16, x: 16, y: 32 };
    free.realloc(Node::leaf(4));
    assert_eq!(free.size(), 16);
    assert!(matches!(free.try_alloc(4), Ok((20, 32))));
    assert!(matches!(free.try_alloc(8), Ok((24, 32))));
    assert!(matches!(free.try_alloc(8), Ok((16, 40))));
}

#[test]
fn cannot_allocate_past_the_integer_range() {
    let mut atlas = Node::empty();
    assert!(!atlas.can_allocate(0x8000_0001, 1));
    assert!(atlas.can_allocate(0x8000_0000, 1));
    atlas.allocate(0x4000_0000, 1);
    assert!(atlas.can_allocate(0x4000_0000, 1));
    atlas.allocate(0x4000_0000, 1);
    assert_eq!(atlas.size(), 0x8000_0000);
    assert!(atlas.can_allocate(0x4000_0000, 1));
    assert!(!atlas.can_allocate(0x8000_0000, 1));
}

#[test]
fn try_allocate_refuses_and_keeps_the_atlas() {
    let mut atlas = Node::empty();
    assert_eq!(atlas.try_allocate(0x8000_0000, 7), Some(region(0, 0, 0x8000_0000, 7)));
    assert_eq!(atlas.size(), 0x8000_0000);
    assert_eq!(atlas.try_allocate(1, 1), None);
    assert_eq!(atlas.size(), 0x8000_0000);
    assert_eq!(atlas.try_allocate(0x8000_0001, 1), None);
}

#[test]
fn a_copy_of_the_atlas_allocates_alike() {
    let mut atlas = Node::empty();
    atlas.allocate(3, 3);
    atlas.allocate(2, 2);
    let mut copy = atlas.clone();
    assert_eq!(copy.size(), atlas.size());
    for _ in 0..20 {
        assert_eq!(copy.allocate(2, 1), atlas.allocate(2, 1));
        assert_eq!(copy.size(), atlas.size());
    }
}

#[test]
fn many_sprites_stay_apart_and_inside() {
    let mut atlas = Node::empty();
    let mut regions: Vec<TextureRegion> = Vec::new();
    let mut last_size = 0;
    for i in 0..200u32 {
        let w = 1 + (i * 7) % 23;
        let h = 1 + (i * 13) % 17;
        let r = atlas.allocate(w, h);
        assert_eq!(r.right - r.left, w);
        assert_eq!(r.bottom - r.top, h);
        assert!(atlas.size() >= last_size);
        assert!(atlas.size().is_power_of_two());
        assert!(atlas.size() >= w.max(h).next_power_of_two());
        last_size = atlas.size();
        for other in &regions {
            assert!(!overlap(&r, other));
        }
        regions.push(r);
    }
    for r in &regions {
        assert!(r.right <= atlas.size() && r.bottom <= atlas.size());
    }
}
