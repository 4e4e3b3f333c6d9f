use heart::graphics::sprite::packer::TextureRegion;
use heart::graphics::sprite::sheet_assembly::{copy, SheetAssembler, SpriteData};

fn solid(handle: usize, width: u32, height: u32, value: u8) -> SpriteData {
    SpriteData { handle, data: vec![value; (width * height * 4) as usize], width, height }
}

fn texel(sheet: &[u8], size: u32, x: u32, y: u32) -> [u8; 4] {
    let start = ((y * size + x) * 4) as usize;
    [sheet[start], sheet[start + 1], sheet[start + 2], sheet[start + 3]]
}

#[test]
fn copy_writes_rows_at_the_offset() {
    let mut dest = vec![0u8; 4 * 4 * 4];
    let src: Vec<u8> = (1..=16).collect();
    copy(&mut dest, 4, 1, 2, &src, 2);
    let mut expected = vec![0u8; 64];
    expected[36..44].copy_from_slice(&src[0..8]);
    expected[52..60].copy_from_slice(&src[8..16]);
    assert_eq!(dest, expected);
}

#[test]
fn copy_ignores_a_partial_row() {
    let mut dest = vec![9u8; 2 * 2 * 4];
    let src: Vec<u8> = vec![1, 2, 3, 4, 5, 6, 7, 8, 1, 1, 1];
    copy(&mut dest, 2, 0, 1, &src, 2);
    assert_eq!(dest, vec![9, 9, 9, 9, 9, 9, 9, 9, 1, 2, 3, 4, 5, 6, 7, 8]);
}

#[test]
fn copy_of_nothing_changes_nothing() {
    let mut dest = vec![7u8; 16];
    copy(&mut dest, 2, 5, 5, &[1, 2, 3, 4], 0);
    assert_eq!(dest, vec![7u8; 16]);
    copy(&mut dest, 2, 5, 5, &[], 3);
    assert_eq!(dest, vec![7u8; 16]);
}

#[test]
fn new_assembler_is_empty() {
    let assembler = SheetAssembler::new();
    assert_eq!(assembler.sheet_size(), 0);
    assert!(assembler.sheet().is_empty());
    assert_eq!(assembler.layout().size(), 0);
}

#[test]
fn a_pass_places_and_blits_every_sprite() {
    let mut assembler = SheetAssembler::new();
    let sprites = vec![solid(0, 2, 2, 10), solid(1, 1, 2, 20), solid(2, 2, 1, 30)];
    assert!(assembler.can_work(&sprites));
    let allocations = assembler.work(&sprites);
    assert_eq!(
        allocations,
        vec![
            (0, TextureRegion { left: 0, top: 0, right: 2, bottom: 2 }),
            (1, TextureRegion { left: 2, top: 0, right: 3, bottom: 2 }),
            (2, TextureRegion { left: 0, top: 2, right: 2, bottom: 3 }),
        ]
    );
    assert_eq!(assembler.sheet_size(), 4);
    let sheet = assembler.sheet();
    assert_eq!(sheet.len(), 64);
    let expected = [
        [10, 10, 20, 0],
        [10, 10, 20, 0],
        [30, 30, 0, 0],
        [0, 0, 0, 0],
    ];
    for y in 0..4 {
        for x in 0..4 {
            assert_eq!(texel(sheet, 4, x, y), [expected[y as usize][x as usize]; 4]);
        }
    }
}

#[test]
fn a_later_pass_keeps_what_the_sheet_held() {
    let mut assembler = SheetAssembler::new();
    let mut first = solid(0, 2, 2, 0);
    first.data = (0..16).collect();
    let first_data = first.data.clone();
    let first_pass = assembler.work(&vec![first]);
    assert_eq!(first_pass, vec![(0, TextureRegion { left: 0, top: 0, right: 2, bottom: 2 })]);
    assert_eq!(assembler.sheet_size(), 2);
    assert_eq!(assembler.sheet(), &first_data[..]);

    let second_pass = assembler.work(&vec![solid(1, 4, 3, 99)]);
    assert_eq!(second_pass, vec![(1, TextureRegion { left: 4, top: 0, right: 8, bottom: 3 })]);
    assert_eq!(assembler.sheet_size(), 8);
    let sheet = assembler.sheet();
    assert_eq!(sheet.len(), 8 * 8 * 4);
    for y in 0..8u32 {
        for x in 0..8u32 {
            let got = texel(sheet, 8, x, y);
            if x < 2 && y < 2 {
                let start = ((y * 2 + x) * 4) as usize;
                assert_eq!(&got[..], &first_data[start..start + 4]);
            } else if x >= 4 && y < 3 {
                assert_eq!(got, [99; 4]);
            } else {
                assert_eq!(got, [0; 4]);
            }
        }
    }
}

#[test]
fn an_empty_pass_changes_nothing() {
    let mut assembler = SheetAssembler::new();
    assembler.work(&vec![solid(0, 1, 1, 5)]);
    let before = assembler.sheet().to_vec();
    let allocations = assembler.work(&Vec::new());
    assert!(allocations.is_empty());
    assert_eq!(assembler.sheet(), &before[..]);
    assert_eq!(assembler.sheet_size(), 1);
}

#[test]
fn sprites_without_pixels_get_empty_regions() {
    let mut assembler = SheetAssembler::new();
    let allocations = assembler.work(&vec![solid(0, 0, 3, 1), solid(1, 2, 0, 1), solid(2, 1, 1, 8)]);
    assert_eq!(
        allocations,
        vec![
            (0, TextureRegion { left: 0, top: 0, right: 0, bottom: 3 }),
            (1, TextureRegion { left: 4, top: 0, right: 6, bottom: 0 }),
            (2, TextureRegion { left: 6, top: 0, right: 7, bottom: 1 }),
        ]
    );
    assert_eq!(assembler.sheet_size(), 8);
    let sheet = assembler.sheet();
    for y in 0..8 {
        for x in 0..8 {
            let expected = if (x, y) == (6, 0) { [8; 4] } else { [0; 4] };
            assert_eq!(texel(sheet, 8, x, y), expected);
        }
    }
}

#[test]
fn a_pass_is_refused_for_malformed_sprites() {
    let assembler = SheetAssembler::new();
    let mut short = solid(0, 2, 2, 1);
    short.data.pop();
    assert!(!assembler.can_work(&vec![short]));
    assert!(!assembler.can_work(&vec![SpriteData {
        handle: 0,
        data: Vec::new(),
        width: 0x8000_0001,
        height: 0,
    }]));
    assert!(assembler.can_work(&vec![solid(0, 2, 2, 1), solid(1, 3, 1, 1)]));
}
