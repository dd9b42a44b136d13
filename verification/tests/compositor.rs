use bouncy::compositor::draw_at;
use bouncy::types::PixelCoords;

fn grid(width: usize, height: usize, fill: u32) -> Vec<u32> {
    vec![fill; width * height]
}

#[test]
fn sprite_inside_viewport_is_copied() {
    let mut buffer = grid(4, 3, 0);
    draw_at(&mut buffer, 4, 3, vec![vec![1, 2], vec![3, 4]], &PixelCoords { x: 1, y: 1 });
    assert_eq!(buffer, vec![0, 0, 0, 0, 0, 1, 2, 0, 0, 3, 4, 0]);
}

#[test]
fn sprite_over_right_and_bottom_edge_is_clipped() {
    let mut buffer = grid(4, 3, 9);
    draw_at(
        &mut buffer,
        4,
        3,
        vec![vec![1, 2, 3], vec![4, 5, 6], vec![7, 8, 0]],
        &PixelCoords { x: 2, y: 1 },
    );
    assert_eq!(buffer, vec![9, 9, 9, 9, 9, 9, 1, 2, 9, 9, 4, 5]);
}

#[test]
fn sprite_over_left_and_top_edge_is_clipped() {
    let mut buffer = grid(4, 3, 9);
    draw_at(
        &mut buffer,
        4,
        3,
        vec![vec![1, 2, 3], vec![4, 5, 6], vec![7, 8, 0]],
        &PixelCoords { x: -1, y: -2 },
    );
    assert_eq!(buffer, vec![8, 0, 9, 9, 9, 9, 9, 9, 9, 9, 9, 9]);
}

#[test]
fn clipped_columns_do_not_wrap_into_the_next_row() {
    let mut buffer = grid(3, 2, 0);
    draw_at(&mut buffer, 3, 2, vec![vec![1, 2]], &PixelCoords { x: 2, y: 0 });
    assert_eq!(buffer, vec![0, 0, 1, 0, 0, 0]);
}

#[test]
fn sprite_outside_viewport_changes_nothing() {
    let before = grid(4, 3, 5);
    for &(x, y) in [(4i64, 0i64), (0, 3), (-2, 0), (0, -2), (100, 100), (-100, -100)].iter() {
        let mut buffer = before.clone();
        draw_at(&mut buffer, 4, 3, vec![vec![1, 2], vec![3, 4]], &PixelCoords { x, y });
        assert_eq!(buffer, before);
    }
}

#[test]
fn extreme_anchor_changes_nothing() {
    let before = grid(2, 2, 5);
    let corners = [
        (i64::MAX, i64::MAX),
        (i64::MIN, i64::MIN),
        (i64::MAX, 0),
        (0, i64::MIN),
    ];
    for &(x, y) in corners.iter() {
        let mut buffer = before.clone();
        draw_at(&mut buffer, 2, 2, vec![vec![1, 2], vec![3, 4]], &PixelCoords { x, y });
        assert_eq!(buffer, before);
    }
}

#[test]
fn ragged_rows_paint_only_their_own_cells() {
    let mut buffer = grid(4, 3, 9);
    draw_at(
        &mut buffer,
        4,
        3,
        vec![vec![1, 2, 3], vec![], vec![4]],
        &PixelCoords { x: 0, y: 0 },
    );
    assert_eq!(buffer, vec![1, 2, 3, 9, 9, 9, 9, 9, 4, 9, 9, 9]);
}

#[test]
fn zero_cells_are_painted_too() {
    let mut buffer = grid(2, 1, 7);
    draw_at(&mut buffer, 2, 1, vec![vec![0, 3]], &PixelCoords { x: 0, y: 0 });
    assert_eq!(buffer, vec![0, 3]);
}

#[test]
fn empty_sprite_changes_nothing() {
    let mut buffer = grid(2, 2, 7);
    draw_at(&mut buffer, 2, 2, Vec::new(), &PixelCoords { x: 0, y: 0 });
    assert_eq!(buffer, vec![7, 7, 7, 7]);
}

#[test]
fn pixels_behind_the_viewport_are_kept() {
    let mut buffer = vec![0, 0, 0, 0, 8, 8];
    draw_at(&mut buffer, 2, 2, vec![vec![1, 1], vec![1, 1], vec![1, 1]], &PixelCoords { x: 0, y: 0 });
    assert_eq!(buffer, vec![1, 1, 1, 1, 8, 8]);
}

#[test]
fn empty_viewport_is_left_alone() {
    let mut buffer: Vec<u32> = Vec::new();
    draw_at(&mut buffer, 0, 5, vec![vec![1]], &PixelCoords { x: 0, y: 0 });
    assert!(buffer.is_empty());
    let mut buffer = vec![3, 3];
    draw_at(&mut buffer, 0, 0, vec![vec![1]], &PixelCoords { x: 0, y: 0 });
    assert_eq!(buffer, vec![3, 3]);
}

#[test]
fn later_sprite_covers_earlier_one() {
    let mut buffer = grid(3, 1, 0);
    draw_at(&mut buffer, 3, 1, vec![vec![1, 1]], &PixelCoords { x: 0, y: 0 });
    draw_at(&mut buffer, 3, 1, vec![vec![2, 2]], &PixelCoords { x: 1, y: 0 });
    assert_eq!(buffer, vec![1, 2, 2]);
}
