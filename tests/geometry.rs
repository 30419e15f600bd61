use inkframe::geometry::place;
use inkframe::ingest::thumbnail_dimensions;

#[test]
fn landscape_source_letterboxed_in_square() {
    let p = place(1000, 800, 500, 500);
    assert_eq!(p.width, 500);
    assert_eq!(p.height, 400);
    assert_eq!(p.offset_x, 0);
    assert_eq!(p.offset_y, 50);
}

#[test]
fn small_source_is_upscaled() {
    let p = place(100, 50, 400, 400);
    assert_eq!((p.width, p.height), (400, 200));
    assert_eq!((p.offset_x, p.offset_y), (0, 100));
}

#[test]
fn portrait_source_pillarboxed() {
    let p = place(600, 800, 800, 480);
    // scale = min(800/600, 480/800) = 0.6
    assert_eq!((p.width, p.height), (360, 480));
    assert_eq!((p.offset_x, p.offset_y), (220, 0));
}

#[test]
fn scaled_side_rounds_half_up() {
    // scale 3/2: 1 * 1.5 = 1.5 rounds to 2
    let p = place(2, 1, 3, 3);
    assert_eq!((p.width, p.height), (3, 2));
    assert_eq!((p.offset_x, p.offset_y), (0, 0));
}

#[test]
fn odd_leftover_goes_to_trailing_edge() {
    let p = place(3, 2, 2, 2);
    assert_eq!((p.width, p.height), (2, 1));
    assert_eq!(p.offset_y, 0);
    let q = place(10, 10, 7, 4);
    assert_eq!((q.width, q.height), (4, 4));
    assert_eq!(q.offset_x, 1);
}

#[test]
fn empty_source_places_nothing() {
    let p = place(0, 10, 4, 6);
    assert_eq!((p.width, p.height, p.offset_x, p.offset_y), (0, 0, 2, 3));
}

#[test]
fn largest_sides_do_not_overflow() {
    let p = place(u32::MAX, 1, u32::MAX, u32::MAX);
    assert_eq!((p.width, p.height), (u32::MAX, 1));
    let q = place(1, 1, u32::MAX, 2);
    assert_eq!((q.width, q.height), (2, 2));
}

#[test]
fn placement_fits_and_centers_over_a_grid() {
    for sw in 0..12u32 {
        for sh in 0..12u32 {
            for tw in 1..9u32 {
                for th in 1..9u32 {
                    let p = place(sw, sh, tw, th);
                    assert!(p.width <= tw && p.height <= th);
                    let cx = 2 * p.offset_x + p.width;
                    let cy = 2 * p.offset_y + p.height;
                    assert!(cx == tw || cx == tw - 1);
                    assert!(cy == th || cy == th - 1);
                }
            }
        }
    }
}

#[test]
fn thumbnail_fits_square_bound() {
    assert_eq!(thumbnail_dimensions(1000, 800), (512, 410));
    assert_eq!(thumbnail_dimensions(100, 100), (512, 512));
    assert_eq!(thumbnail_dimensions(10000, 1), (512, 1));
    assert_eq!(thumbnail_dimensions(0, 0), (1, 1));
}
