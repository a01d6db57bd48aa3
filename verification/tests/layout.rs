use termplayer::layout::{screen_areas, Area};

fn area(x: u16, y: u16, width: u16, height: u16) -> Area {
    Area { x, y, width, height }
}

#[test]
fn usual_terminal() {
    let areas = screen_areas(area(0, 0, 80, 24));
    assert_eq!(areas.header, area(0, 0, 80, 4));
    assert_eq!(areas.list, area(0, 4, 80, 16));
    assert_eq!(areas.footer, area(0, 20, 80, 4));
}

#[test]
fn tall_screens_are_stacked() {
    for height in [12u16, 13, 14, 20, 25, 50, 199, 1_000, 5_000] {
        for (x, y, width) in [(0u16, 0u16, 80u16), (3, 7, 1), (10, 100, 0), (0, 1, 300)] {
            let areas = screen_areas(area(x, y, width, height));
            assert_eq!(areas.header, area(x, y, width, 4));
            assert_eq!(areas.list, area(x, y + 4, width, height - 8));
            assert_eq!(areas.footer, area(x, y + height - 4, width, 4));
        }
    }
}

#[test]
fn low_screens_are_shared_out() {
    for height in 0..12u16 {
        for y in [0u16, 5, 600] {
            for width in 0..150u16 {
                let areas = screen_areas(area(2, y, width, height));
                for band in [areas.header, areas.list, areas.footer] {
                    assert_eq!(band.x, 2);
                    assert_eq!(band.width, width);
                }
                assert_eq!(areas.header.y, y);
                assert_eq!(areas.list.y, areas.header.y + areas.header.height);
                assert_eq!(areas.footer.y, areas.list.y + areas.list.height);
                assert_eq!(areas.footer.y + areas.footer.height, y + height);
                assert_eq!(areas.list.height, height.min(4));
                assert!(areas.header.height <= 4);
                assert!(areas.footer.height <= 4);
            }
        }
    }
}

#[test]
fn lowest_screens() {
    assert_eq!(screen_areas(area(0, 0, 9, 0)).list, area(0, 0, 9, 0));
    assert_eq!(screen_areas(area(0, 3, 9, 2)).list, area(0, 3, 9, 2));
    assert_eq!(screen_areas(area(0, 3, 9, 4)).list, area(0, 3, 9, 4));
}
