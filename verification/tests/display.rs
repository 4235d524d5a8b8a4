use game_of_life::cli::Config;
use game_of_life::terminal::{Display, DisplayBuilder, Point, Size};

#[test]
fn test_display_builder() {
    // Happy flow
    let display = Display::builder().screen(40, 40).grid(50, 50).build();

    assert_eq!(
        display.grid,
        Size {
            width: 50,
            height: 50
        }
    );

    // Resize screen
    let display = Display::builder().screen(10, 10).grid(20, 20).build();

    assert_eq!(
        display.screen,
        Size {
            width: 30,
            height: 30
        }
    );
}

#[test]
fn test_default_cursor_centers_grid() {
    let display = Display::builder().screen(12, 12).grid(10, 10).build();
    assert_eq!(display.cursor, Point { col: 1, row: 1 });

    let cursor = DisplayBuilder::calc_default_cursor(Size::new(60, 20), Size::new(100, 40));
    assert_eq!(cursor, Point { col: 20, row: 10 });
}

#[test]
fn test_reset_cursor_restores_default() {
    let mut display = Display::builder().screen(12, 12).grid(10, 10).build();
    display.cursor = Point { col: 9, row: 7 };
    display.reset_cursor();
    assert_eq!(display.cursor, Point { col: 1, row: 1 });
}

#[test]
fn test_point_new_line() {
    let mut p = Point { col: 4, row: 2 };
    p.new_line();
    assert_eq!(p, Point { col: 4, row: 3 });
}

#[test]
fn test_builder_keeps_sizes_apart() {
    let b = DisplayBuilder::default();
    assert!(b.screen.is_none());
    assert!(b.grid.is_none());
    let b = b.screen(7, 8);
    assert_eq!(b.screen, Some(Size::new(7, 8)));
    assert!(b.grid.is_none());
    let b = b.grid(3, 4);
    assert_eq!(b.grid, Some(Size::new(3, 4)));
    assert_eq!(b.screen, Some(Size::new(7, 8)));
}

#[test]
fn test_config_lifespan() {
    let config = Config::new(60);
    assert_eq!(config.lifespan(), 60);
}
