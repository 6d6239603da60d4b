use pixed::command::Direction;
use pixed::image::{Image, Rgb};
use pixed::widget::canvas::Canvas;

fn canvas_test_image() -> Image {
    let pixels = vec![
        Rgb(237, 28, 36),
        Rgb(63, 72, 204),
        Rgb(255, 255, 255),
        Rgb(255, 255, 255),
        Rgb(255, 127, 39),
        Rgb(255, 255, 255),
        Rgb(255, 255, 255),
        Rgb(255, 255, 255),
        Rgb(255, 255, 255),
        Rgb(255, 242, 0),
    ];
    Image::new(String::from("tests/image/00.png"), 5, 2, pixels)
}

#[test]
fn test_move_cursor() {
    let img = canvas_test_image();
    let (w, h) = (img.width() as usize, img.height() as usize);
    let mut canvas = Canvas::new(img);

    assert_eq!(canvas.cursor_coord(), (0, 0));
    for _ in 0..w {
        canvas.move_cursor(Direction::Right);
    }
    for _ in 0..h {
        canvas.move_cursor(Direction::Down);
    }
    assert_eq!(canvas.cursor_coord(), (w - 1, h - 1));
}

#[test]
fn boundary_test_move_cursor_left() {
    let img = canvas_test_image();
    let mut canvas = Canvas::new(img);

    assert_eq!(canvas.cursor_coord(), (0, 0));
    canvas.move_cursor(Direction::Left);
    assert_eq!(canvas.cursor_coord(), (0, 0));
}

#[test]
fn boundary_test_move_cursor_right() {
    let img = canvas_test_image();
    let w = img.width() as usize;
    let mut canvas = Canvas::new(img);

    assert_eq!(canvas.cursor_coord(), (0, 0));
    for _ in 0..w + 10 {
        canvas.move_cursor(Direction::Right);
    }
    assert_eq!(canvas.cursor_coord(), (w - 1, 0));
}

#[test]
fn boundary_test_move_cursor_up() {
    let img = canvas_test_image();
    let mut canvas = Canvas::new(img);

    assert_eq!(canvas.cursor_coord(), (0, 0));
    canvas.move_cursor(Direction::Up);
    assert_eq!(canvas.cursor_coord(), (0, 0));
}

#[test]
fn boundary_test_move_cursor_down() {
    let img = canvas_test_image();
    let h = img.height() as usize;
    let mut canvas = Canvas::new(img);

    assert_eq!(canvas.cursor_coord(), (0, 0));
    for _ in 0..h + 10 {
        canvas.move_cursor(Direction::Down);
    }
    assert_eq!(canvas.cursor_coord(), (0, h - 1));
}

#[test]
fn test_paint_at_cursor() {
    let img = canvas_test_image();
    let mut canvas = Canvas::new(img);
    canvas.move_cursor(Direction::Right);
    canvas.move_cursor(Direction::Down);
    canvas.paint(Rgb(1, 2, 3));
    assert_eq!(canvas.image().color_at(&(1, 1)), Rgb(1, 2, 3));
    assert_eq!(canvas.image().color_at(&(0, 0)), Rgb(237, 28, 36));
}
