use pixel_matrix_client::command::{Command, TAG_CONTIGUOUS, TAG_FILL, TAG_PIXEL, TAG_RECTANGLE};
use pixel_matrix_client::geometry::{Area, Color, Point};

const RED: Color = Color { red: 255, green: 0, blue: 0 };

#[test]
fn tags_are_the_protocol_constants() {
    assert_eq!(TAG_FILL, 1);
    assert_eq!(TAG_PIXEL, 2);
    assert_eq!(TAG_RECTANGLE, 3);
    assert_eq!(TAG_CONTIGUOUS, 4);
}

#[test]
fn tags_are_distinct() {
    let tags = [TAG_FILL, TAG_PIXEL, TAG_RECTANGLE, TAG_CONTIGUOUS];
    for i in 0..tags.len() {
        for j in 0..tags.len() {
            assert_eq!(tags[i] == tags[j], i == j);
        }
    }
}

#[test]
fn tag_of_each_command() {
    let area = Area { x: 0, y: 0, width: 0, height: 0 };
    assert_eq!(Command::Pixel { at: Point { x: 0, y: 0 }, color: RED }.tag(), TAG_PIXEL);
    assert_eq!(Command::Fill { color: RED }.tag(), TAG_FILL);
    assert_eq!(Command::Rectangle { area, color: RED }.tag(), TAG_RECTANGLE);
    assert_eq!(Command::Contiguous { area, colors: &[] }.tag(), TAG_CONTIGUOUS);
}

#[test]
fn encode_pixel() {
    let command = Command::Pixel { at: Point { x: 7, y: 9 }, color: RED };
    assert_eq!(command.encode(), vec![2, 7, 9, 255, 0, 0]);
}

#[test]
fn encode_fill() {
    let command = Command::Fill { color: Color { red: 1, green: 2, blue: 3 } };
    assert_eq!(command.encode(), vec![1, 1, 2, 3]);
}

#[test]
fn encode_rectangle() {
    let command = Command::Rectangle {
        area: Area { x: 10, y: 20, width: 30, height: 40 },
        color: Color { red: 50, green: 60, blue: 70 },
    };
    assert_eq!(command.encode(), vec![3, 10, 20, 30, 40, 50, 60, 70]);
}

#[test]
fn encode_contiguous() {
    let command = Command::Contiguous {
        area: Area { x: 1, y: 2, width: 2, height: 1 },
        colors: &[11, 12, 13, 21, 22, 23],
    };
    assert_eq!(command.encode(), vec![4, 1, 2, 2, 1, 11, 12, 13, 21, 22, 23]);
}

#[test]
fn encode_does_not_validate() {
    let command = Command::Contiguous {
        area: Area { x: 250, y: 250, width: 250, height: 250 },
        colors: &[1],
    };
    assert_eq!(command.encode(), vec![4, 250, 250, 250, 250, 1]);
}

#[test]
fn encoded_lengths() {
    let area = Area { x: 0, y: 0, width: 2, height: 3 };
    let colors = [0u8; 18];
    assert_eq!(Command::Pixel { at: Point { x: 0, y: 0 }, color: RED }.encode().len(), 1 + 5);
    assert_eq!(Command::Fill { color: RED }.encode().len(), 1 + 3);
    assert_eq!(Command::Rectangle { area, color: RED }.encode().len(), 1 + 7);
    assert_eq!(Command::Contiguous { area, colors: &colors }.encode().len(), 1 + 4 + 3 * 2 * 3);
}

#[test]
fn encode_into_appends() {
    let mut out = vec![100, 101];
    Command::Fill { color: RED }.encode_into(&mut out);
    Command::Pixel { at: Point { x: 1, y: 2 }, color: RED }.encode_into(&mut out);
    assert_eq!(out, vec![100, 101, 1, 255, 0, 0, 2, 1, 2, 255, 0, 0]);
}

#[test]
fn first_byte_is_the_tag() {
    let area = Area { x: 9, y: 9, width: 9, height: 9 };
    let commands = [
        Command::Pixel { at: Point { x: 9, y: 9 }, color: RED },
        Command::Fill { color: RED },
        Command::Rectangle { area, color: RED },
        Command::Contiguous { area, colors: &[9, 9, 9] },
    ];
    for command in commands {
        assert_eq!(command.encode()[0], command.tag());
    }
}
