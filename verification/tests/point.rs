use user_store::point::{FlipDirection, InputPoint, Position};

#[test]
fn horizontal_flip_negates_x() {
    let input = InputPoint {
        original_position: Position { x: 5, y: 10 },
        flip_direction: FlipDirection::Horizontal,
    };
    let output = input.flip();
    assert_eq!(output.original_position.x, 5);
    assert_eq!(output.original_position.y, 10);
    assert_eq!(output.output_position.x, -5);
    assert_eq!(output.output_position.y, 10);
    assert_eq!(output.flip_direction.as_str(), "Horizontal");
}

#[test]
fn vertical_flip_negates_y() {
    let input = InputPoint {
        original_position: Position { x: 5, y: 10 },
        flip_direction: FlipDirection::Vertical,
    };
    let output = input.flip();
    assert_eq!(output.output_position.x, 5);
    assert_eq!(output.output_position.y, -10);
    assert_eq!(output.flip_direction.as_str(), "Vertical");
}

#[test]
fn direction_names() {
    assert_eq!(FlipDirection::Horizontal.as_str(), "Horizontal");
    assert_eq!(FlipDirection::Vertical.as_str(), "Vertical");
}
