use gcode_origin::bounds::{get_bounding_box, BoundingBox, Point};
use gcode_origin::shift::{set_origin, PostprocessConfig};
use gcode_origin::token::{letters_are, Field, Token, Value};
use gcode_origin::tracker::{Axis, Tracker};

fn field(letters: &str, n: i64) -> Token {
    Token::Field(Field { letters: letters.to_string(), value: Value::Number(n) })
}

fn text_field(letters: &str, s: &str) -> Token {
    Token::Field(Field { letters: letters.to_string(), value: Value::Text(s.to_string()) })
}

fn number_of(t: &Token) -> Option<i64> {
    match t {
        Token::Field(f) => f.value.as_number(),
        _ => None,
    }
}

fn bbox(min_x: i128, min_y: i128, max_x: i128, max_y: i128) -> BoundingBox {
    BoundingBox { min: Point { x: min_x, y: min_y }, max: Point { x: max_x, y: max_y } }
}

#[test]
fn mode_switch_tracks_positions() {
    let tokens = vec![
        Token::AbsoluteMode,
        field("X", 5),
        field("Y", 3),
        Token::RelativeMode,
        field("X", 2),
        field("Y", -1),
    ];
    let mut tracker = Tracker::new();
    let mut seen = vec![(tracker.x, tracker.y)];
    for t in &tokens {
        if tracker.step(t).is_some() {
            seen.push((tracker.x, tracker.y));
        }
    }
    assert_eq!(seen, vec![(0, 0), (5, 0), (5, 3), (7, 3), (7, 2)]);
    assert_eq!(get_bounding_box(&tokens), bbox(0, 0, 7, 3));
}

#[test]
fn m_block_is_not_motion() {
    let tokens = vec![field("G", 1), field("X", 1), field("M", 3), field("X", 99), field("G", 1), field("X", 2)];
    let mut tracker = Tracker::new();
    let mut xs = Vec::new();
    for t in &tokens {
        if tracker.step(t) == Some(Axis::X) {
            xs.push(tracker.x);
        }
    }
    assert_eq!(xs, vec![1, 2]);
    let b = get_bounding_box(&tokens);
    assert_eq!(b.max.x, 2);
    assert_eq!(b, bbox(0, 0, 2, 0));
}

#[test]
fn unterminated_m_block_skips_to_end() {
    let tokens = vec![field("X", 4), field("M", 3), field("X", 50), field("Y", -50)];
    assert_eq!(get_bounding_box(&tokens), bbox(0, 0, 4, 0));
}

#[test]
fn text_value_is_ignored() {
    let tokens = vec![field("X", 3), text_field("X", "abc"), field("Y", 4)];
    assert_eq!(get_bounding_box(&tokens), bbox(0, 0, 3, 4));
    let mut shifted = tokens.clone();
    set_origin(&mut shifted, [-10, -10]);
    assert_eq!(number_of(&shifted[0]), Some(-7));
    match &shifted[1] {
        Token::Field(f) => {
            assert_eq!(f.letters, "X");
            assert!(matches!(&f.value, Value::Text(s) if s == "abc"));
        }
        _ => panic!("the field must stay a field"),
    }
    assert_eq!(number_of(&shifted[2]), Some(-6));
}

#[test]
fn empty_stream_has_origin_box() {
    let tokens: Vec<Token> = Vec::new();
    assert_eq!(get_bounding_box(&tokens), bbox(0, 0, 0, 0));
}

#[test]
fn no_motion_stream_is_unchanged_by_shift() {
    let tokens = vec![field("G", 21), Token::Other, field("M", 5), field("F", 300), text_field("T", "a")];
    assert_eq!(get_bounding_box(&tokens), bbox(0, 0, 0, 0));
    let mut shifted = tokens.clone();
    set_origin(&mut shifted, [0, 0]);
    assert_eq!(format!("{:?}", shifted), format!("{:?}", tokens));
}

#[test]
fn scan_twice_gives_same_box() {
    let tokens = vec![field("X", -4), field("Y", 9), Token::RelativeMode, field("X", 20)];
    let a = get_bounding_box(&tokens);
    let b = get_bounding_box(&tokens);
    assert_eq!(a, b);
    assert_eq!(a, bbox(-4, 0, 16, 9));
}

#[test]
fn shift_moves_absolute_stream_to_origin() {
    let mut tokens = vec![field("X", -5), field("Y", -2), field("X", 10), field("Y", 7)];
    assert_eq!(get_bounding_box(&tokens), bbox(-5, -2, 10, 7));
    set_origin(&mut tokens, [-20, -30]);
    let values: Vec<Option<i64>> = tokens.iter().map(number_of).collect();
    assert_eq!(values, vec![Some(-20), Some(-30), Some(-5), Some(-21)]);
    let b = get_bounding_box(&tokens);
    assert_eq!(b.min, Point { x: -20, y: -30 });
}

#[test]
fn shift_keeps_relative_delta() {
    let mut tokens = vec![field("X", 2), Token::RelativeMode, field("X", 3), field("X", -1)];
    set_origin(&mut tokens, [10, 10]);
    let a = number_of(&tokens[2]).unwrap();
    let b = number_of(&tokens[3]).unwrap();
    assert_eq!(b - a, -1);
    assert_eq!((a, b), (15, 14));
}

#[test]
fn shift_leaves_other_tokens() {
    let mut tokens = vec![Token::AbsoluteMode, field("G", 1), Token::Other, field("X", 1), field("F", 7)];
    set_origin(&mut tokens, [3, 4]);
    assert!(matches!(tokens[0], Token::AbsoluteMode));
    assert_eq!(number_of(&tokens[1]), Some(1));
    assert!(matches!(tokens[2], Token::Other));
    assert_eq!(number_of(&tokens[3]), Some(4));
    assert_eq!(number_of(&tokens[4]), Some(7));
}

#[test]
fn y_absolute_keeps_x() {
    let tokens = vec![field("X", 8), field("Y", 2)];
    let mut tracker = Tracker::new();
    for t in &tokens {
        tracker.step(t);
    }
    assert_eq!((tracker.x, tracker.y), (8, 2));
}

#[test]
fn config_applies_its_origin() {
    let config = PostprocessConfig { origin: [1, 2] };
    let mut tokens = vec![field("X", 4), field("Y", 6)];
    config.apply(&mut tokens);
    assert_eq!(number_of(&tokens[0]), Some(5));
    assert_eq!(number_of(&tokens[1]), Some(8));
    assert_eq!(PostprocessConfig::default().origin, [0, 0]);
}

#[test]
fn multi_letter_fields_are_not_axes() {
    assert!(letters_are(&"X".to_string(), 'X'));
    assert!(!letters_are(&"XY".to_string(), 'X'));
    assert!(!letters_are(&"".to_string(), 'X'));
    let tokens = vec![field("XY", 9), field("x", 9)];
    assert_eq!(get_bounding_box(&tokens), bbox(0, 0, 0, 0));
}

#[test]
fn relative_sum_beyond_field_range() {
    let tokens = vec![Token::RelativeMode, field("X", i64::MAX), field("X", i64::MAX), field("Y", i64::MIN)];
    let b = get_bounding_box(&tokens);
    assert_eq!(b, bbox(0, i64::MIN as i128, 2 * (i64::MAX as i128), 0));
}

#[test]
fn largest_coordinate_shifts_to_itself() {
    let mut tokens = vec![field("X", i64::MAX), field("Y", 0)];
    set_origin(&mut tokens, [0, 0]);
    assert_eq!(number_of(&tokens[0]), Some(i64::MAX));
    assert_eq!(number_of(&tokens[1]), Some(0));
}

#[test]
fn as_number_reads_numbers_only() {
    assert_eq!(Value::Number(-3).as_number(), Some(-3));
    assert_eq!(Value::Text("1.5".to_string()).as_number(), None);
}
