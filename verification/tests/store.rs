use pinboard::board::Board;
use pinboard::error::{BoardError, Phase};
use pinboard::item::{Item, ItemImage, ItemText, Scalar};
use pinboard::reference::ImageType;
use pinboard::store::{log_text, read_line, record_line, split_lines, BACKUP_NAME, CACHE_NAME, LOG_NAME};

fn num(x: f32) -> Scalar {
    Scalar { bits: x.to_bits() }
}

fn strings(lines: &[&str]) -> Vec<String> {
    lines.iter().map(|l| (*l).to_owned()).collect()
}

#[test]
fn the_store_names_its_files() {
    assert_eq!(LOG_NAME, "store.log");
    assert_eq!(BACKUP_NAME, "backup.log");
    assert_eq!(CACHE_NAME, ".cache");
}

#[test]
fn a_record_is_written_as_one_line() {
    assert_eq!(record_line("{\"Text\":1}"), "{\"Text\":1}\n");
    assert_eq!(record_line(""), "\n");
    assert_eq!(split_lines(&record_line("{\"Text\":1}")), strings(&["{\"Text\":1}"]));
}

#[test]
fn an_empty_log_has_no_line() {
    assert_eq!(log_text(&Vec::new()), "");
    assert_eq!(split_lines(""), Vec::<String>::new());
}

#[test]
fn the_log_holds_each_record_on_its_line() {
    let records = strings(&["one", "", "three"]);
    assert_eq!(log_text(&records), "one\n\nthree\n");
    assert_eq!(split_lines(&log_text(&records)), records);
}

#[test]
fn lines_end_at_line_feeds() {
    assert_eq!(split_lines("a\nb\nc"), strings(&["a", "b", "c"]));
    assert_eq!(split_lines("a\nb\nc\n"), strings(&["a", "b", "c"]));
    assert_eq!(split_lines("a\r\nb\r\n"), strings(&["a", "b"]));
    assert_eq!(split_lines("\n"), strings(&[""]));
    assert_eq!(split_lines("\n\n"), strings(&["", ""]));
    assert_eq!(split_lines("a\n\nb"), strings(&["a", "", "b"]));
    assert_eq!(split_lines("a\rb\n"), strings(&["a\rb"]));
    assert_eq!(split_lines("a\r"), strings(&["a\r"]));
    assert_eq!(split_lines("\r\n"), strings(&[""]));
    assert_eq!(split_lines("a\r\r\nb"), strings(&["a\r", "b"]));
    assert_eq!(split_lines("ünï\ncødé"), strings(&["ünï", "cødé"]));
}

#[test]
fn lines_are_the_lines_of_the_standard_library() {
    for text in ["", "a", "a\n", "\n", "a\r\n\r\nb", "x\ry\r", "\r", "one\ntwo\r\nthree\n\n"] {
        let expected: Vec<String> = text.lines().map(String::from).collect();
        assert_eq!(split_lines(text), expected);
    }
}

#[test]
fn a_line_without_a_record_is_skipped_as_invalid() {
    assert_eq!(read_line(None, Ok(1)), Err(BoardError::Deserialize));
    assert_eq!(read_line(None, Err(BoardError::Fetch)), Err(BoardError::Deserialize));
}

#[test]
fn a_text_is_read_as_it_is() {
    let item = Item::Text(ItemText::new("hello".to_owned())).with_position((num(10.0), num(10.0)));
    assert_eq!(read_line(Some(item.clone()), Err(BoardError::MediaLoad)), Ok(item.clone()));
    assert_eq!(read_line(Some(item.clone()), Ok(9)), Ok(item));
}

#[test]
fn an_image_is_read_with_its_pixels_and_its_transform() {
    let record = Item::Image(ItemImage {
        handle: None,
        position: (num(1.0), num(2.0)),
        scale: (num(3.0), num(4.0)),
        rotation: num(5.0),
        kind: ImageType::Web("http://x.com/gallery".to_owned()),
    });
    let read = read_line(Some(record), Ok(42));
    assert_eq!(
        read,
        Ok(Item::Image(ItemImage {
            handle: Some(42),
            position: (num(1.0), num(2.0)),
            scale: (num(3.0), num(4.0)),
            rotation: num(5.0),
            kind: ImageType::Web("http://x.com/gallery".to_owned()),
        }))
    );
}

#[test]
fn an_image_whose_pixels_failed_is_not_read() {
    let record = Item::Image(ItemImage {
        handle: None,
        position: (num(1.0), num(2.0)),
        scale: (num(3.0), num(4.0)),
        rotation: num(5.0),
        kind: ImageType::Online("http://x.com/a.png".to_owned()),
    });
    assert_eq!(read_line(Some(record.clone()), Err(BoardError::Fetch)), Err(BoardError::Fetch));
    assert_eq!(read_line(Some(record.clone()), Err(BoardError::Io)), Err(BoardError::Io));
    assert_eq!(read_line(Some(record), Err(BoardError::MediaLoad)), Err(BoardError::MediaLoad));
}

#[test]
fn the_kind_of_an_image_is_taken_from_its_reference() {
    let record = Item::Image(ItemImage {
        handle: None,
        position: (num(0.0), num(0.0)),
        scale: (num(1.0), num(1.0)),
        rotation: num(0.0),
        kind: ImageType::Web("http://x.com/a.png".to_owned()),
    });
    match read_line(Some(record), Ok(1)) {
        Ok(Item::Image(i)) => assert_eq!(i.kind, ImageType::Online("http://x.com/a.png".to_owned())),
        other => panic!("an image was expected, not {:?}", other),
    }
}

/// One record in the shape of the log, written without a serializer.
fn text_record(item: &Item) -> String {
    match item {
        Item::Text(t) => format!(
            "{{\"Text\":{{\"text\":\"{}\",\"position\":[{:?},{:?}]}}}}",
            t.text,
            f32::from_bits(t.position.0.bits),
            f32::from_bits(t.position.1.bits)
        ),
        Item::Image(_) => panic!("only texts are written here"),
    }
}

/// Reads what `text_record` wrote.
fn parse_text_record(line: &str) -> Option<Item> {
    let body = line.strip_prefix("{\"Text\":{\"text\":\"")?;
    let (text, rest) = body.split_once("\",\"position\":[")?;
    let (x, rest) = rest.split_once(',')?;
    let y = rest.strip_suffix("]}}")?;
    Some(
        Item::Text(ItemText::new(text.to_owned()))
            .with_position((num(x.parse().ok()?), num(y.parse().ok()?))),
    )
}

#[test]
fn a_saved_text_is_loaded_again() {
    let mut board = Board::create(Vec::new(), (num(800.0), num(600.0)));
    board.add_text("hello".to_owned());
    assert!(board.set_item_position(0, (num(10.0), num(10.0))));
    let records: Vec<String> = board.items().iter().map(text_record).collect();
    let log = log_text(&records);
    let loaded: Vec<Result<Item, BoardError>> = split_lines(&log)
        .iter()
        .map(|line| read_line(parse_text_record(line), Err(BoardError::MediaLoad)))
        .collect();
    let again = Board::create(loaded, (num(800.0), num(600.0)));
    assert_eq!(again.len(), 1);
    match again.get(0) {
        Some(Item::Text(t)) => {
            assert_eq!(t.text, "hello");
            assert_eq!(f32::from_bits(t.position.0.bits), 10.0);
            assert_eq!(f32::from_bits(t.position.1.bits), 10.0);
        }
        other => panic!("a text was expected, not {:?}", other),
    }
}

#[test]
fn a_damaged_line_does_not_keep_the_others_from_loading() {
    let log = "{\"Text\":{\"text\":\"a\",\"position\":[1.0,2.0]}}\nnot a record\n{\"Text\":{\"text\":\"b\",\"position\":[3.0,4.0]}}\n";
    let loaded: Vec<Result<Item, BoardError>> = split_lines(log)
        .iter()
        .map(|line| read_line(parse_text_record(line), Err(BoardError::MediaLoad)))
        .collect();
    assert_eq!(loaded[1], Err(BoardError::Deserialize));
    let board = Board::create(loaded, (num(1.0), num(1.0)));
    assert_eq!(board.len(), 2);
}

#[test]
fn only_the_file_system_ends_an_operation() {
    assert!(BoardError::Io.is_fatal(Phase::Startup));
    assert!(BoardError::Io.is_fatal(Phase::Save));
    assert!(!BoardError::Io.is_fatal(Phase::Load));
    assert!(!BoardError::Io.is_fatal(Phase::Add));
    for phase in [Phase::Startup, Phase::Load, Phase::Add, Phase::Save] {
        assert!(!BoardError::Fetch.is_fatal(phase));
        assert!(!BoardError::NoImageFound.is_fatal(phase));
        assert!(!BoardError::Deserialize.is_fatal(phase));
        assert!(!BoardError::MediaLoad.is_fatal(phase));
    }
}
