use pinboard::error::BoardError;
use pinboard::resolver::{best_candidate, candidate, parse_dimension, resolve, scan, Candidate};

fn offer(url: &str, width: u64, height: u64) -> Candidate {
    Candidate { url: url.to_owned(), width, height }
}

#[test]
fn width_dominates_over_area() {
    let page = "<html><body>\n\
        <img src=\"http://x.com/a.png\" width=\"100\" height=\"50\">\n\
        <img src=\"http://x.com/b.png\" width=\"200\" height=\"10\">\n\
        <img src=\"http://x.com/c.png\">\n\
        </body></html>";
    assert_eq!(resolve(page), Ok("http://x.com/b.png".to_owned()));
}

#[test]
fn tags_on_one_line_are_told_apart() {
    let page = "<p><img src='http://x.com/a.jpg' width=10 height=10><img src='http://x.com/b.jpg' width=10 height=11></p>";
    assert_eq!(
        scan(page),
        vec![offer("http://x.com/a.jpg", 10, 10), offer("http://x.com/b.jpg", 10, 11)]
    );
    assert_eq!(resolve(page), Ok("http://x.com/b.jpg".to_owned()));
}

#[test]
fn a_page_without_candidates_gives_no_image_found() {
    assert_eq!(resolve(""), Err(BoardError::NoImageFound));
    assert_eq!(resolve("<html><p>no pictures</p></html>"), Err(BoardError::NoImageFound));
    assert_eq!(resolve("<img alt=\"nothing\">"), Err(BoardError::NoImageFound));
    assert_eq!(resolve("<img src=\"/relative/a.png\">"), Err(BoardError::NoImageFound));
    assert_eq!(resolve("<img src=\"http://x.com/a.svg\">"), Err(BoardError::NoImageFound));
}

#[test]
fn a_candidate_without_sizes_loses_to_one_with_a_size() {
    let page = "<img src=\"http://x.com/plain.gif\">\n<img src=\"http://x.com/sized.gif\" height=\"1\">";
    assert_eq!(resolve(page), Ok("http://x.com/sized.gif".to_owned()));
}

#[test]
fn the_first_of_equal_candidates_is_kept() {
    let page = "<img src=\"http://x.com/one.png\">\n<img src=\"http://x.com/two.png\">";
    assert_eq!(resolve(page), Ok("http://x.com/one.png".to_owned()));
    let equal = vec![offer("a", 5, 5), offer("b", 5, 5), offer("c", 4, 9)];
    assert_eq!(best_candidate(&equal), Some(0));
}

#[test]
fn scan_reads_the_address_and_the_sizes_of_each_tag() {
    let page = "<img class=\"x\" src = \"https://x.com/a.jpeg\" width = \"640\" height='480' />\n\
        <img data-src=\"http://x.com/lazy.png\">\n\
        <img src=\"http://x.com/b.png\" width=\"wide\" height=\"12px\">";
    assert_eq!(
        scan(page),
        vec![offer("https://x.com/a.jpeg", 640, 480), offer("http://x.com/b.png", 0, 12)]
    );
}

#[test]
fn best_candidate_ranks_by_width_then_height() {
    assert_eq!(best_candidate(&Vec::new()), None);
    assert_eq!(best_candidate(&vec![offer("a", 0, 0)]), Some(0));
    let list = vec![offer("a", 100, 50), offer("b", 200, 10), offer("c", 0, 0)];
    assert_eq!(best_candidate(&list), Some(1));
    let list = vec![offer("a", 7, 1), offer("b", 7, 3), offer("c", 7, 2), offer("d", 6, 99)];
    assert_eq!(best_candidate(&list), Some(1));
}

#[test]
fn parse_dimension_reads_digits_and_nothing_else() {
    assert_eq!(parse_dimension("0"), 0);
    assert_eq!(parse_dimension("42"), 42);
    assert_eq!(parse_dimension("007"), 7);
    assert_eq!(parse_dimension("18446744073709551615"), u64::MAX);
    assert_eq!(parse_dimension("18446744073709551616"), 0);
    assert_eq!(parse_dimension("99999999999999999999999"), 0);
    assert_eq!(parse_dimension(""), 0);
    assert_eq!(parse_dimension("12px"), 0);
    assert_eq!(parse_dimension("-3"), 0);
    assert_eq!(parse_dimension("٣"), 0);
}

#[test]
fn candidate_needs_the_address_of_an_image() {
    assert_eq!(
        candidate(Some("http://x.com/a.png".to_owned()), Some("3".to_owned()), None),
        Some(offer("http://x.com/a.png", 3, 0))
    );
    assert_eq!(
        candidate(Some("http://x.com/a.png".to_owned()), Some("x".to_owned()), Some("8".to_owned())),
        Some(offer("http://x.com/a.png", 0, 8))
    );
    assert_eq!(candidate(None, Some("3".to_owned()), Some("4".to_owned())), None);
    assert_eq!(candidate(Some("http://x.com/page".to_owned()), None, None), None);
    assert_eq!(candidate(Some("//x.com/a.png".to_owned()), None, None), None);
}
