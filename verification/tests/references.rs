use pinboard::reference::{is_direct_image, name_from_path, ImageType};

#[test]
fn classifies_the_four_kinds_of_text() {
    assert_eq!(
        ImageType::classify("http://x.com/a.png"),
        Some(ImageType::Online("http://x.com/a.png".to_owned()))
    );
    assert_eq!(
        ImageType::classify("http://x.com/page.html"),
        Some(ImageType::Web("http://x.com/page.html".to_owned()))
    );
    assert_eq!(
        ImageType::classify("/home/u/pic.png"),
        Some(ImageType::Local("/home/u/pic.png".to_owned()))
    );
    assert_eq!(ImageType::classify("just some text"), None);
}

#[test]
fn type_from_argument_gives_an_empty_local_path_to_other_text() {
    assert_eq!(
        ImageType::type_from_argument("http://x.com/a.png"),
        ImageType::Online("http://x.com/a.png".to_owned())
    );
    assert_eq!(
        ImageType::type_from_argument("https://x.com/page.html"),
        ImageType::Web("https://x.com/page.html".to_owned())
    );
    assert_eq!(
        ImageType::type_from_argument("/home/u/pic.png"),
        ImageType::Local("/home/u/pic.png".to_owned())
    );
    assert_eq!(
        ImageType::type_from_argument("just some text"),
        ImageType::Local(String::new())
    );
    assert_eq!(ImageType::type_from_argument(""), ImageType::Local(String::new()));
}

#[test]
fn every_raster_extension_makes_a_direct_image() {
    assert!(is_direct_image("http://x.com/a.png"));
    assert!(is_direct_image("http://x.com/a.jpg"));
    assert!(is_direct_image("https://x.com/a.jpeg"));
    assert!(is_direct_image("https://x.com/a.gif"));
    assert!(!is_direct_image("https://x.com/a.webp"));
    assert!(!is_direct_image("https://x.com/a.png?size=2"));
    assert!(!is_direct_image("/home/u/a.png"));
    assert!(!is_direct_image("ftp://x.com/a.png"));
    assert!(!is_direct_image(".png"));
}

#[test]
fn argument_is_the_reference_as_given() {
    assert_eq!(ImageType::Web("http://a/b".to_owned()).argument(), "http://a/b");
    assert_eq!(ImageType::Online("http://a/b.gif".to_owned()).argument(), "http://a/b.gif");
    assert_eq!(ImageType::Local("/a/b".to_owned()).argument(), "/a/b");
}

#[test]
fn classifying_an_argument_again_gives_the_same_kind() {
    for text in ["http://x.com/a.png", "http://x.com/", "/pic.gif", "nothing", ""] {
        let kind = ImageType::type_from_argument(text);
        assert_eq!(ImageType::type_from_argument(kind.argument()), kind);
    }
}

#[test]
fn cache_name_is_the_last_segment() {
    assert_eq!(name_from_path("http://x.com/dir/a.png"), "a.png");
    assert_eq!(name_from_path("plain"), "plain");
    assert_eq!(name_from_path("/trailing/"), "");
    assert_eq!(name_from_path(""), "");
    assert_eq!(name_from_path("/"), "");
    assert_eq!(name_from_path("http://x.com/a.png?w=1"), "a.png?w=1");
    assert_eq!(name_from_path("/höme/ü/bild.png"), "bild.png");
}

#[test]
fn cache_key_of_a_kind_is_the_name_of_its_argument() {
    assert_eq!(ImageType::Online("http://x.com/a/b.jpg".to_owned()).cache_key(), "b.jpg");
    assert_eq!(ImageType::Web("http://x.com/gallery".to_owned()).cache_key(), "gallery");
    assert_eq!(ImageType::Local("/tmp/c.gif".to_owned()).cache_key(), "c.gif");
    assert_eq!(ImageType::Local(String::new()).cache_key(), "");
}

#[test]
fn clone_of_a_kind_is_equal_to_it() {
    let kind = ImageType::Web("http://x.com/".to_owned());
    assert_eq!(kind.clone(), kind);
}
