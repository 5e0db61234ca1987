use text_converter::{converted_path, ReverseText, TextConverter};

#[test]
fn reverse_conversion() {
    let text = "Hello World!";
    let reverse_text = ReverseText::new_from_text(text);
    assert_eq!("!dlroW olleH", reverse_text);
}

#[test]
fn from_text_matches_converter() {
    for s in ["", "a", "Hello World!", "héllo wörld", "two\nlines"] {
        assert_eq!(ReverseText::new_from_text(s), ReverseText::converter(s));
    }
}

#[test]
fn from_text_owned_string() {
    let owned = String::from("abc");
    assert_eq!(ReverseText::new_from_text(&owned), "cba");
}

#[test]
fn empty_clipboard_converts_empty_text() {
    assert_eq!(ReverseText::new_from_clipboard_text(None), ReverseText::converter(""));
    assert_eq!(ReverseText::new_from_clipboard_text(None), "");
}

#[test]
fn clipboard_text_is_converted() {
    let fetched = Some(String::from("Hello World!"));
    assert_eq!(ReverseText::new_from_clipboard_text(fetched), "!dlroW olleH");
}

#[test]
fn path_with_one_dot() {
    assert_eq!(converted_path("notes.txt"), "notes_converted.md");
}

#[test]
fn path_with_several_dots_keeps_first_segment() {
    assert_eq!(converted_path("archive.tar.gz"), "archive_converted.md");
}

#[test]
fn path_without_dot() {
    assert_eq!(converted_path("README"), "README_converted.md");
}

#[test]
fn path_empty_or_leading_dot() {
    assert_eq!(converted_path(""), "_converted.md");
    assert_eq!(converted_path(".hidden"), "_converted.md");
}

#[test]
fn path_directory_dots_count_too() {
    assert_eq!(converted_path("./notes.txt"), "_converted.md");
    assert_eq!(converted_path("docs/notes.txt"), "docs/notes_converted.md");
}

#[test]
fn path_with_non_ascii_characters() {
    assert_eq!(converted_path("été.txt"), "été_converted.md");
}

#[test]
fn file_text_conversion_and_output_path() {
    let r = ReverseText::new_from_file_text("notes.txt", "Hello World!");
    assert_eq!(r.output, "!dlroW olleH");
    assert_eq!(r.output_path, "notes_converted.md");
    let r = ReverseText::new_from_file_text("archive.tar.gz", "");
    assert_eq!(r.output, "");
    assert_eq!(r.output_path, "archive_converted.md");
}

#[test]
fn reverse_twice_gives_the_input_back() {
    for s in ["", "a", "Hello World!", "héllo wörld"] {
        let twice = ReverseText::converter(&ReverseText::converter(s));
        assert_eq!(twice, s);
    }
}

#[test]
fn reverse_non_ascii_text() {
    assert_eq!(ReverseText::new_from_text("héllo→"), "→olléh");
}
