use gutenberg_downloader::naming::{book_filename, book_url, push_decimal};

#[test]
fn url_for_seven_names_the_id_twice() {
    assert_eq!(book_url(7), "https://www.gutenberg.org/cache/epub/7/pg7.txt");
}

#[test]
fn url_for_multi_digit_id() {
    assert_eq!(book_url(100), "https://www.gutenberg.org/cache/epub/100/pg100.txt");
}

#[test]
fn filename_for_ids() {
    assert_eq!(book_filename(1), "book_1.txt");
    assert_eq!(book_filename(42), "book_42.txt");
    assert_eq!(book_filename(100), "book_100.txt");
}

#[test]
fn decimal_edge_values() {
    let mut s = String::from("n=");
    push_decimal(&mut s, 0);
    assert_eq!(s, "n=0");
    let mut s = String::new();
    push_decimal(&mut s, 10);
    assert_eq!(s, "10");
    let mut s = String::new();
    push_decimal(&mut s, u32::MAX);
    assert_eq!(s, "4294967295");
}

#[test]
fn distinct_ids_distinct_filenames() {
    assert_ne!(book_filename(1), book_filename(11));
    assert_ne!(book_filename(12), book_filename(21));
}
