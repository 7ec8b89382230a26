use receiptor::scanner::Scanner;

#[test]
fn scanner_splits_on_ascii_whitespace() {
    let mut sc = Scanner::new("  receipt.png\t\n second\r\x0cthird  ");
    assert!(sc.has_next());
    assert_eq!(sc.next(), "receipt.png");
    assert_eq!(sc.next(), "second");
    assert!(sc.has_next());
    assert_eq!(sc.next(), "third");
    assert!(!sc.has_next());
}

#[test]
fn scanner_on_blank_input() {
    assert!(!Scanner::new("").has_next());
    assert!(!Scanner::new(" \n\t ").has_next());
}

#[test]
fn scanner_keeps_non_ascii_characters() {
    let mut sc = Scanner::new("/tmp/reçu.jpg\n");
    assert_eq!(sc.next(), "/tmp/reçu.jpg");
    assert!(!sc.has_next());
}
