use dofi::diff::{diff_chunks, Verdict, BUF_SIZE};
use dofi::text::{same_bytes, same_text, starts_with};

#[test]
fn buffer_is_four_kibibytes() {
    assert_eq!(BUF_SIZE, 4096);
}

#[test]
fn empty_chunks_on_both_sides_are_the_same() {
    assert_eq!(diff_chunks(&[], &[]), Verdict::Same);
}

#[test]
fn equal_chunks_leave_it_undecided() {
    assert_eq!(diff_chunks(&[1, 2, 3], &[1, 2, 3]), Verdict::Undecided);
    let full = vec![9u8; BUF_SIZE];
    assert_eq!(diff_chunks(&full, &full.clone()), Verdict::Undecided);
}

#[test]
fn chunks_of_different_lengths_are_different() {
    assert_eq!(diff_chunks(&[1, 2, 3], &[1, 2]), Verdict::Different);
    assert_eq!(diff_chunks(&[1, 2], &[1, 2, 3]), Verdict::Different);
    assert_eq!(diff_chunks(&[], &[0]), Verdict::Different);
    assert_eq!(diff_chunks(&[0], &[]), Verdict::Different);
}

#[test]
fn chunks_with_one_different_byte_are_different() {
    assert_eq!(diff_chunks(&[1, 2, 3], &[1, 2, 4]), Verdict::Different);
    assert_eq!(diff_chunks(&[0, 2, 3], &[1, 2, 3]), Verdict::Different);
}

#[test]
fn chunk_verdict_is_symmetric_and_reflexive() {
    let chunks: [&[u8]; 5] = [&[], &[1], &[2], &[1, 2], &[1, 3]];
    for a in chunks {
        assert_ne!(diff_chunks(a, a), Verdict::Different);
        for b in chunks {
            assert_eq!(diff_chunks(a, b), diff_chunks(b, a));
        }
    }
}

#[test]
fn same_bytes_compares_every_byte() {
    assert!(same_bytes(&[], &[]));
    assert!(same_bytes(b"abc", b"abc"));
    assert!(!same_bytes(b"abc", b"abd"));
    assert!(!same_bytes(b"abc", b"ab"));
    assert!(!same_bytes(b"", b"a"));
}

#[test]
fn same_text_compares_every_character() {
    assert!(same_text("", ""));
    assert!(same_text("caf\u{e9}", "caf\u{e9}"));
    assert!(!same_text("cafe", "caf\u{e9}"));
    assert!(!same_text("a", "ab"));
}

#[test]
fn starts_with_finds_prefixes_only() {
    assert!(starts_with("/home/u/x", "/home/u"));
    assert!(starts_with("/home/u", "/home/u"));
    assert!(starts_with("anything", ""));
    assert!(!starts_with("/home", "/home/u"));
    assert!(!starts_with("/opt/home/u", "/home/u"));
    assert!(starts_with("\u{e9}t\u{e9}", "\u{e9}"));
    assert!(!starts_with("\u{e9}t\u{e9}", "e"));
}
