use atomic_server::canonical::{canonical_lines, join, sort_lines, split_lines, text_le_exec};

#[test]
fn lines_are_sorted_and_terminated() {
    assert_eq!(canonical_lines("<b> <p> \"2\" .\n<a> <p> \"1\" .\n"), "<a> <p> \"1\" .\n<b> <p> \"2\" .\n");
    assert_eq!(canonical_lines("b\na"), "a\nb\n");
    assert_eq!(canonical_lines(""), "");
}

#[test]
fn same_lines_in_any_order_give_same_bytes() {
    let one = canonical_lines("x\ny\nz\n");
    let two = canonical_lines("z\nx\ny\n");
    let three = canonical_lines("y\nz\nx");
    assert_eq!(one, two);
    assert_eq!(two, three);
    assert_eq!(one, "x\ny\nz\n");
}

#[test]
fn duplicate_and_empty_lines_are_kept() {
    assert_eq!(canonical_lines("b\n\nb\na\n"), "\na\nb\nb\n");
}

#[test]
fn split_sort_join_pieces() {
    let lines = split_lines("b\nab\na\n");
    assert_eq!(lines, vec![vec!['b'], vec!['a', 'b'], vec!['a']]);
    let sorted = sort_lines(lines);
    assert_eq!(sorted, vec![vec!['a'], vec!['a', 'b'], vec!['b']]);
    assert_eq!(join(&sorted), "a\nab\nb\n");
}

#[test]
fn text_order_is_lexicographic() {
    assert!(text_le_exec(&vec!['a'], &vec!['a', 'b']));
    assert!(!text_le_exec(&vec!['b'], &vec!['a', 'z']));
    assert!(text_le_exec(&vec![], &vec![]));
}
