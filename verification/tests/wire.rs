use cellar_sandbox::wire::{
    read_str, read_str_list, read_u32, read_u64, write_str, write_str_list, write_u32, write_u64,
    Read,
};

#[test]
fn numbers_are_little_endian() {
    let mut out = Vec::new();
    write_u32(&mut out, 0x0403_0201);
    assert_eq!(out, vec![1, 2, 3, 4]);
    write_u64(&mut out, 0x0807_0605_0403_0201);
    assert_eq!(out, vec![1, 2, 3, 4, 1, 2, 3, 4, 5, 6, 7, 8]);
    assert_eq!(bincode::serialize(&0x0403_0201u32).unwrap(), vec![1, 2, 3, 4]);
}

#[test]
fn numbers_are_read_back() {
    match read_u32(&[1, 2, 3, 4, 9]) {
        Read::Done(x, rest) => {
            assert_eq!(x, 0x0403_0201);
            assert_eq!(rest, &[9]);
        }
        _ => panic!("expected a number"),
    }
    match read_u64(&[1, 2, 3, 4, 5, 6, 7, 8]) {
        Read::Done(x, rest) => {
            assert_eq!(x, 0x0807_0605_0403_0201);
            assert!(rest.is_empty());
        }
        _ => panic!("expected a number"),
    }
    assert!(matches!(read_u32(&[1, 2, 3]), Read::Short));
    assert!(matches!(read_u64(&[1, 2, 3, 4, 5, 6, 7]), Read::Short));
    assert!(matches!(read_u64(&[]), Read::Short));
}

#[test]
fn text_is_written_behind_its_byte_length() {
    let mut out = Vec::new();
    write_str(&mut out, "né");
    assert_eq!(out, vec![3, 0, 0, 0, 0, 0, 0, 0, b'n', 0xc3, 0xa9]);
    assert_eq!(out, bincode::serialize("né").unwrap());
    let mut out = Vec::new();
    write_str(&mut out, "");
    assert_eq!(out, vec![0, 0, 0, 0, 0, 0, 0, 0]);
}

#[test]
fn text_is_read_back() {
    match read_str(&[3, 0, 0, 0, 0, 0, 0, 0, b'n', 0xc3, 0xa9, 1]) {
        Read::Done(text, rest) => {
            assert_eq!(text, "né");
            assert_eq!(rest, &[1]);
        }
        _ => panic!("expected a text"),
    }
    assert!(matches!(read_str(&[3, 0, 0, 0, 0, 0, 0, 0, b'n', 0xc3]), Read::Short));
    assert!(matches!(read_str(&[3, 0, 0, 0]), Read::Short));
    assert!(matches!(read_str(&[2, 0, 0, 0, 0, 0, 0, 0, b'n', 0xc3, 0xa9]), Read::Bad));
    assert!(matches!(read_str(&[1, 0, 0, 0, 0, 0, 0, 0, 0x80]), Read::Bad));
    assert!(matches!(
        read_str(&[0xff, 0xff, 0xff, 0xff, 0xff, 0xff, 0xff, 0xff, b'a']),
        Read::Short
    ));
}

#[test]
fn list_of_texts_is_written_behind_its_count() {
    let list = vec!["a".to_string(), "".to_string(), "bc".to_string()];
    let mut out = vec![0xee];
    write_str_list(&mut out, &list);
    let mut expected = vec![0xee];
    expected.extend_from_slice(&bincode::serialize(&list).unwrap());
    assert_eq!(out, expected);
    assert_eq!(
        &out[1..],
        &[
            3, 0, 0, 0, 0, 0, 0, 0, 1, 0, 0, 0, 0, 0, 0, 0, b'a', 0, 0, 0, 0, 0, 0, 0, 0, 2, 0,
            0, 0, 0, 0, 0, 0, b'b', b'c'
        ][..]
    );
}

#[test]
fn list_of_texts_is_read_back() {
    let list = vec!["a".to_string(), "".to_string(), "bc".to_string()];
    let mut out = Vec::new();
    write_str_list(&mut out, &list);
    out.push(4);
    match read_str_list(&out) {
        Read::Done(texts, rest) => {
            assert_eq!(texts, list);
            assert_eq!(rest, &[4]);
        }
        _ => panic!("expected a list"),
    }
    for kept in 0..out.len() - 1 {
        assert!(matches!(read_str_list(&out[..kept]), Read::Short));
    }
    let empty: Vec<String> = Vec::new();
    match read_str_list(&[0, 0, 0, 0, 0, 0, 0, 0]) {
        Read::Done(texts, rest) => {
            assert_eq!(texts, empty);
            assert!(rest.is_empty());
        }
        _ => panic!("expected a list"),
    }
}

#[test]
fn a_count_beyond_the_input_reads_as_short() {
    assert!(matches!(
        read_str_list(&[0xff, 0xff, 0xff, 0xff, 0xff, 0xff, 0xff, 0xff]),
        Read::Short
    ));
}
