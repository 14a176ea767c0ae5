use mt7603u_logic::util::copy_bytes;

#[test]
fn copy_bytes_copies_all() {
    let src = b"hello world";
    let mut dst = [0u8; 32];
    copy_bytes(&mut dst[..src.len()], src);
    assert_eq!(&dst[..src.len()], src);
}

#[test]
fn copy_bytes_partial() {
    let src = [1u8, 2, 3, 4, 5];
    let mut dst = [9u8; 8];
    copy_bytes(&mut dst[..3], &src[..3]);
    assert_eq!(&dst[..3], &[1, 2, 3]);
    assert_eq!(&dst[3..], &[9, 9, 9, 9, 9]);
}

#[test]
fn copy_bytes_empty() {
    let mut dst = [7u8; 4];
    copy_bytes(&mut dst[..0], &[]);
    assert_eq!(dst, [7, 7, 7, 7]);
}
