use bmpvol::metadata::{build_header, format_metadata};
use bmpvol::pathsort::{bytes_le, sort_paths, str_le};
use bmpvol::transpose::transpose_slice;

#[test]
fn test_format_metadata_exact() {
    let meta = format_metadata(2, 2, 2);
    assert_eq!(&meta[..], br#"{"xSize":2,"ySize":2,"zSize":2,"type":"uint8"}"#);
}

#[test]
fn test_format_metadata_large_values() {
    let meta = format_metadata(4294967295, 1080, 18446744073709551615);
    assert_eq!(
        &meta[..],
        br#"{"xSize":4294967295,"ySize":1080,"zSize":18446744073709551615,"type":"uint8"}"#
    );
}

#[test]
fn test_build_header_layout() {
    let header = build_header(640, 480, 100);
    assert_eq!(&header[..4], &[0x50, 0x2A, 0x4D, 0x18]);
    let meta = br#"{"xSize":640,"ySize":480,"zSize":100,"type":"uint8"}"#;
    assert_eq!(&header[4..8], &(meta.len() as u32).to_le_bytes());
    assert_eq!(&header[8..], &meta[..]);
}

#[test]
fn test_transpose_slice_2x2() {
    let data = vec![0u8, 1, 2, 3];
    let mut out = vec![0u8; 4];
    transpose_slice(&data, 2, 2, &mut out);
    assert_eq!(out, vec![0, 2, 1, 3]);
}

#[test]
fn test_transpose_slice_3x2() {
    // 3 wide, 2 tall, rows [0,1,2] and [3,4,5]; column-major order walks
    // each column top to bottom: [0,3, 1,4, 2,5].
    let data = vec![0u8, 1, 2, 3, 4, 5];
    let mut out = vec![0u8; 6];
    transpose_slice(&data, 3, 2, &mut out);
    assert_eq!(out, vec![0, 3, 1, 4, 2, 5]);
}

#[test]
fn test_bytes_le_order() {
    assert!(bytes_le(b"", b""));
    assert!(bytes_le(b"", b"a"));
    assert!(!bytes_le(b"a", b""));
    assert!(bytes_le(b"abc", b"abd"));
    assert!(!bytes_le(b"abd", b"abc"));
    assert!(bytes_le(b"ab", b"abc"));
    assert!(str_le("1.bmp", "10.bmp"));
    assert!(str_le("10.bmp", "2.bmp"));
}

#[test]
fn test_sort_paths_sorts_and_keeps_all() {
    let v = vec![
        String::from("b.bmp"),
        String::from("a.bmp"),
        String::from("a.bmp"),
        String::from("10.bmp"),
    ];
    let sorted = sort_paths(&v);
    assert_eq!(
        sorted,
        vec![
            String::from("10.bmp"),
            String::from("a.bmp"),
            String::from("a.bmp"),
            String::from("b.bmp"),
        ]
    );
}
