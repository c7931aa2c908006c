use bmpvol::discovery::BmpPaths;
use bmpvol::encoder::{encode_stack, encode_volume, pledged_size, VolumeEncoder};
use bmpvol::errors::VolumeError;

fn save_gray_bmp(path: &std::path::Path, w: u32, h: u32, data: Vec<u8>) {
    let img = image::GrayImage::from_raw(w, h, data).unwrap();
    img.save(path).unwrap();
}

const META_2X2X2: &[u8] = br#"{"xSize":2,"ySize":2,"zSize":2,"type":"uint8"}"#;

#[test]
fn test_encode_volume_header_exact() {
    let slices = vec![vec![0u8, 1, 2, 3], vec![4u8, 5, 6, 7]];
    let out = encode_volume(&slices, 2, 2, 3, 0).unwrap();
    let mut header = 0x184D2A50u32.to_le_bytes().to_vec();
    header.extend_from_slice(&(META_2X2X2.len() as u32).to_le_bytes());
    header.extend_from_slice(META_2X2X2);
    assert_eq!(&out[..header.len()], &header[..]);
}

#[test]
fn test_encode_volume_roundtrip() {
    // Slice 0 rows: [0,1] and [2,3]; slice 1 rows: [4,5] and [6,7].
    let slices = vec![vec![0u8, 1, 2, 3], vec![4u8, 5, 6, 7]];
    let out = encode_volume(&slices, 2, 2, 3, 0).unwrap();
    // The metadata frame is a zstd skippable frame, so decoding the whole
    // output yields exactly the voxel payload.
    let payload = zstd::decode_all(&out[..]).unwrap();
    assert_eq!(payload.len(), 8);
    // payload[x*h + y + z*w*h] == slice z, row y, column x
    for z in 0..2usize {
        for y in 0..2usize {
            for x in 0..2usize {
                assert_eq!(payload[x * 2 + y + z * 4], slices[z][y * 2 + x]);
            }
        }
    }
    assert_eq!(payload, vec![0, 2, 1, 3, 4, 6, 5, 7]);
}

#[test]
fn test_encode_volume_non_square() {
    // 3 wide, 2 tall: rows [0,1,2] and [3,4,5] per slice.
    let slices = vec![vec![0u8, 1, 2, 3, 4, 5], vec![10u8, 11, 12, 13, 14, 15]];
    let out = encode_volume(&slices, 3, 2, 3, 0).unwrap();
    let meta = br#"{"xSize":3,"ySize":2,"zSize":2,"type":"uint8"}"#;
    assert_eq!(&out[8..8 + meta.len()], &meta[..]);
    let payload = zstd::decode_all(&out[..]).unwrap();
    assert_eq!(payload, vec![0, 3, 1, 4, 2, 5, 10, 13, 11, 14, 12, 15]);
}

#[test]
fn test_encode_stack_non_square_bmp() {
    let dir = tempfile::tempdir().unwrap();
    save_gray_bmp(&dir.path().join("s.bmp"), 3, 2, vec![0, 1, 2, 3, 4, 5]);
    let found = BmpPaths::glob(dir.path().to_str().unwrap()).unwrap();
    let (paths, x_size, y_size) = match found {
        BmpPaths::Found {
            paths,
            x_size,
            y_size,
        } => (paths, x_size, y_size),
        BmpPaths::Empty => panic!("Expected BMPs to be found"),
    };
    assert_eq!((x_size, y_size), (3, 2));
    let out = encode_stack(&paths, x_size, y_size, 3, 0).unwrap();
    let payload = zstd::decode_all(&out[..]).unwrap();
    assert_eq!(payload, vec![0, 3, 1, 4, 2, 5]);
}

#[test]
fn test_encode_volume_twice_identical() {
    let slices = vec![vec![9u8, 8, 7, 6], vec![5u8, 4, 3, 2]];
    let a = encode_volume(&slices, 2, 2, 19, 0).unwrap();
    let b = encode_volume(&slices, 2, 2, 19, 0).unwrap();
    assert_eq!(a, b);
}

#[test]
fn test_encode_volume_empty_stack() {
    let slices: Vec<Vec<u8>> = Vec::new();
    let out = encode_volume(&slices, 2, 2, 3, 0).unwrap();
    let payload = zstd::decode_all(&out[..]).unwrap();
    assert_eq!(payload.len(), 0);
    let meta = br#"{"xSize":2,"ySize":2,"zSize":0,"type":"uint8"}"#;
    assert_eq!(&out[8..8 + meta.len()], &meta[..]);
}

#[test]
fn test_streaming_encoder_matches_one_call() {
    // Writing the header, every step's chunk and the finish tail in order
    // gives exactly the bytes of the one-call encode.
    let slices = vec![vec![0u8, 1, 2, 3], vec![4u8, 5, 6, 7], vec![8u8, 9, 10, 11]];
    let expected = encode_volume(&slices, 2, 2, 5, 0).unwrap();

    let (header, mut enc) = VolumeEncoder::begin(2, 2, 3, 5, 0).unwrap();
    let mut streamed = header;
    for s in &slices {
        streamed.extend_from_slice(&enc.step_data(s).unwrap());
    }
    streamed.extend_from_slice(&enc.finish().unwrap());
    assert_eq!(streamed, expected);

    let payload = zstd::decode_all(&streamed[..]).unwrap();
    assert_eq!(payload, vec![0, 2, 1, 3, 4, 6, 5, 7, 8, 10, 9, 11]);
}

#[test]
fn test_streaming_encoder_dimension_guard() {
    let (_header, mut enc) = VolumeEncoder::begin(2, 2, 1, 3, 0).unwrap();
    let dir = tempfile::tempdir().unwrap();
    save_gray_bmp(&dir.path().join("big.bmp"), 3, 3, vec![0; 9]);
    let path = dir.path().join("big.bmp").to_string_lossy().into_owned();
    let err = enc.step_slice(&path).unwrap_err();
    assert!(matches!(err, VolumeError::DimensionMismatch { .. }));
}

#[test]
fn test_encode_stack_from_bmp_dir() {
    let dir = tempfile::tempdir().unwrap();
    save_gray_bmp(&dir.path().join("1.bmp"), 2, 2, vec![0, 1, 2, 3]);
    save_gray_bmp(&dir.path().join("2.bmp"), 2, 2, vec![4, 5, 6, 7]);
    let found = BmpPaths::glob(dir.path().to_str().unwrap()).unwrap();
    let (paths, x_size, y_size) = match found {
        BmpPaths::Found {
            paths,
            x_size,
            y_size,
        } => (paths, x_size, y_size),
        BmpPaths::Empty => panic!("Expected BMPs to be found"),
    };
    let out = encode_stack(&paths, x_size, y_size, 22, 0).unwrap();

    let mut header = 0x184D2A50u32.to_le_bytes().to_vec();
    header.extend_from_slice(&(META_2X2X2.len() as u32).to_le_bytes());
    header.extend_from_slice(META_2X2X2);
    assert_eq!(&out[..header.len()], &header[..]);

    let payload = zstd::decode_all(&out[..]).unwrap();
    assert_eq!(payload, vec![0, 2, 1, 3, 4, 6, 5, 7]);

    // Encoding the same stack again gives byte-identical output.
    let again = encode_stack(&paths, x_size, y_size, 22, 0).unwrap();
    assert_eq!(out, again);
}

#[test]
fn test_encode_stack_single_slice() {
    // One 2x2 image gives a 2x2x1 volume of exactly 4 transposed bytes.
    let dir = tempfile::tempdir().unwrap();
    save_gray_bmp(&dir.path().join("only.bmp"), 2, 2, vec![10, 20, 30, 40]);
    let found = BmpPaths::glob(dir.path().to_str().unwrap()).unwrap();
    let (paths, x_size, y_size) = match found {
        BmpPaths::Found {
            paths,
            x_size,
            y_size,
        } => (paths, x_size, y_size),
        BmpPaths::Empty => panic!("Expected BMPs to be found"),
    };
    let out = encode_stack(&paths, x_size, y_size, 3, 0).unwrap();
    let meta = br#"{"xSize":2,"ySize":2,"zSize":1,"type":"uint8"}"#;
    assert_eq!(&out[8..8 + meta.len()], &meta[..]);
    let payload = zstd::decode_all(&out[..]).unwrap();
    assert_eq!(payload, vec![10, 30, 20, 40]);
}

#[test]
fn test_encode_stack_rejects_wrong_dimensions() {
    let dir = tempfile::tempdir().unwrap();
    save_gray_bmp(&dir.path().join("1.bmp"), 2, 2, vec![0, 1, 2, 3]);
    let paths = vec![dir
        .path()
        .join("1.bmp")
        .to_string_lossy()
        .into_owned()];
    let err = encode_stack(&paths, 3, 3, 3, 0).unwrap_err();
    assert!(matches!(err, VolumeError::DimensionMismatch { .. }));
}

#[test]
fn test_encode_stack_rejects_missing_file() {
    let dir = tempfile::tempdir().unwrap();
    let paths = vec![dir
        .path()
        .join("absent.bmp")
        .to_string_lossy()
        .into_owned()];
    let err = encode_stack(&paths, 2, 2, 3, 0).unwrap_err();
    assert!(matches!(err, VolumeError::Decode { .. }));
}

#[test]
fn test_pledged_size_exact_and_overflow() {
    assert_eq!(pledged_size(2, 2, 2).unwrap(), 8);
    assert_eq!(pledged_size(0, 7, 9).unwrap(), 0);
    assert_eq!(
        pledged_size(4294967295, 1, 4294967296).unwrap(),
        18446744069414584320
    );
    // A count of exactly 2^64 - 1 is refused too: zstd reads the all-ones
    // pledge as its unknown-size marker and would not enforce it.
    let sentinel = pledged_size(4294967295, 1, 4294967297).unwrap_err();
    assert!(matches!(sentinel, VolumeError::Config { .. }));
    let err = pledged_size(4294967295, 4294967295, 3).unwrap_err();
    assert!(matches!(err, VolumeError::Config { .. }));
}

#[test]
fn test_error_kind_tags() {
    let io = VolumeError::Io {
        msg: String::from("boom"),
    };
    assert_eq!(io.kind(), "i/o");
    let cfg = VolumeError::Config {
        msg: String::from("too big"),
    };
    assert_eq!(cfg.kind(), "config");
}
