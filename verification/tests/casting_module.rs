use briny::casting::{cast, from_bytes, from_bytes_unaligned, slice_from_bytes,
    slice_from_bytes_copy_into, slice_to_bytes, to_bytes, Pod};

/// A same-size float carrier, so casts can pass through `f32` bit
/// patterns.
#[derive(Copy, Clone, Debug, PartialEq)]
struct Float32(f32);

impl Pod for Float32 {
    fn size() -> usize {
        4
    }

    fn align() -> usize {
        4
    }

    fn is_valid_bitpattern(_bytes: &[u8]) -> bool {
        true
    }

    fn write_bytes(&self) -> Vec<u8> {
        self.0.to_le_bytes().to_vec()
    }

    fn read_bytes(bytes: &[u8]) -> Self {
        Float32(f32::from_le_bytes(bytes[0..4].try_into().unwrap()))
    }
}

#[derive(Copy, Clone, Debug, PartialEq)]
struct ThePod {
    a: u16,
    b: u32,
}

impl Pod for ThePod {
    fn size() -> usize {
        8
    }

    fn align() -> usize {
        8
    }

    fn is_valid_bitpattern(bytes: &[u8]) -> bool {
        bytes.len() == 8
    }

    fn write_bytes(&self) -> Vec<u8> {
        let mut v = Vec::new();
        v.extend_from_slice(&self.a.to_le_bytes());
        v.extend_from_slice(&[0u8; 2]);
        v.extend_from_slice(&self.b.to_le_bytes());
        v
    }

    fn read_bytes(bytes: &[u8]) -> Self {
        let a = u16::from_le_bytes(bytes[0..2].try_into().unwrap());
        let b = u32::from_le_bytes(bytes[4..8].try_into().unwrap());
        ThePod { a, b }
    }
}

#[test]
fn static_mut_slice_from_bytes_misaligned() {
    let buf = [0u8; 8 + 4];

    // misalign by 1
    let slice = &buf[1..9];
    let result = slice_from_bytes::<u32>(slice, 1);
    assert!(result.is_err());
}

#[test]
fn casting_to_bytes_roundtrip() {
    let val = 0x12345678u32;
    let bytes = to_bytes(&val);
    let restored = from_bytes::<u32>(&bytes, 0).unwrap();
    assert_eq!(val, restored);
}

#[test]
fn casting_slice_from_bytes_valid() {
    let arr = [1u32, 2, 3];
    let bytes = slice_to_bytes(&arr);
    let restored = slice_from_bytes::<u32>(&bytes, 0).unwrap();
    assert_eq!(restored, &arr);
}

#[test]
fn slice_from_bytes_invalid() {
    let arr = [0u8; 7]; // intentionally not a whole number of elements
    assert!(slice_from_bytes::<u32>(&arr, 0).is_err());
}

#[test]
fn slice_from_bytes_misaligned() {
    let buf = [0u8; 12];
    let misaligned = &buf[1..]; // misalign by 1 byte
    assert!(slice_from_bytes::<u32>(misaligned, 1).is_err());
}

#[test]
fn from_bytes_invalid_length() {
    let arr = [0xFFu8; 3]; // not the size of any common type
    assert!(from_bytes::<u32>(&arr, 0).is_err());
}

#[test]
fn casting_cast_between_same_size_types() {
    let original: u32 = 0xDEADBEEF;
    let casted = cast::<u32, Float32>(&original).unwrap();
    let restored = cast::<Float32, u32>(&casted).unwrap();
    assert_eq!(restored, original);
}

#[test]
fn casting_custom_struct_bytes_roundtrip() {
    let pod = ThePod {
        a: 0xABCD,
        b: 0x12345678,
    };
    let bytes = to_bytes(&pod);
    let restored: ThePod = from_bytes(&bytes, 0).unwrap();
    assert_eq!(pod, restored);
}

#[test]
fn casting_cast_struct_to_u64_and_back() {
    assert_eq!(ThePod::align(), 8);

    let pod = ThePod {
        a: 0x1122,
        b: 0x33445566,
    };
    let raw: u64 = cast(&pod).unwrap();
    let back: ThePod = cast(&raw).unwrap();
    assert_eq!(pod, back);
}

#[test]
fn invalid_cast_size_mismatch() {
    let val = 0x1234u16;
    let result = cast::<u16, u32>(&val);
    assert!(result.is_err());
}

#[test]
fn __from_bytes_unaligned() {
    // aligned bytes
    let val = 42u32;
    let bytes = val.to_le_bytes();
    let result = from_bytes_unaligned::<u32>(&bytes).unwrap();
    assert_eq!(result, val);

    // unaligned slice in a bigger array
    let mut buffer = [0u8; 8];
    buffer[1..5].copy_from_slice(&val.to_le_bytes());
    let slice = &buffer[1..5];
    let result = from_bytes_unaligned::<u32>(slice).unwrap();
    assert_eq!(result, val);
}

#[test]
fn __slice_from_bytes_copy_into() {
    let values: [u32; 4] = [1, 2, 3, 4];
    let mut bytes = [0u8; 16];
    for (i, val) in values.iter().enumerate() {
        bytes[i * 4..i * 4 + 4].copy_from_slice(&val.to_le_bytes());
    }

    let mut out = vec![0u32; 4];
    slice_from_bytes_copy_into::<u32>(&bytes, &mut out).unwrap();

    assert_eq!(out.as_slice(), &values);

    // unaligned offset
    let mut buffer = [0u8; 20];
    for (i, val) in values.iter().enumerate() {
        buffer[i * 4 + 1..i * 4 + 5].copy_from_slice(&val.to_le_bytes());
    }
    let slice_bytes = &buffer[1..17]; // deliberately unaligned
    let mut out2 = vec![0u32; 4];
    slice_from_bytes_copy_into::<u32>(slice_bytes, &mut out2).unwrap();
    assert_eq!(out2.as_slice(), &values);
}
