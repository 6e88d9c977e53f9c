use funcan_rs::dictionary::Index;

#[test]
fn test_index_write_to_slice() {
    let index = Index {
        index: 0x1234,
        sub: 0x56,
    };
    let mut buf = vec![0u8; 3];
    index.write_to_slice(&mut buf);
    assert_eq!(buf, vec![0x34, 0x12, 0x56]);
}

#[test]
fn test_index_read_from_slice() {
    let buf = [0x34, 0x12, 0x56];
    let index = Index::read_from_slice(&buf);
    assert_eq!(
        index,
        Index {
            index: 0x1234,
            sub: 0x56
        }
    );
}

#[test]
fn test_index_write_read_inverse() {
    let test_index_cases = [
        Index {
            index: 0x0000,
            sub: 0x00,
        },
        Index {
            index: 0xFFFF,
            sub: 0xFF,
        },
        Index {
            index: 0x1234,
            sub: 0x56,
        },
        Index {
            index: 0xABCD,
            sub: 0xEF,
        },
    ];

    for &original in &test_index_cases {
        let mut buf = vec![0u8; 3];
        original.write_to_slice(&mut buf);
        let read_back = Index::read_from_slice(&buf);
        assert_eq!(
            original, read_back,
            "Original: {:?}, Read Back: {:?}",
            original, read_back
        );
    }
}
