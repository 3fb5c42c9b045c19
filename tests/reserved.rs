use inout::{InOutBufReserved, OutIsTooSmallError, PadError, PadType, PaddingScheme};

#[test]
fn from_mut_slice_rejects_message_longer_than_buffer() {
    let mut buf = [0u8; 8];
    let r = InOutBufReserved::from_mut_slice(&mut buf[..], 9);
    assert!(matches!(r, Err(OutIsTooSmallError)));
}

#[test]
fn from_mut_slice_reports_lengths() {
    let mut buf = [0u8; 8];
    let v = InOutBufReserved::from_mut_slice(&mut buf[..], 5).unwrap();
    assert_eq!(v.get_in_len(), 5);
    assert_eq!(v.get_out_len(), 8);
    let v = InOutBufReserved::from_mut_slice(&mut buf[..], 8).unwrap();
    assert_eq!(v.get_in_len(), 8);
    assert_eq!(v.get_out_len(), 8);
}

#[test]
fn from_mut_slice_accepts_empty_message() {
    let mut buf = [0u8; 4];
    let v = InOutBufReserved::from_mut_slice(&mut buf[..], 0).unwrap();
    assert_eq!(v.get_in_len(), 0);
    assert_eq!(v.get_in().len(), 0);
    assert_eq!(v.get_out_len(), 4);
}

#[test]
fn from_slices_rejects_short_output() {
    let input = [1u8, 2, 3];
    let mut out = [0u8; 2];
    let r = InOutBufReserved::from_slices(&input[..], &mut out[..]);
    assert!(matches!(r, Err(OutIsTooSmallError)));
}

#[test]
fn from_slices_reports_lengths() {
    let input = [1u8, 2, 3];
    let mut out = [0u8; 7];
    let v = InOutBufReserved::from_slices(&input[..], &mut out[..]).unwrap();
    assert_eq!(v.get_in_len(), 3);
    assert_eq!(v.get_out_len(), 7);
    assert_eq!(v.get_in(), &[1u8, 2, 3][..]);
}

#[test]
fn split_reserved_covers_output_without_gap() {
    let mut buf = [1u8, 2, 3, 4, 5, 6];
    {
        let mut v = InOutBufReserved::from_mut_slice(&mut buf[..], 4).unwrap();
        let (mut body, tail) = v.split_reserved();
        assert_eq!(body.len(), 4);
        assert_eq!(body.get_in(), &[1u8, 2, 3, 4][..]);
        assert_eq!(tail.len(), 2);
        assert_eq!(tail, &[5u8, 6][..]);
        body.get_out()[3] = 40;
        tail[0] = 50;
    }
    assert_eq!(buf, [1, 2, 3, 40, 50, 6]);
}

#[test]
fn split_reserved_on_separate_regions() {
    let input = [9u8, 8];
    let mut out = [0u8; 5];
    {
        let mut v = InOutBufReserved::from_slices(&input[..], &mut out[..]).unwrap();
        let (mut body, tail) = v.split_reserved();
        assert_eq!(body.len(), 2);
        assert_eq!(body.get_in(), &[9u8, 8][..]);
        assert_eq!(tail.len(), 3);
        body.get_out().copy_from_slice(&[7, 6]);
        tail.copy_from_slice(&[5, 4, 3]);
    }
    assert_eq!(out, [7, 6, 5, 4, 3]);
}

#[test]
fn written_output_reads_back_in_place() {
    let mut buf = [0u8; 6];
    let mut v = InOutBufReserved::from_mut_slice(&mut buf[..], 4).unwrap();
    v.get_out().copy_from_slice(&[10, 11, 12, 13, 14, 15]);
    assert_eq!(v.get_in(), &[10u8, 11, 12, 13][..]);
    assert_eq!(v.get_out(), &[10u8, 11, 12, 13, 14, 15][..]);
    let out = v.into_out();
    assert_eq!(out, &[10u8, 11, 12, 13, 14, 15][..]);
}

#[test]
fn written_output_reads_back_separate() {
    let input = [1u8, 2];
    let mut out = [0u8; 3];
    {
        let mut v = InOutBufReserved::from_slices(&input[..], &mut out[..]).unwrap();
        v.get_out().copy_from_slice(&[7, 8, 9]);
        assert_eq!(v.get_in(), &[1u8, 2][..]);
        assert_eq!(v.get_out(), &[7u8, 8, 9][..]);
    }
    assert_eq!(out, [7, 8, 9]);
}

#[test]
fn into_raw_gives_regions() {
    let input = [1u8, 2];
    let mut out = [0u8; 3];
    let v = InOutBufReserved::from_slices(&input[..], &mut out[..]).unwrap();
    let (i, o) = v.into_raw();
    assert_eq!(i, Some(&[1u8, 2][..]));
    assert_eq!(o.len(), 3);

    let mut buf = [4u8, 5];
    let v = InOutBufReserved::from_mut_slice(&mut buf[..], 1).unwrap();
    let (i, o) = v.into_raw();
    assert!(i.is_none());
    assert_eq!(o, &[4u8, 5][..]);
}

#[test]
fn pad_types_of_schemes() {
    assert_eq!(PaddingScheme::ZeroPadding.pad_type(), PadType::Ambiguous);
    assert_eq!(PaddingScheme::NoPadding.pad_type(), PadType::NoPadding);
    assert_eq!(PaddingScheme::Pkcs7.pad_type(), PadType::Reversible);
    assert_eq!(PaddingScheme::Iso10126.pad_type(), PadType::Reversible);
    assert_eq!(PaddingScheme::AnsiX923.pad_type(), PadType::Reversible);
    assert_eq!(PaddingScheme::Iso7816.pad_type(), PadType::Reversible);
}

#[test]
fn no_padding_whole_blocks() {
    let mut buf = [3u8; 32];
    let v = InOutBufReserved::from_mut_slice(&mut buf[..], 32).unwrap();
    let mut p = v.into_padded_blocks(PaddingScheme::NoPadding, 16).unwrap();
    assert_eq!(p.blocks_len, 2);
    assert!(!p.has_tail);
    assert!(p.get_tail_block().is_none());
    assert_eq!(p.get_blocks().len(), 32);
    assert_eq!(p.into_out().len(), 32);
}

#[test]
fn no_padding_partial_block_fails() {
    let mut buf = [3u8; 48];
    let v = InOutBufReserved::from_mut_slice(&mut buf[..], 33).unwrap();
    let r = v.into_padded_blocks(PaddingScheme::NoPadding, 16);
    assert!(matches!(r, Err(PadError)));
}

#[test]
fn reversible_whole_block_gets_padding_block() {
    let mut buf = [7u8; 32];
    let v = InOutBufReserved::from_mut_slice(&mut buf[..], 16).unwrap();
    let mut p = v.into_padded_blocks(PaddingScheme::Pkcs7, 16).unwrap();
    assert_eq!(p.blocks_len, 1);
    assert!(p.has_tail);
    let (tail_in, _tail_out) = p.get_tail_block().unwrap();
    assert_eq!(tail_in, &[16u8; 16][..]);
    assert_eq!(p.into_out().len(), 32);
}

#[test]
fn reversible_without_room_fails() {
    let mut buf = [7u8; 16];
    let v = InOutBufReserved::from_mut_slice(&mut buf[..], 16).unwrap();
    let r = v.into_padded_blocks(PaddingScheme::Pkcs7, 16);
    assert!(matches!(r, Err(PadError)));
}

#[test]
fn reversible_empty_message_gets_padding_block() {
    let mut buf = [0u8; 8];
    let v = InOutBufReserved::from_mut_slice(&mut buf[..], 0).unwrap();
    let mut p = v.into_padded_blocks(PaddingScheme::Iso7816, 8).unwrap();
    assert_eq!(p.blocks_len, 0);
    let (tail_in, _) = p.get_tail_block().unwrap();
    assert_eq!(tail_in, &[0x80u8, 0, 0, 0, 0, 0, 0, 0][..]);
    assert_eq!(p.into_out().len(), 8);
}

#[test]
fn ambiguous_whole_blocks_has_no_tail() {
    let mut buf = [1u8; 48];
    let v = InOutBufReserved::from_mut_slice(&mut buf[..], 32).unwrap();
    let mut p = v.into_padded_blocks(PaddingScheme::ZeroPadding, 16).unwrap();
    assert_eq!(p.blocks_len, 2);
    assert!(p.get_tail_block().is_none());
    assert_eq!(p.into_out().len(), 32);
}

#[test]
fn ambiguous_partial_block_is_padded() {
    let mut buf = [1u8; 32];
    let v = InOutBufReserved::from_mut_slice(&mut buf[..], 20).unwrap();
    let mut p = v.into_padded_blocks(PaddingScheme::ZeroPadding, 16).unwrap();
    assert_eq!(p.blocks_len, 1);
    let (tail_in, _) = p.get_tail_block().unwrap();
    assert_eq!(tail_in, &[1u8, 1, 1, 1, 0, 0, 0, 0, 0, 0, 0, 0, 0, 0, 0, 0][..]);
    assert_eq!(p.into_out().len(), 32);
}

#[test]
fn ambiguous_partial_block_without_room_fails() {
    let mut buf = [1u8; 20];
    let v = InOutBufReserved::from_mut_slice(&mut buf[..], 20).unwrap();
    let r = v.into_padded_blocks(PaddingScheme::ZeroPadding, 16);
    assert!(matches!(r, Err(PadError)));
}

fn tail_of(scheme: PaddingScheme) -> Vec<u8> {
    let input = [0xAAu8, 0xBB, 0xCC, 0xDD, 0xEE];
    let mut out = [0u8; 8];
    let v = InOutBufReserved::from_slices(&input[..], &mut out[..]).unwrap();
    let mut p = v.into_padded_blocks(scheme, 4).unwrap();
    assert_eq!(p.blocks_len, 1);
    let (tail_in, _) = p.get_tail_block().unwrap();
    tail_in.to_vec()
}

#[test]
fn tail_padded_by_each_scheme() {
    assert_eq!(tail_of(PaddingScheme::Pkcs7), vec![0xEE, 3, 3, 3]);
    assert_eq!(tail_of(PaddingScheme::Iso10126), vec![0xEE, 3, 3, 3]);
    assert_eq!(tail_of(PaddingScheme::AnsiX923), vec![0xEE, 0, 0, 3]);
    assert_eq!(tail_of(PaddingScheme::Iso7816), vec![0xEE, 0x80, 0, 0]);
    assert_eq!(tail_of(PaddingScheme::ZeroPadding), vec![0xEE, 0, 0, 0]);
}

#[test]
fn blocks_and_tail_written_through_the_view() {
    let mut buf = [1u8, 2, 3, 4, 5, 6, 0, 0, 9];
    {
        let v = InOutBufReserved::from_mut_slice(&mut buf[..], 6).unwrap();
        let mut p = v.into_padded_blocks(PaddingScheme::Pkcs7, 4).unwrap();
        {
            let mut blocks = p.get_blocks();
            assert_eq!(blocks.get_in(), &[1u8, 2, 3, 4][..]);
            for b in blocks.get_out().iter_mut() {
                *b += 10;
            }
        }
        {
            let (tail_in, tail_out) = p.get_tail_block().unwrap();
            assert_eq!(tail_in, &[5u8, 6, 2, 2][..]);
            tail_out.copy_from_slice(tail_in);
        }
        assert_eq!(p.into_out(), &[11u8, 12, 13, 14, 5, 6, 2, 2][..]);
    }
    assert_eq!(buf, [11, 12, 13, 14, 5, 6, 2, 2, 9]);
}

#[test]
fn padded_separate_regions_keep_input() {
    let input = [1u8, 2, 3, 4, 5];
    let mut out = [0u8; 8];
    {
        let v = InOutBufReserved::from_slices(&input[..], &mut out[..]).unwrap();
        let mut p = v.into_padded_blocks(PaddingScheme::AnsiX923, 4).unwrap();
        {
            let mut blocks = p.get_blocks();
            assert_eq!(blocks.get_in(), &[1u8, 2, 3, 4][..]);
            blocks.get_out().copy_from_slice(&[4, 3, 2, 1]);
        }
        let (tail_in, tail_out) = p.get_tail_block().unwrap();
        tail_out.copy_from_slice(tail_in);
        assert_eq!(p.into_out(), &[4u8, 3, 2, 1, 5, 0, 0, 3][..]);
    }
    assert_eq!(input, [1, 2, 3, 4, 5]);
}

#[test]
fn from_raw_builds_certified_view() {
    let input = [1u8, 2];
    let mut out = [0u8; 4];
    let v = InOutBufReserved::from_raw(Some(&input[..]), &mut out[..], 2);
    assert_eq!(v.get_in_len(), 2);
    assert_eq!(v.get_out_len(), 4);
    assert_eq!(v.get_in(), &[1u8, 2][..]);

    let mut buf = [5u8, 6, 7];
    let v = InOutBufReserved::from_raw(None, &mut buf[..], 1);
    assert_eq!(v.get_in(), &[5u8][..]);
    assert_eq!(v.into_out(), &[5u8, 6, 7][..]);
}

#[test]
fn padded_output_length_counts_tail_block() {
    let mut buf = [0u8; 64];
    let v = InOutBufReserved::from_mut_slice(&mut buf[..], 40).unwrap();
    let p = v.into_padded_blocks(PaddingScheme::AnsiX923, 16).unwrap();
    assert_eq!(p.blocks_len, 2);
    assert!(p.has_tail);
    assert_eq!(p.into_out().len(), 48);

    let mut buf = [0u8; 64];
    let v = InOutBufReserved::from_mut_slice(&mut buf[..], 48).unwrap();
    let p = v.into_padded_blocks(PaddingScheme::NoPadding, 16).unwrap();
    assert_eq!(p.blocks_len, 3);
    assert!(!p.has_tail);
    assert_eq!(p.into_out().len(), 48);
}
