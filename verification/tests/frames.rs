use xsk_umem::{BufIdx, SocketFd, Umem, UmemArea, UmemChunk, UmemConfig, XdpDesc};

const BASE: usize = 0x10_0000;

fn umem(frame_size: u32, len: usize) -> Umem {
    Umem {
        config: UmemConfig { fill_size: 8, complete_size: 4, frame_size, headroom: 0, flags: 0 },
        fd: SocketFd(3),
        umem_area: UmemArea { addr: BASE, len },
    }
}

fn chunk(addr: usize, len: usize, offset: u64) -> UmemChunk {
    UmemChunk { addr: UmemArea { addr, len }, offset }
}

#[test]
fn frames_follow_one_another() {
    let umem = umem(2048, 8192);
    assert_eq!(umem.frame(BufIdx(0)), Some(chunk(BASE, 2048, 0)));
    assert_eq!(umem.frame(BufIdx(1)), Some(chunk(BASE + 2048, 2048, 2048)));
    assert_eq!(umem.frame(BufIdx(3)), Some(chunk(BASE + 6144, 2048, 6144)));
    assert_eq!(umem.frame(BufIdx(4)), None);
    assert_eq!(umem.frame(BufIdx(u32::MAX)), None);
    assert_eq!(umem.len_frames(), 4);
}

#[test]
fn partial_frame_at_the_end_is_left_out() {
    let umem = umem(4096, 8192 + 4095);
    assert_eq!(umem.len_frames(), 2);
    assert!(umem.frame(BufIdx(1)).is_some());
    assert!(umem.frame(BufIdx(2)).is_none());
}

#[test]
fn area_smaller_than_a_frame_has_none() {
    let small = umem(4096, 4095);
    assert_eq!(small.len_frames(), 0);
    assert_eq!(small.frame(BufIdx(0)), None);
    let empty = umem(4096, 0);
    assert_eq!(empty.len_frames(), 0);
    assert_eq!(empty.frame(BufIdx(0)), None);
}

#[test]
fn frame_count_stops_at_the_largest_number() {
    let umem = umem(1, 0x2_0000_0000);
    assert_eq!(umem.len_frames(), u32::MAX);
    assert_eq!(
        umem.frame(BufIdx(u32::MAX)),
        Some(chunk(BASE + u32::MAX as usize, 1, u32::MAX as u64))
    );
}

#[test]
fn large_products_do_not_wrap() {
    let umem = umem(u32::MAX, 0x7fff_0000);
    assert_eq!(umem.frame(BufIdx(u32::MAX)), None);
    assert_eq!(umem.frame(BufIdx(2)), None);
}

#[test]
fn frame_exists_below_the_count_only() {
    let umem = umem(1000, 123_456);
    let count = umem.len_frames();
    assert_eq!(count, 123);
    for i in 0..200 {
        assert_eq!(umem.frame(BufIdx(i)).is_some(), i < count);
    }
}

#[test]
fn frames_are_disjoint_and_in_the_area() {
    let umem = umem(1500, 16_384);
    let mut end = umem.umem_area.addr;
    for i in 0..umem.len_frames() {
        let frame = umem.frame(BufIdx(i)).unwrap();
        assert_eq!(frame.addr.addr, end);
        assert_eq!((frame.addr.addr - umem.umem_area.addr) as u64, frame.offset);
        end = frame.addr.addr + frame.addr.len;
    }
    assert!(end <= umem.umem_area.addr + umem.umem_area.len);
}

#[test]
fn whole_frame_descriptor() {
    let frame = umem(2048, 8192).frame(BufIdx(2)).unwrap();
    assert_eq!(frame.as_xdp(), XdpDesc { addr: 4096, len: 2048, options: 0 });
}

#[test]
fn descriptor_with_a_length() {
    let frame = umem(2048, 8192).frame(BufIdx(3)).unwrap();
    assert_eq!(frame.as_xdp_with_len(60), XdpDesc { addr: 6144, len: 60, options: 0 });
    assert_eq!(frame.as_xdp_with_len(0), XdpDesc { addr: 6144, len: 0, options: 0 });
    assert_eq!(frame.as_xdp_with_len(2048), XdpDesc { addr: 6144, len: 2048, options: 0 });
}

#[test]
fn descriptor_of_an_oversized_chunk_keeps_the_low_bits() {
    let oversized = chunk(BASE, 0x1_0000_0007, 5);
    assert_eq!(oversized.as_xdp(), XdpDesc { addr: 5, len: 7, options: 0 });
}

#[test]
fn page_alignment() {
    let at = |addr: usize| UmemArea { addr, len: 4096 };
    assert!(at(0x2000).is_page_aligned(0x1000));
    assert!(!at(0x2010).is_page_aligned(0x1000));
    assert!(!at(0x2fff).is_page_aligned(0x1000));
    assert!(!at(0x3000).is_page_aligned(0x4000));
    assert!(at(0x8000).is_page_aligned(0x4000));
    assert!(at(1).is_page_aligned(1));
}
