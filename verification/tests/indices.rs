use xsk_umem::BufIdx;

#[test]
fn raw_numbers_become_indices() {
    let raw = [7, 0, u32::MAX];
    let idx = BufIdx::from_slice(&raw);
    assert_eq!(idx.len(), 3);
    assert_eq!(idx.get(0), BufIdx(7));
    assert_eq!(idx.get(1), BufIdx(0));
    assert_eq!(idx.get(2), BufIdx(u32::MAX));
    assert_eq!(BufIdx::from_slice(&[]).len(), 0);
}

#[test]
fn indices_become_raw_numbers() {
    let idx = [BufIdx(3), BufIdx(9)];
    let raw = BufIdx::to_slice(&idx);
    assert_eq!(raw.len(), 2);
    assert_eq!(raw.get(0), 3);
    assert_eq!(raw.get(1), 9);
    assert_eq!(BufIdx::to_slice(&[]).len(), 0);
}

#[test]
fn conversions_undo_each_other() {
    let raw = [5, 4, 3, 2, 1];
    assert_eq!(BufIdx::from_slice(&raw).to_slice(), raw);
    let idx = [BufIdx(8), BufIdx(6)];
    assert_eq!(BufIdx::to_slice(&idx).from_slice(), idx);
}

#[test]
fn conversions_are_in_place() {
    let raw: Vec<u32> = vec![5, 4, 3];
    assert!(std::ptr::eq(BufIdx::from_slice(&raw).raw, &raw[..]));
    assert!(std::ptr::eq(BufIdx::from_slice(&raw).to_slice(), &raw[..]));
    let idx: Vec<BufIdx> = vec![BufIdx(8), BufIdx(6)];
    assert!(std::ptr::eq(BufIdx::to_slice(&idx).idx, &idx[..]));
    assert!(std::ptr::eq(BufIdx::to_slice(&idx).from_slice(), &idx[..]));
}

#[test]
fn indices_written_in_place() {
    let mut raw = [1, 2, 3];
    let mut idx = BufIdx::from_mut_slice(&mut raw);
    assert_eq!(idx.len(), 3);
    assert_eq!(idx.get(2), BufIdx(3));
    idx.set(1, BufIdx(70));
    assert_eq!(idx.get(1), BufIdx(70));
    assert_eq!(raw, [1, 70, 3]);
}

#[test]
fn raw_numbers_written_in_place() {
    let mut idx = [BufIdx(1), BufIdx(2)];
    let mut raw = BufIdx::to_mut_slice(&mut idx);
    assert_eq!(raw.len(), 2);
    assert_eq!(raw.get(0), 1);
    raw.set(0, 11);
    assert_eq!(raw.get(0), 11);
    assert_eq!(idx, [BufIdx(11), BufIdx(2)]);
}

#[test]
fn mutable_conversions_undo_each_other() {
    let mut raw = [1, 2, 3];
    let mut view = BufIdx::from_mut_slice(&mut raw);
    view.set(0, BufIdx(10));
    let back = view.to_mut_slice();
    assert_eq!(back, [10, 2, 3]);
    back[2] = 30;
    assert_eq!(raw, [10, 2, 30]);

    let mut idx = [BufIdx(1), BufIdx(2)];
    let back = BufIdx::to_mut_slice(&mut idx).from_mut_slice();
    assert_eq!(back, [BufIdx(1), BufIdx(2)]);
    back[1] = BufIdx(20);
    assert_eq!(idx, [BufIdx(1), BufIdx(20)]);
}
