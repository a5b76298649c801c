use mlx_rust::array::MlxArray;
use mlx_rust::handle::{HandleTable, MLXObject};

#[test]
fn object_from_raw_keeps_address() {
    let obj = MLXObject::from_raw(0x1000);
    assert_eq!(obj.as_ptr(), 0x1000);
    assert_eq!(obj, MLXObject::from_raw(0x1000));
    assert_ne!(obj, MLXObject::from_raw(0x2000));
}

#[test]
fn array_from_raw_keeps_address() {
    let arr = MlxArray::from_raw(0x40);
    assert_eq!(arr.as_ptr(), 0x40);
    assert_eq!(arr, MlxArray::from_raw(0x40));
}

#[test]
fn clone_k_times_then_drop_all_owners() {
    let k: u64 = 3;
    let mut table = HandleTable::new();
    let first = table.adopt(0xbeef);
    let mut owners = Vec::new();
    for _ in 0..k {
        let copy = first.share(&mut table);
        owners.push(copy);
    }
    owners.insert(0, first);
    assert_eq!(table.owners(0xbeef), k + 1);
    let last = owners.pop().unwrap();
    for owner in owners {
        let freed = owner.release(&mut table);
        assert!(!freed);
        assert!(table.is_live(0xbeef));
    }
    assert_eq!(table.owners(0xbeef), 1);
    assert!(last.release(&mut table));
    assert!(!table.is_live(0xbeef));
    assert_eq!(table.owners(0xbeef), 0);
}

#[test]
fn sole_owner_release_frees() {
    let mut table = HandleTable::new();
    let owner = table.adopt(7);
    assert_eq!(owner.as_ptr(), 7);
    assert_eq!(table.owners(7), 1);
    assert!(table.release(7));
    assert!(!table.is_live(7));
}

#[test]
fn adopt_of_a_live_object_adds_an_owner() {
    let mut table = HandleTable::new();
    let a = table.adopt(9);
    let b = table.adopt(9);
    assert_eq!(a, b);
    table.retain(9);
    assert_eq!(table.owners(9), 3);
    assert!(!table.release(9));
    assert_eq!(table.owners(9), 2);
}

#[test]
fn releases_of_one_object_leave_others_alone() {
    let mut table = HandleTable::new();
    let one = table.adopt(1);
    let two = table.adopt(2);
    assert!(one.release(&mut table));
    assert!(table.is_live(2));
    assert_eq!(table.owners(2), 1);
    assert!(two.release(&mut table));
    assert!(!table.is_live(2));
}
