use minimal_importer::com::{ComInterface, ComPtr, ComVtbl, S_FALSE, S_OK};
use minimal_importer::example::{
    example_add_ref, example_get_value, example_query_interface, example_release,
    try_example_add_ref, try_example_query_interface, try_example_release, ExampleImpl,
    IID_IEXAMPLE,
};
use minimal_importer::heap::{Heap, NULL};
use minimal_importer::iid::{IUnknownUUID, IID};
use minimal_importer::lifecycle::{RefCount, RefCountError};

#[test]
fn use_com() {
    let mut heap: Heap<ExampleImpl> = Heap::new();
    let boxed = ExampleImpl { ref_cnt: RefCount::new(1), value: 1337 };
    let addr = heap.allocate(boxed);
    let ptr: ComPtr<ExampleImpl> = ComPtr::from_raw(&heap, addr);
    let val = example_get_value(&heap, ptr.as_ptr());
    println!("Value: {val}");
    assert_eq!(val, 1337);
    let q: Option<ComPtr<ExampleImpl>> = ptr.query_interface(&mut heap);
    assert!(q.is_some());
}

#[test]
fn example_identity_has_its_bytes() {
    assert_eq!(
        IID_IEXAMPLE().bytes(),
        [0x01, 0x23, 0x45, 0x67, 0x89, 0xab, 0xcd, 0xef, 0x10, 0x32, 0x54, 0x76, 0x98, 0xba, 0xdc, 0xfe]
    );
    assert!(ExampleImpl::iid() == IID_IEXAMPLE());
}

#[test]
fn handle_from_raw_does_not_count() {
    let mut heap: Heap<ExampleImpl> = Heap::new();
    let addr = heap.allocate(ExampleImpl { ref_cnt: RefCount::new(1), value: 5 });
    let ptr: ComPtr<ExampleImpl> = ComPtr::from_raw(&heap, addr);
    assert_eq!(ptr.as_ptr(), addr);
    assert_eq!(heap.get(addr).ref_cnt.get(), 1);
    assert_eq!(ptr.deref(&heap).value, 5);
}

#[test]
fn scenario_handles_clone_and_drop() {
    let mut heap: Heap<ExampleImpl> = Heap::new();
    let addr = heap.allocate(ExampleImpl { ref_cnt: RefCount::new(1), value: 9 });
    let ptr: ComPtr<ExampleImpl> = ComPtr::from_raw(&heap, addr);
    let copy = ptr.clone(&mut heap);
    assert_eq!(copy.as_ptr(), addr);
    assert_eq!(heap.get(addr).ref_cnt.get(), 2);
    copy.drop(&mut heap);
    assert_eq!(heap.get(addr).ref_cnt.get(), 1);
    let q: Option<ComPtr<ExampleImpl>> = ptr.query_interface(&mut heap);
    let q = q.unwrap();
    assert_eq!(q.as_ptr(), addr);
    assert_eq!(heap.get(addr).ref_cnt.get(), 2);
    q.drop(&mut heap);
    assert_eq!(heap.deallocation_count(), 0);
    ptr.drop(&mut heap);
    assert_eq!(heap.deallocation_count(), 1);
    assert!(!heap.is_live(addr));
}

#[test]
fn handle_gives_the_object_to_change() {
    let mut heap: Heap<ExampleImpl> = Heap::new();
    let addr = heap.allocate(ExampleImpl { ref_cnt: RefCount::new(1), value: 9 });
    let ptr: ComPtr<ExampleImpl> = ComPtr::from_raw(&heap, addr);
    ptr.deref_mut(&mut heap).value = 10;
    assert_eq!(example_get_value(&heap, addr), 10);
    assert_eq!(heap.get(addr).ref_cnt.get(), 1);
}

#[test]
fn example_query_for_own_and_base_identity_succeeds() {
    let mut heap: Heap<ExampleImpl> = Heap::new();
    let addr = heap.allocate(ExampleImpl { ref_cnt: RefCount::new(1), value: 1 });
    let own = example_query_interface(&mut heap, addr, &IID_IEXAMPLE());
    assert_eq!(own.hr, S_OK);
    assert_eq!(own.out, addr);
    assert_eq!(heap.get(addr).ref_cnt.get(), 2);
    let base = example_query_interface(&mut heap, addr, &IUnknownUUID());
    assert_eq!(base.hr, S_OK);
    assert_eq!(base.out, addr);
    assert_eq!(heap.get(addr).ref_cnt.get(), 3);
    assert_eq!(heap.get(addr).value, 1);
}

#[test]
fn example_query_for_an_unrelated_identity_fails() {
    let mut heap: Heap<ExampleImpl> = Heap::new();
    let addr = heap.allocate(ExampleImpl { ref_cnt: RefCount::new(1), value: 1 });
    let other = example_query_interface(&mut heap, addr, &IID([0x42; 16]));
    assert_eq!(other.hr, S_FALSE);
    assert_eq!(other.out, NULL);
    assert_eq!(heap.get(addr).ref_cnt.get(), 1);
}

#[test]
fn example_counts_move_by_one() {
    let mut heap: Heap<ExampleImpl> = Heap::new();
    let addr = heap.allocate(ExampleImpl { ref_cnt: RefCount::new(1), value: -3 });
    assert_eq!(example_add_ref(&mut heap, addr), 2);
    assert_eq!(example_add_ref(&mut heap, addr), 3);
    assert_eq!(example_release(&mut heap, addr), 2);
    assert_eq!(example_release(&mut heap, addr), 1);
    assert_eq!(example_get_value(&heap, addr), -3);
    assert_eq!(heap.deallocation_count(), 0);
    assert_eq!(example_release(&mut heap, addr), 0);
    assert_eq!(heap.deallocation_count(), 1);
    assert!(!heap.is_live(addr));
}

#[test]
fn object_level_base_operations() {
    let mut object = ExampleImpl { ref_cnt: RefCount::new(1), value: 4 };
    assert!(object.supports(&IID_IEXAMPLE()));
    assert!(object.supports(&IUnknownUUID()));
    assert!(!object.supports(&IID([0; 16])));
    assert_eq!(ComVtbl::add_ref(&mut object), 2);
    let own = ComVtbl::query_interface(&mut object, 5, &IID_IEXAMPLE());
    assert_eq!(own.hr, S_OK);
    assert_eq!(own.out, 5);
    assert_eq!(object.ref_cnt.get(), 3);
    let other = ComVtbl::query_interface(&mut object, 5, &IID([0; 16]));
    assert_eq!(other.hr, S_FALSE);
    assert_eq!(other.out, NULL);
    assert_eq!(object.ref_cnt.get(), 3);
    assert_eq!(object.value, 4);
}

#[test]
fn base_release_frees_at_zero_in_the_same_step() {
    let mut heap: Heap<ExampleImpl> = Heap::new();
    let addr = heap.allocate(ExampleImpl { ref_cnt: RefCount::new(2), value: 4 });
    assert_eq!(<ExampleImpl as ComVtbl>::release(&mut heap, addr), 1);
    assert!(heap.is_live(addr));
    assert_eq!(heap.get(addr).value, 4);
    assert_eq!(<ExampleImpl as ComVtbl>::release(&mut heap, addr), 0);
    assert!(!heap.is_live(addr));
    assert_eq!(heap.deallocation_count(), 1);
}

#[test]
fn example_query_at_any_address_is_answered_or_refused() {
    let mut heap: Heap<ExampleImpl> = Heap::new();
    let addr = heap.allocate(ExampleImpl { ref_cnt: RefCount::new(1), value: 1 });
    let full = heap.allocate(ExampleImpl { ref_cnt: RefCount::new(u32::MAX), value: 2 });
    let own = try_example_query_interface(&mut heap, addr, &IID_IEXAMPLE()).unwrap();
    assert_eq!(own.hr, S_OK);
    assert_eq!(own.out, addr);
    assert!(matches!(
        try_example_query_interface(&mut heap, full, &IID_IEXAMPLE()),
        Err(RefCountError::Overflow)
    ));
    let other = try_example_query_interface(&mut heap, full, &IID([3; 16])).unwrap();
    assert_eq!(other.hr, S_FALSE);
    assert_eq!(other.out, NULL);
    assert_eq!(heap.get(full).ref_cnt.get(), u32::MAX);
    assert!(matches!(
        try_example_query_interface(&mut heap, NULL, &IID_IEXAMPLE()),
        Err(RefCountError::NoObject)
    ));
}

#[test]
fn object_tells_its_count() {
    let object = ExampleImpl { ref_cnt: RefCount::new(7), value: 0 };
    assert_eq!(ComVtbl::get_refcnt(&object), 7);
}

#[test]
fn example_refuses_operations_after_zero() {
    let mut heap: Heap<ExampleImpl> = Heap::new();
    let addr = heap.allocate(ExampleImpl { ref_cnt: RefCount::new(1), value: 3 });
    assert_eq!(try_example_add_ref(&mut heap, addr), Ok(2));
    assert_eq!(try_example_release(&mut heap, addr), Ok(1));
    assert_eq!(try_example_release(&mut heap, addr), Ok(0));
    assert_eq!(heap.deallocation_count(), 1);
    assert_eq!(try_example_release(&mut heap, addr), Err(RefCountError::Dead));
    assert_eq!(try_example_add_ref(&mut heap, addr), Err(RefCountError::Dead));
    assert_eq!(heap.deallocation_count(), 1);
    assert_eq!(try_example_release(&mut heap, NULL), Err(RefCountError::NoObject));
    assert_eq!(try_example_add_ref(&mut heap, addr + 1), Err(RefCountError::NoObject));
}

#[test]
fn example_with_a_dead_or_full_count_is_refused() {
    let mut heap: Heap<ExampleImpl> = Heap::new();
    let dead = heap.allocate(ExampleImpl { ref_cnt: RefCount::new(0), value: 3 });
    let full = heap.allocate(ExampleImpl { ref_cnt: RefCount::new(u32::MAX), value: 4 });
    assert_eq!(try_example_add_ref(&mut heap, dead), Err(RefCountError::Dead));
    assert_eq!(try_example_release(&mut heap, dead), Err(RefCountError::Dead));
    assert_eq!(heap.get(dead).ref_cnt.get(), 0);
    assert_eq!(try_example_add_ref(&mut heap, full), Err(RefCountError::Overflow));
    assert_eq!(heap.get(full).ref_cnt.get(), u32::MAX);
    assert_eq!(try_example_release(&mut heap, full), Ok(u32::MAX - 1));
    assert_eq!(heap.deallocation_count(), 0);
}
