use minimal_importer::heap::{Heap, NULL};
use minimal_importer::lifecycle::{RefCount, RefCountError};
use minimal_importer::sandbox::{
    com_add_ref, com_get_refcnt, com_release, try_com_add_ref, try_com_release, Plugin,
    PluginFactory,
};

#[test]
fn count_is_initial_plus_add_refs_minus_releases() {
    let mut rc = RefCount::new(3);
    // five AddRef and four Release, interleaved
    assert_eq!(rc.add_ref(), 4);
    assert_eq!(rc.release(), 3);
    assert_eq!(rc.add_ref(), 4);
    assert_eq!(rc.add_ref(), 5);
    assert_eq!(rc.release(), 4);
    assert_eq!(rc.release(), 3);
    assert_eq!(rc.add_ref(), 4);
    assert_eq!(rc.add_ref(), 5);
    assert_eq!(rc.release(), 4);
    assert_eq!(rc.get(), 3 + 5 - 4);
    assert!(rc.is_live());
}

#[test]
fn release_to_zero_leaves_a_dead_count() {
    let mut rc = RefCount::new(1);
    assert_eq!(rc.release(), 0);
    assert_eq!(rc.get(), 0);
    assert!(!rc.is_live());
}

#[test]
fn add_ref_after_zero_is_refused() {
    let mut rc = RefCount::new(1);
    assert_eq!(rc.try_release(), Ok(0));
    assert_eq!(rc.try_add_ref(), Err(RefCountError::Dead));
    assert_eq!(rc.get(), 0);
}

#[test]
fn release_after_zero_is_refused() {
    let mut rc = RefCount::new(1);
    assert_eq!(rc.try_release(), Ok(0));
    assert_eq!(rc.try_release(), Err(RefCountError::Dead));
    assert_eq!(rc.get(), 0);
}

#[test]
fn add_ref_on_a_full_counter_is_refused() {
    let mut rc = RefCount::new(u32::MAX);
    assert_eq!(rc.try_add_ref(), Err(RefCountError::Overflow));
    assert_eq!(rc.get(), u32::MAX);
    assert_eq!(rc.try_release(), Ok(u32::MAX - 1));
    assert_eq!(rc.try_add_ref(), Ok(u32::MAX));
}

#[test]
fn checked_operations_move_the_count_by_one() {
    let mut rc = RefCount::new(1);
    assert_eq!(rc.try_add_ref(), Ok(2));
    assert_eq!(rc.try_add_ref(), Ok(3));
    assert_eq!(rc.try_release(), Ok(2));
    assert_eq!(rc.get(), 2);
}

#[test]
fn plugin_starts_with_one_reference() {
    let mut plugin = Plugin::new();
    assert_eq!(plugin.get_refcnt(), 1);
    assert_eq!(plugin.add_ref(), 2);
    assert_eq!(plugin.get_refcnt(), 2);
}

#[test]
fn plugin_release_frees_at_zero_in_the_same_step() {
    let mut heap: Heap<Plugin> = Heap::new();
    let p = PluginFactory(&mut heap, false);
    assert_eq!(heap.get_mut(p).add_ref(), 2);
    assert_eq!(Plugin::release(&mut heap, p), 1);
    assert!(heap.is_live(p));
    assert_eq!(heap.deallocation_count(), 0);
    assert_eq!(Plugin::release(&mut heap, p), 0);
    assert!(!heap.is_live(p));
    assert_eq!(heap.deallocation_count(), 1);
}

#[test]
fn plugin_factory_asked_to_fail_returns_null() {
    let mut heap: Heap<Plugin> = Heap::new();
    let failed_plugin = PluginFactory(&mut heap, true);
    assert_eq!(failed_plugin, NULL);
    assert_eq!(heap.allocation_count(), 0);
    assert!(!heap.is_live(failed_plugin));
}

#[test]
fn plugin_walks_through_its_counts() {
    let mut heap: Heap<Plugin> = Heap::new();
    let good_plugin = PluginFactory(&mut heap, false);
    assert_ne!(good_plugin, NULL);
    assert_eq!(com_get_refcnt(&heap, good_plugin), 1);
    assert_eq!(com_add_ref(&mut heap, good_plugin), 2);
    assert_eq!(com_get_refcnt(&heap, good_plugin), 2);
    assert_eq!(com_add_ref(&mut heap, good_plugin), 3);
    assert_eq!(com_get_refcnt(&heap, good_plugin), 3);
    assert_eq!(com_release(&mut heap, good_plugin), 2);
    assert_eq!(com_get_refcnt(&heap, good_plugin), 2);
    assert_eq!(com_release(&mut heap, good_plugin), 1);
    assert_eq!(heap.deallocation_count(), 0);
    assert!(heap.is_live(good_plugin));
    assert_eq!(com_release(&mut heap, good_plugin), 0);
    assert!(!heap.is_live(good_plugin));
    assert_eq!(heap.deallocation_count(), 1);
}

#[test]
fn last_release_deallocates_exactly_once() {
    let mut heap: Heap<Plugin> = Heap::new();
    let first = PluginFactory(&mut heap, false);
    let second = PluginFactory(&mut heap, false);
    assert_eq!(com_add_ref(&mut heap, first), 2);
    assert_eq!(com_release(&mut heap, first), 1);
    assert_eq!(heap.deallocation_count(), 0);
    assert_eq!(com_release(&mut heap, first), 0);
    assert_eq!(heap.deallocation_count(), 1);
    assert!(heap.is_live(second));
    assert_eq!(com_get_refcnt(&heap, second), 1);
    assert_eq!(heap.allocation_count(), 2);
}

#[test]
fn plugin_refuses_one_more_reference_on_a_full_counter_only() {
    let mut plugin = Plugin::new();
    assert_eq!(plugin.try_add_ref(), Ok(2));
    assert_eq!(plugin.try_add_ref(), Ok(3));
    assert_eq!(plugin.get_refcnt(), 3);
}

#[test]
fn further_release_after_the_last_is_refused_and_frees_nothing() {
    let mut heap: Heap<Plugin> = Heap::new();
    let p = PluginFactory(&mut heap, false);
    assert_eq!(try_com_add_ref(&mut heap, p), Ok(2));
    assert_eq!(try_com_release(&mut heap, p), Ok(1));
    assert_eq!(try_com_release(&mut heap, p), Ok(0));
    assert_eq!(heap.deallocation_count(), 1);
    assert_eq!(try_com_release(&mut heap, p), Err(RefCountError::Dead));
    assert_eq!(try_com_add_ref(&mut heap, p), Err(RefCountError::Dead));
    assert_eq!(heap.deallocation_count(), 1);
    assert_eq!(heap.allocation_count(), 1);
    assert!(!heap.is_live(p));
}

#[test]
fn operations_where_no_object_ever_was_are_refused() {
    let mut heap: Heap<Plugin> = Heap::new();
    let p = PluginFactory(&mut heap, false);
    assert_eq!(try_com_add_ref(&mut heap, NULL), Err(RefCountError::NoObject));
    assert_eq!(try_com_release(&mut heap, NULL), Err(RefCountError::NoObject));
    assert_eq!(try_com_release(&mut heap, p + 1), Err(RefCountError::NoObject));
    assert_eq!(try_com_add_ref(&mut heap, usize::MAX), Err(RefCountError::NoObject));
    assert_eq!(com_get_refcnt(&heap, p), 1);
    assert_eq!(heap.deallocation_count(), 0);
}

#[test]
fn a_released_plugin_does_not_come_back_with_the_next_one() {
    let mut heap: Heap<Plugin> = Heap::new();
    let first = PluginFactory(&mut heap, false);
    assert_eq!(try_com_release(&mut heap, first), Ok(0));
    let second = PluginFactory(&mut heap, false);
    assert_ne!(first, second);
    assert_eq!(try_com_add_ref(&mut heap, first), Err(RefCountError::Dead));
    assert_eq!(try_com_add_ref(&mut heap, second), Ok(2));
}
