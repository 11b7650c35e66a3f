use moto_rt_core::descriptors::Descriptors;
use moto_rt_core::posix::{get_file, new_file, pop_file, posix_duplicate, push_file, NO_HANDLE};
use moto_rt_core::E_BAD_HANDLE;

#[test]
fn reuse_scenario() {
    let mut t: Descriptors<&'static str> = Descriptors::new();
    assert_eq!(push_file(&mut t, "A"), 0);
    assert_eq!(push_file(&mut t, "B"), 1);
    let released = pop_file(&mut t, 0).unwrap();
    assert_eq!(released.file, "A");
    assert!(released.last);
    assert_eq!(push_file(&mut t, "C"), 0);
    assert_eq!(get_file(&t, 1), Some(&"B"));
    assert_eq!(get_file(&t, 0), Some(&"C"));
    assert_eq!(push_file(&mut t, "D"), 2);
}

#[test]
fn lookup_holds_until_release() {
    let mut t: Descriptors<u32> = Descriptors::new();
    let h = push_file(&mut t, 7);
    let other = push_file(&mut t, 8);
    assert_eq!(get_file(&t, h), Some(&7));
    pop_file(&mut t, other);
    push_file(&mut t, 9);
    assert_eq!(get_file(&t, h), Some(&7));
    pop_file(&mut t, h);
    assert_eq!(get_file(&t, h), None);
}

#[test]
fn reservations_are_distinct() {
    let mut t: Descriptors<u32> = Descriptors::new();
    let a = t.get_free_fd().unwrap();
    let b = t.get_free_fd().unwrap();
    assert_ne!(a, b);
    assert_eq!(get_file(&t, a), None);
    assert!(t.fill(b, 5));
    assert!(!t.fill(b, 6));
    assert_eq!(get_file(&t, b), Some(&5));
    assert!(t.fill(a, 4));
    assert_eq!(get_file(&t, a), Some(&4));
}

#[test]
fn fill_refuses_unreserved_handles() {
    let mut t: Descriptors<u32> = Descriptors::new();
    assert!(!t.fill(0, 1));
    assert!(!t.fill(-1, 1));
    let h = push_file(&mut t, 1);
    pop_file(&mut t, h);
    assert!(!t.fill(h, 2));
    assert_eq!(get_file(&t, h), None);
}

#[test]
fn constructor_learns_its_handle() {
    let mut t: Descriptors<i32> = Descriptors::new();
    push_file(&mut t, 100);
    push_file(&mut t, 101);
    let h = new_file(&mut t, |fd| fd * 10);
    assert_eq!(h, 2);
    assert_eq!(get_file(&t, 2), Some(&20));
}

#[test]
fn released_handle_is_reused_for_an_unrelated_object() {
    let mut t: Descriptors<u32> = Descriptors::new();
    let h = push_file(&mut t, 1);
    let rel = pop_file(&mut t, h).unwrap();
    assert!(rel.last);
    let h2 = push_file(&mut t, 2);
    assert_eq!(h2, h);
    assert_eq!(get_file(&t, h2), Some(&2));
    assert!(pop_file(&mut t, h2).unwrap().last);
}

#[test]
fn duplicate_outlives_first_handle() {
    let mut t: Descriptors<String> = Descriptors::new();
    let h = push_file(&mut t, String::from("shared"));
    let h2 = t.duplicate(h).unwrap();
    assert_ne!(h, h2);
    assert_eq!(get_file(&t, h2).map(|s| s.as_str()), Some("shared"));
    let first = pop_file(&mut t, h).unwrap();
    assert!(!first.last);
    assert_eq!(get_file(&t, h2).map(|s| s.as_str()), Some("shared"));
    let second = pop_file(&mut t, h2).unwrap();
    assert!(second.last);
}

#[test]
fn duplicate_of_missing_handle_fails() {
    let mut t: Descriptors<u32> = Descriptors::new();
    assert_eq!(t.duplicate(0), None);
    assert_eq!(t.duplicate(-3), None);
}

#[test]
fn missing_handles_are_not_found() {
    let mut t: Descriptors<u32> = Descriptors::new();
    assert_eq!(get_file(&t, 0), None);
    assert_eq!(get_file(&t, -1), None);
    assert!(pop_file(&mut t, 0).is_none());
    let h = push_file(&mut t, 3);
    assert!(pop_file(&mut t, h).is_some());
    assert!(pop_file(&mut t, h).is_none());
    assert_eq!(get_file(&t, h), None);
    // The second release left the free list alone: one reuse, then a new slot.
    assert_eq!(push_file(&mut t, 4), h);
    assert_eq!(push_file(&mut t, 5), h + 1);
}

#[derive(Clone)]
struct Plain;

impl moto_rt_core::posix::PosixFile for Plain {}

#[test]
fn posix_duplicate_reports_bad_handle() {
    let mut t: Descriptors<Plain> = Descriptors::new();
    assert_eq!(posix_duplicate(&mut t, 4), -(E_BAD_HANDLE as i32));
    let h = push_file(&mut t, Plain);
    let h2 = posix_duplicate(&mut t, h);
    assert_eq!(h2, 1);
    assert!(get_file(&t, h2).is_some());
    assert_eq!(NO_HANDLE, -(moto_rt::E_OUT_OF_MEMORY as i32));
}
