use moto_rt_core::vtable::{DispatchTable, InstallError, Op, SLOT_COUNT, SUPPORTED_VERSION};

fn entries() -> [u64; SLOT_COUNT] {
    let mut e = [0u64; SLOT_COUNT];
    for (i, slot) in e.iter_mut().enumerate() {
        *slot = 0x1000 + 8 * i as u64;
    }
    e
}

#[test]
fn install_publishes_every_slot() {
    let mut t = DispatchTable::prepared(0x4000);
    assert_eq!(t.read(Op::Alloc), None);
    assert!(!t.is_ready());
    assert_eq!(t.install(SUPPORTED_VERSION, 0x4000, &entries()), Ok(()));
    assert!(t.is_ready());
    assert_eq!(t.entry(), 0x4000);
    assert_eq!(t.read(Op::LoadVdso), Some(0x1000));
    assert_eq!(t.read(Op::LogToKernel), Some(0x1008));
    assert_eq!(t.read(Op::Alloc), Some(0x1010));
    assert_eq!(t.read(Op::FsChdir), Some(0x1000 + 8 * (SLOT_COUNT as u64 - 1)));
}

#[test]
fn install_twice_is_refused() {
    let mut t = DispatchTable::prepared(7);
    assert_eq!(t.install(1, 7, &entries()), Ok(()));
    let other = [5u64; SLOT_COUNT];
    assert_eq!(t.install(1, 7, &other), Err(InstallError::AlreadyInstalled));
    assert_eq!(t.read(Op::FutexWait), Some(entries()[Op::FutexWait.index()]));
}

#[test]
fn wrong_version_is_refused() {
    let mut t = DispatchTable::prepared(7);
    assert_eq!(t.install(2, 7, &entries()), Err(InstallError::VersionMismatch));
    assert_eq!(t.install(0, 8, &entries()), Err(InstallError::VersionMismatch));
    assert_eq!(t.read(Op::ThreadSpawn), None);
}

#[test]
fn unprepared_table_is_refused() {
    let mut t = DispatchTable::prepared(7);
    assert_eq!(t.install(1, 8, &entries()), Err(InstallError::NotPrepared));
    assert!(!t.is_ready());
    assert_eq!(t.read(Op::FsOpen), None);
}

#[test]
fn slots_are_distinct_and_ordered() {
    assert_eq!(Op::LoadVdso.index(), 0);
    assert_eq!(Op::Alloc.index(), 2);
    assert_eq!(Op::TimeInstantNow.index(), 6);
    assert_eq!(Op::FsChdir.index(), SLOT_COUNT - 1);
}
