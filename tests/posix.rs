use moto_rt_core::descriptors::{Descriptors, Released};
use moto_rt_core::posix::{
    get_file, op_result, pop_file, posix_close, posix_flush, posix_read, posix_write, push_file,
    transfer_result, PosixFile, BAD_HANDLE_STATUS,
};
use moto_rt_core::{ErrorCode, E_BAD_HANDLE, E_INVALID_ARGUMENT, E_OK, E_OUT_OF_MEMORY};
use std::cell::Cell;
use std::rc::Rc;

/// Only reads: fills the buffer with a byte.
struct Reader;

impl PosixFile for Reader {
    fn read(&self, buf: &mut [u8]) -> Result<usize, ErrorCode> {
        for b in buf.iter_mut() {
            *b = 0xAB;
        }
        Ok(buf.len())
    }
}

/// Counts closes and fails writes with its own code.
#[derive(Clone)]
struct Counted {
    closes: Rc<Cell<u32>>,
}

impl PosixFile for Counted {
    fn write(&self, _buf: &[u8]) -> Result<usize, ErrorCode> {
        Err(21)
    }
    fn flush(&self) -> Result<(), ErrorCode> {
        Ok(())
    }
    fn close(&self) -> Result<(), ErrorCode> {
        self.closes.set(self.closes.get() + 1);
        Ok(())
    }
}

#[test]
fn error_codes_match_the_runtime() {
    assert_eq!(E_OK, moto_rt::E_OK);
    assert_eq!(E_BAD_HANDLE, moto_rt::E_BAD_HANDLE);
    assert_eq!(E_INVALID_ARGUMENT, moto_rt::E_INVALID_ARGUMENT);
    assert_eq!(E_OUT_OF_MEMORY, moto_rt::E_OUT_OF_MEMORY);
    assert_eq!(BAD_HANDLE_STATUS, -(moto_rt::E_BAD_HANDLE as i64));
}

#[test]
fn unimplemented_operations_report_bad_handle() {
    let r = Reader;
    assert_eq!(r.write(&[1, 2]), Err(E_BAD_HANDLE));
    assert_eq!(r.flush(), Err(E_BAD_HANDLE));
    assert_eq!(r.close(), Err(E_BAD_HANDLE));
    assert_eq!(r.poll_add(1, 2, 3), Err(E_INVALID_ARGUMENT));
    assert_eq!(r.poll_set(1, 2, 3), Err(E_INVALID_ARGUMENT));
    assert_eq!(r.poll_del(1), Err(E_INVALID_ARGUMENT));
    let mut buf = [0u8; 3];
    assert_eq!(r.read(&mut buf), Ok(3));
    assert_eq!(buf, [0xAB; 3]);
}

#[test]
fn read_and_write_through_handles() {
    let mut t: Descriptors<Reader> = Descriptors::new();
    let h = push_file(&mut t, Reader);
    let mut buf = [0u8; 4];
    assert_eq!(posix_read(get_file(&t, h), &mut buf), 4);
    assert_eq!(buf, [0xAB; 4]);
    assert_eq!(posix_write(get_file(&t, h), &[1, 2, 3]), -(E_BAD_HANDLE as i64));
    assert_eq!(posix_flush(get_file(&t, h)), E_BAD_HANDLE);
    let mut other = [0u8; 2];
    assert_eq!(posix_read(get_file(&t, 9), &mut other), BAD_HANDLE_STATUS);
    assert_eq!(other, [0, 0]);
    assert_eq!(posix_write(get_file(&t, -1), &[1]), BAD_HANDLE_STATUS);
    assert_eq!(posix_flush(get_file(&t, 9)), E_BAD_HANDLE);
}

#[test]
fn object_errors_pass_through() {
    let closes = Rc::new(Cell::new(0));
    let mut t: Descriptors<Counted> = Descriptors::new();
    let h = push_file(&mut t, Counted { closes: closes.clone() });
    assert_eq!(posix_write(get_file(&t, h), &[1]), -21);
    assert_eq!(posix_flush(get_file(&t, h)), E_OK);
}

#[test]
fn close_runs_once_on_the_last_handle() {
    let closes = Rc::new(Cell::new(0));
    let mut t: Descriptors<Counted> = Descriptors::new();
    let h = push_file(&mut t, Counted { closes: closes.clone() });
    let h2 = t.duplicate(h).unwrap();
    assert_eq!(posix_close(pop_file(&mut t, h)), E_OK);
    assert_eq!(closes.get(), 0);
    assert_eq!(posix_close(pop_file(&mut t, h)), E_BAD_HANDLE);
    assert_eq!(closes.get(), 0);
    assert_eq!(posix_close(pop_file(&mut t, h2)), E_OK);
    assert_eq!(closes.get(), 1);
    assert_eq!(posix_close(pop_file(&mut t, h2)), E_BAD_HANDLE);
    assert_eq!(closes.get(), 1);
}

#[test]
fn close_reports_the_objects_error() {
    let rel = Released { file: Reader, last: true };
    assert_eq!(posix_close(Some(rel)), E_BAD_HANDLE);
    let none: Option<Released<Reader>> = None;
    assert_eq!(posix_close(none), E_BAD_HANDLE);
}

#[test]
fn status_folding() {
    assert_eq!(transfer_result(Ok(12)), 12);
    assert_eq!(transfer_result(Ok(0)), 0);
    assert_eq!(transfer_result(Err(E_BAD_HANDLE)), -17);
    assert_eq!(op_result(Ok(())), E_OK);
    assert_eq!(op_result(Err(9)), 9);
}
