use powersync::db::result_code::{
    convert_prepare, convert_rc, convert_step, ResultCode, SQLITE_ABORT, SQLITE_DONE, SQLITE_NULL,
    SQLITE_OK, SQLITE_ROW,
};

#[test]
fn primary_codes_are_known() {
    for code in 0..=28 {
        assert_eq!(ResultCode::from_i32(code).unwrap().code(), code);
    }
    assert_eq!(ResultCode::from_i32(100).unwrap().code(), SQLITE_ROW);
    assert_eq!(ResultCode::from_i32(101).unwrap().code(), SQLITE_DONE);
    assert_eq!(ResultCode::from_i32(5000).unwrap().code(), SQLITE_NULL);
    assert!(ResultCode::from_i32(29).is_none());
    assert!(ResultCode::from_i32(102).is_none());
    assert!(ResultCode::from_i32(-1).is_none());
    assert!(ResultCode::from_i32(i32::MIN).is_none());
    assert!(ResultCode::from_i32(i32::MAX).is_none());
}

#[test]
fn extended_codes_are_known() {
    let ffi = [
        rusqlite::ffi::SQLITE_ERROR_SNAPSHOT,
        rusqlite::ffi::SQLITE_IOERR_READ,
        rusqlite::ffi::SQLITE_IOERR_CORRUPTFS,
        rusqlite::ffi::SQLITE_BUSY_TIMEOUT,
        rusqlite::ffi::SQLITE_BUSY_SNAPSHOT,
        rusqlite::ffi::SQLITE_LOCKED_VTAB,
        rusqlite::ffi::SQLITE_CANTOPEN_SYMLINK,
        rusqlite::ffi::SQLITE_CORRUPT_INDEX,
        rusqlite::ffi::SQLITE_READONLY_DIRECTORY,
        rusqlite::ffi::SQLITE_ABORT_ROLLBACK,
        rusqlite::ffi::SQLITE_CONSTRAINT_FOREIGNKEY,
        rusqlite::ffi::SQLITE_CONSTRAINT_DATATYPE,
        rusqlite::ffi::SQLITE_NOTICE_RECOVER_ROLLBACK,
        rusqlite::ffi::SQLITE_WARNING_AUTOINDEX,
        rusqlite::ffi::SQLITE_AUTH_USER,
        rusqlite::ffi::SQLITE_OK_SYMLINK,
    ];
    for code in ffi {
        assert_eq!(ResultCode::from_i32(code).unwrap().code(), code);
    }
    // The first extended code of SQLITE_ABORT is not in use.
    assert!(ResultCode::from_i32(4 + 256).is_none());
    assert!(ResultCode::from_i32(10 + 34 * 256).is_none());
    assert!(ResultCode::from_i32(2 + 256).is_none());
}

#[test]
fn exactly_the_known_codes_are_accepted() {
    let known = (-70_000..70_000).filter(|code| ResultCode::from_i32(*code).is_some()).count();
    assert_eq!(known, 107);
}

#[test]
fn return_codes_become_replies() {
    assert_eq!(convert_rc(0).unwrap().code(), SQLITE_OK);
    assert_eq!(convert_rc(5).unwrap_err().code(), 5);
    assert_eq!(convert_rc(100).unwrap_err().code(), SQLITE_ROW);
    assert_eq!(convert_rc(77).unwrap_err().code(), SQLITE_ABORT);

    assert_eq!(convert_step(100).unwrap().unwrap().code(), SQLITE_ROW);
    assert_eq!(convert_step(101).unwrap().unwrap().code(), SQLITE_DONE);
    assert_eq!(convert_step(0).unwrap().unwrap_err().code(), SQLITE_OK);
    assert_eq!(convert_step(19).unwrap().unwrap_err().code(), 19);
    assert!(convert_step(77).is_none());

    assert_eq!(convert_prepare(0).unwrap().unwrap().code(), SQLITE_OK);
    assert_eq!(convert_prepare(1).unwrap().unwrap_err().code(), 1);
    assert_eq!(convert_prepare(100).unwrap().unwrap_err().code(), SQLITE_ROW);
    assert!(convert_prepare(77).is_none());
}
