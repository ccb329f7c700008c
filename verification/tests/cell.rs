use wasm_shim_core::sync::WaitableCell;

#[test]
fn basic() {
    let mut cell = WaitableCell::<i32>::new();
    cell.set(42).unwrap();
    assert_eq!(42, cell.wait());
}

#[test]
fn basic_timeout_zero() {
    let mut cell = WaitableCell::<i32>::new();
    cell.set(42).unwrap();
    assert_eq!(Some(42), cell.try_wait());
}

#[test]
fn unset_timeout_zero() {
    let cell = WaitableCell::<i32>::new();
    assert_eq!(None, cell.try_wait());
}

#[test]
fn basic_double_set() {
    let mut cell = WaitableCell::<i32>::new();
    assert_eq!(Ok(()), cell.set(42));
    assert_eq!(Err(24), cell.set(24));
    assert_eq!(Some(42), cell.try_wait());
}

#[test]
fn guard() {
    let mut cell = WaitableCell::<i32>::new();
    let guard = cell.set_guard_with(42);
    guard.resolve(&mut cell);
    assert_eq!(42, cell.wait());
}

#[test]
fn guard_no_op() {
    let mut cell = WaitableCell::<i32>::new();
    let guard = cell.set_guard_with(42);
    let _ = cell.set(24);
    guard.resolve(&mut cell);
    assert_eq!(24, cell.wait());
}

#[test]
fn set_after_guard_fails() {
    let mut cell = WaitableCell::<i32>::new();
    let guard = cell.set_guard_with(7);
    guard.resolve(&mut cell);
    assert_eq!(Err(8), cell.set(8));
    assert_eq!(Some(7), cell.try_wait());
}
