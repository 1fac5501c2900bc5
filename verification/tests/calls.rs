use wasm_host::elements::ValueType;
use wasm_host::error::Error;
use wasm_host::func::{check_args, AnyFunc, Func0, Func1, Func2};
use wasm_host::value::RuntimeValue;

#[derive(Debug, PartialEq)]
struct Log {
    calls: u32,
    last: i64,
}

fn fresh() -> Log {
    Log { calls: 0, last: 0 }
}

fn record(state: &mut Log, x: i32) -> Result<Option<i32>, Error> {
    state.calls += 1;
    state.last = x as i64;
    Ok(Some(x.wrapping_mul(2)))
}

fn refuse(state: &mut Log, x: i32) -> Result<Option<i32>, Error> {
    state.calls += 1;
    Err(Error::Host(format!("refused {}", x)))
}

fn nothing(state: &mut Log, _x: i64) -> Result<Option<i64>, Error> {
    state.calls += 1;
    Ok(None)
}

fn note(state: &mut Log, x: i64) -> Result<Option<()>, Error> {
    state.last = x;
    Ok(Some(()))
}

fn count(state: &mut Log) -> Result<Option<i32>, Error> {
    state.calls += 1;
    Ok(Some(state.calls as i32))
}

fn shift(state: &mut Log, x: i64, by: i32) -> Result<Option<i64>, Error> {
    state.calls += 1;
    Ok(Some(x << by))
}

#[test]
fn call_unpacks_the_argument_and_packs_the_result() {
    let func = Func1::new(record);
    let mut state = fresh();
    let result = func.call_as_any(&mut state, &[RuntimeValue::I32(21)]);
    assert_eq!(result, Ok(Some(RuntimeValue::I32(42))));
    assert_eq!(state, Log { calls: 1, last: 21 });
}

#[test]
fn argument_of_the_wrong_type_is_refused() {
    let func = Func1::new(record);
    let mut state = fresh();
    let result = func.call_as_any(&mut state, &[RuntimeValue::I64(21)]);
    assert_eq!(
        result,
        Err(Error::ArgumentType { index: 0, expected: ValueType::I32, actual: ValueType::I64 })
    );
    assert_eq!(state, fresh());
    let result = func.call_as_any(&mut state, &[RuntimeValue::F32(0x3f80_0000)]);
    assert_eq!(
        result,
        Err(Error::ArgumentType { index: 0, expected: ValueType::I32, actual: ValueType::F32 })
    );
    assert_eq!(state, fresh());
}

#[test]
fn wrong_number_of_arguments_is_refused() {
    let func = Func1::new(record);
    let mut state = fresh();
    assert_eq!(
        func.call_as_any(&mut state, &[]),
        Err(Error::ArgumentCount { arity: 1, given: 0 })
    );
    assert_eq!(
        func.call_as_any(&mut state, &[RuntimeValue::I32(1), RuntimeValue::I32(2)]),
        Err(Error::ArgumentCount { arity: 1, given: 2 })
    );
    assert_eq!(state, fresh());
}

#[test]
fn wrong_number_is_told_before_wrong_type() {
    let func = Func1::new(record);
    let mut state = fresh();
    assert_eq!(
        func.call_as_any(&mut state, &[RuntimeValue::I64(1), RuntimeValue::I64(2)]),
        Err(Error::ArgumentCount { arity: 1, given: 2 })
    );
}

#[test]
fn closure_failure_comes_back_unchanged() {
    let func = Func1::new(refuse);
    let mut state = fresh();
    let result = func.call_as_any(&mut state, &[RuntimeValue::I32(5)]);
    assert_eq!(result, Err(Error::Host(String::from("refused 5"))));
    assert_eq!(state.calls, 1);
}

#[test]
fn closure_that_returns_nothing_yields_no_value() {
    let func = Func1::new(nothing);
    let mut state = fresh();
    assert_eq!(func.call_as_any(&mut state, &[RuntimeValue::I64(5)]), Ok(None));
    assert_eq!(state.calls, 1);
}

#[test]
fn unit_result_yields_no_value() {
    let func = Func1::new(note);
    let mut state = fresh();
    assert_eq!(func.call_as_any(&mut state, &[RuntimeValue::I64(-9)]), Ok(None));
    assert_eq!(state.last, -9);
}

#[test]
fn function_without_parameters_takes_no_argument() {
    let func = Func0::new(count);
    let mut state = fresh();
    assert_eq!(func.call_as_any(&mut state, &[]), Ok(Some(RuntimeValue::I32(1))));
    assert_eq!(func.call_as_any(&mut state, &[]), Ok(Some(RuntimeValue::I32(2))));
    assert_eq!(
        func.call_as_any(&mut state, &[RuntimeValue::I32(0)]),
        Err(Error::ArgumentCount { arity: 0, given: 1 })
    );
    assert_eq!(state.calls, 2);
}

#[test]
fn two_arguments_are_taken_in_order() {
    let func = Func2::new(shift);
    let mut state = fresh();
    let result = func.call_as_any(&mut state, &[RuntimeValue::I64(3), RuntimeValue::I32(4)]);
    assert_eq!(result, Ok(Some(RuntimeValue::I64(48))));
    assert_eq!(state.calls, 1);
}

#[test]
fn first_argument_that_does_not_fit_is_named() {
    let func = Func2::new(shift);
    let mut state = fresh();
    assert_eq!(
        func.call_as_any(&mut state, &[RuntimeValue::I32(4), RuntimeValue::I64(3)]),
        Err(Error::ArgumentType { index: 0, expected: ValueType::I64, actual: ValueType::I32 })
    );
    assert_eq!(
        func.call_as_any(&mut state, &[RuntimeValue::I64(3), RuntimeValue::F64(4)]),
        Err(Error::ArgumentType { index: 1, expected: ValueType::I32, actual: ValueType::F64 })
    );
    assert_eq!(
        func.call_as_any(&mut state, &[RuntimeValue::I64(3)]),
        Err(Error::ArgumentCount { arity: 2, given: 1 })
    );
    assert_eq!(state, fresh());
}

#[test]
fn check_args_accepts_what_fits() {
    assert_eq!(check_args(&[], &[]), Ok(()));
    assert_eq!(
        check_args(
            &[ValueType::I32, ValueType::F64, ValueType::I64],
            &[RuntimeValue::I32(1), RuntimeValue::F64(2), RuntimeValue::I64(3)]
        ),
        Ok(())
    );
}

#[test]
fn check_args_names_the_first_fault() {
    assert_eq!(
        check_args(&[ValueType::I32], &[]),
        Err(Error::ArgumentCount { arity: 1, given: 0 })
    );
    assert_eq!(
        check_args(
            &[ValueType::I32, ValueType::F64, ValueType::I64],
            &[RuntimeValue::I32(1), RuntimeValue::F32(2), RuntimeValue::I32(3)]
        ),
        Err(Error::ArgumentType { index: 1, expected: ValueType::F64, actual: ValueType::F32 })
    );
    assert_eq!(
        check_args(
            &[ValueType::I32, ValueType::F64, ValueType::I64],
            &[RuntimeValue::I32(1), RuntimeValue::F64(2), RuntimeValue::I32(3)]
        ),
        Err(Error::ArgumentType { index: 2, expected: ValueType::I64, actual: ValueType::I32 })
    );
}

#[test]
fn refused_call_is_refused_the_same_way_every_time() {
    let func = Func1::new(record);
    let mut state = fresh();
    for _ in 0..3 {
        assert_eq!(
            func.call_as_any(&mut state, &[RuntimeValue::F64(7)]),
            Err(Error::ArgumentType { index: 0, expected: ValueType::I32, actual: ValueType::F64 })
        );
        assert_eq!(state, fresh());
    }
    // a call that fits still goes through afterwards
    assert_eq!(func.call_as_any(&mut state, &[RuntimeValue::I32(7)]), Ok(Some(RuntimeValue::I32(14))));
    assert_eq!(state, Log { calls: 1, last: 7 });
}
