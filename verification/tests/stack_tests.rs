use crescent::vm::error::StackError;
use crescent::vm::lua_stack::LuaStack;
use crescent::vm::lua_value::LuaValue;

#[test]
fn test_lua_stack() {
    let mut stack = LuaStack::new(7);
    stack.push(LuaValue::Boolean(true)).unwrap();
    assert_eq!(stack.top, 1);
    stack.push(LuaValue::Integer(1)).unwrap();

    stack.push(LuaValue::Number(2.0f64.to_bits())).unwrap();
    stack.push(LuaValue::String(b"string".to_vec())).unwrap();
    stack.push(LuaValue::Nil).unwrap();

    let pop_value = stack.pop().unwrap();
    assert_eq!(pop_value, LuaValue::Nil);

    assert_eq!(stack.get(2).unwrap(), LuaValue::Number(2.0f64.to_bits()));
    stack.set(2, LuaValue::Number(3.0f64.to_bits())).unwrap();
    assert_eq!(stack.get(2).unwrap(), LuaValue::Number(3.0f64.to_bits()));

    stack.check(7);
    println!("{:#?}", stack);
    assert_eq!(stack.top, 4);
    assert_eq!(stack.slots.len(), 11);
}

#[test]
fn test_stack_overflow_and_underflow() {
    let mut stack = LuaStack::new(2);
    assert_eq!(stack.pop(), Err(StackError::Underflow));
    assert_eq!(stack.push(LuaValue::Integer(1)), Ok(()));
    assert_eq!(stack.push(LuaValue::Integer(2)), Ok(()));
    assert_eq!(stack.push(LuaValue::Integer(3)), Err(StackError::Overflow));
    assert_eq!(stack.top, 2);
    assert!(stack.check(1));
    assert_eq!(stack.slots.len(), 3);
    assert_eq!(stack.push(LuaValue::Integer(3)), Ok(()));
    assert!(!stack.check(usize::MAX));
    assert_eq!(stack.pop(), Ok(LuaValue::Integer(3)));
    assert_eq!(stack.slots[2], LuaValue::Nil);
}

#[test]
fn test_stack_indexing() {
    let mut stack = LuaStack::new(4);
    for i in 0..3 {
        stack.push(LuaValue::Integer(10 + i)).unwrap();
    }
    assert_eq!(stack.abs_index(0), Some(0));
    assert_eq!(stack.abs_index(2), Some(2));
    assert_eq!(stack.abs_index(-1), Some(2));
    assert_eq!(stack.abs_index(-3), Some(0));
    assert_eq!(stack.abs_index(-4), None);
    assert_eq!(stack.abs_index(i32::MIN), None);
    assert!(stack.is_valid(0));
    assert!(stack.is_valid(-1));
    assert!(!stack.is_valid(3));
    assert!(!stack.is_valid(-4));
    assert_eq!(stack.get(-1), Ok(LuaValue::Integer(12)));
    assert_eq!(stack.get(3), Ok(LuaValue::Nil));
    assert_eq!(stack.get(4), Err(StackError::OutOfBounds));
    assert_eq!(stack.get(-4), Err(StackError::OutOfBounds));
    assert_eq!(stack.set(-2, LuaValue::Boolean(true)), Ok(()));
    assert_eq!(stack.get(1), Ok(LuaValue::Boolean(true)));
    assert_eq!(stack.set(4, LuaValue::Nil), Err(StackError::OutOfBounds));
}

#[test]
fn test_stack_reverse() {
    let mut stack = LuaStack::new(6);
    for i in 0..5 {
        stack.push(LuaValue::Integer(i)).unwrap();
    }
    assert_eq!(stack.reverse(1, 3), Ok(()));
    let seen: Vec<LuaValue> = (0..5).map(|i| stack.get(i).unwrap()).collect();
    assert_eq!(
        seen,
        vec![
            LuaValue::Integer(0),
            LuaValue::Integer(3),
            LuaValue::Integer(2),
            LuaValue::Integer(1),
            LuaValue::Integer(4)
        ]
    );
    assert_eq!(stack.reverse(0, 4), Ok(()));
    assert_eq!(stack.get(0), Ok(LuaValue::Integer(4)));
    assert_eq!(stack.get(4), Ok(LuaValue::Integer(0)));
    assert_eq!(stack.reverse(3, 3), Ok(()));
    assert_eq!(stack.reverse(4, 1), Ok(()));
    assert_eq!(stack.reverse(2, 6), Err(StackError::OutOfBounds));
    assert_eq!(stack.reverse(-1, 2), Err(StackError::OutOfBounds));
    assert_eq!(stack.get(2), Ok(LuaValue::Integer(2)));
}
