use crescent::compiler::ast::block::Block;
use crescent::compiler::ast::expression::Expression;
use crescent::compiler::ast::statement::Statement;
use crescent::compiler::codegen::codegen_block::{
    codegen_block, codegen_expression, codegen_return_statement, codegen_statement,
    is_vararg_or_func_call,
};
use crescent::compiler::codegen::function_info::{
    Any, CodegenError, FunctionInfo, LocalVariableInfo,
};
use crescent::compiler::codegen::linked_list::LinkedList;
use crescent::compiler::parser::parser::parse_chunk;
use crescent::vm::binary_chunk::Prototype;
use crescent::vm::instruction::{abc_word, abx_word, asbx_word, sj_word, InstructionOperation};
use crescent::vm::lua_value::LuaValue;
use crescent::vm::lua_vm::{load_main, Step};
use crescent::vm::op_code::OpCodeEnum;

fn constant(value: LuaValue) -> Any {
    Any { value }
}

#[test]
fn test_linked_list() {
    let mut list: LinkedList<i32> = LinkedList::new();
    assert_eq!(list.peek(), None);
    assert_eq!(list.pop(), None);
    list.push(1);
    list.push(2);
    list.push(3);
    assert_eq!(list.peek(), Some(&3));
    assert_eq!(list.pop(), Some(3));
    assert_eq!(list.peek(), Some(&2));
    let chain = list.top();
    assert_eq!(list.peek(), None);
    let rest = LinkedList::next_node(chain);
    assert_eq!(LinkedList::peek_node_value(rest), Some(1));
    assert_eq!(LinkedList::<i32>::peek_node_value(None), None);
    assert!(LinkedList::<i32>::next_node(None).is_none());
    let mut one: LinkedList<i32> = LinkedList::new();
    one.push(7);
    let chain = one.top();
    assert!(LinkedList::next_node(chain).is_none());
}

#[test]
fn test_instruction_words() {
    let w = abc_word(OpCodeEnum::OpRETURN, 1, false, 1, 1);
    assert_eq!(w, 16842950);
    assert_eq!(w.abc(), (1, 1, 1));
    let w = abc_word(OpCodeEnum::OpEQ, 255, true, 254, 253);
    assert_eq!(w.operation(), Some(OpCodeEnum::OpEQ));
    assert_eq!(w.abc(), (255, 254, 253));
    assert_eq!(w.k(), 1);
    let w = abx_word(OpCodeEnum::OpLOADK, 1, 1);
    assert_eq!(w, 32899);
    let w = abx_word(OpCodeEnum::OpLOADK, 200, 131071);
    assert_eq!(w.a_bx(), (200, 131071));
    let w = asbx_word(OpCodeEnum::OpLOADI, 3, -65535);
    assert_eq!(w.a_sbx(), (3, -65535));
    assert_eq!(asbx_word(OpCodeEnum::OpLOADI, 3, 65536).a_sbx(), (3, 65536));
    assert_eq!(sj_word(OpCodeEnum::OpJMP, -1), 2147483448);
    assert_eq!(sj_word(OpCodeEnum::OpJMP, 16777216).sj(), 16777216);
    assert_eq!(sj_word(OpCodeEnum::OpJMP, -16777215).sj(), -16777215);
    assert_eq!(sj_word(OpCodeEnum::OpJMP, 5).op_name(), "JMP");
}

#[test]
fn test_registers() {
    let mut info = FunctionInfo::new(None);
    assert_eq!(info.alloc_register(), Ok(0));
    assert_eq!(info.alloc_register(), Ok(1));
    assert_eq!((info.used_regs, info.max_regs), (2, 2));
    assert_eq!(info.free_register(), Ok(()));
    assert_eq!((info.used_regs, info.max_regs), (1, 2));
    assert_eq!(info.alloc_registers(3), Ok(1));
    assert_eq!((info.used_regs, info.max_regs), (4, 4));
    assert_eq!(info.alloc_registers(0), Ok(4));
    assert_eq!(info.alloc_registers(-1), Err(CodegenError::BadOperand));
    assert_eq!(info.alloc_registers(252), Err(CodegenError::TooManyRegisters));
    assert_eq!(info.alloc_registers(251), Ok(4));
    assert_eq!(info.alloc_register(), Err(CodegenError::TooManyRegisters));
    assert_eq!(info.used_regs, 255);
    assert_eq!(info.free_registers(256), Err(CodegenError::NoRegisterInUse));
    assert_eq!(info.free_registers(-1), Err(CodegenError::BadOperand));
    assert_eq!(info.free_registers(255), Ok(()));
    assert_eq!(info.free_register(), Err(CodegenError::NoRegisterInUse));
    assert_eq!((info.used_regs, info.max_regs), (0, 255));
}

#[test]
fn test_constants() {
    let mut info = FunctionInfo::new(None);
    assert_eq!(info.index_of_constant(constant(LuaValue::Integer(7))), 0);
    assert_eq!(info.index_of_constant(constant(LuaValue::String(b"x".to_vec()))), 1);
    assert_eq!(info.index_of_constant(constant(LuaValue::Integer(7))), 0);
    assert_eq!(info.index_of_constant(constant(LuaValue::Nil)), 2);
    assert_eq!(info.index_of_constant(constant(LuaValue::String(b"x".to_vec()))), 1);
    // an integer is no number
    assert_eq!(info.index_of_constant(constant(LuaValue::Number(7.0f64.to_bits()))), 3);
    assert_eq!(info.constants.len(), 4);
    assert_eq!(info.find_constant(&LuaValue::Nil), 2);
    assert_eq!(info.find_constant(&LuaValue::Boolean(true)), 4);
}

#[test]
fn test_local_variables() {
    let mut info = FunctionInfo::new(None);
    assert_eq!(info.add_local_variable("a".to_string()), Ok(0));
    info.enter_scope(false);
    assert_eq!(info.add_local_variable("b".to_string()), Ok(1));
    assert_eq!(info.add_local_variable("a".to_string()), Ok(2));
    assert_eq!(info.slot_of_local_variable("a".to_string()), 2);
    assert_eq!(info.slot_of_local_variable("b".to_string()), 1);
    assert_eq!(info.slot_of_local_variable("c".to_string()), -1);
    assert_eq!(
        info.get_lacal_variable_by_name("a".to_string()),
        Some(LocalVariableInfo::new("a".to_string(), 1, 2, false))
    );
    assert_eq!(info.get_lacal_variable_by_name("z".to_string()), None);
    assert_eq!(info.get_jump_arg_a(), 0);
    assert_eq!(info.exit_scope(), Ok(()));
    assert_eq!(info.scope_level, 0);
    assert_eq!(info.used_regs, 1);
    assert_eq!(info.slot_of_local_variable("a".to_string()), 0);
    assert_eq!(info.slot_of_local_variable("b".to_string()), -1);
    assert_eq!(info.exit_scope(), Err(CodegenError::NoScope));
    assert_eq!(
        info.remove_local_variable(),
        Ok(LocalVariableInfo::new("a".to_string(), 0, 0, false))
    );
    assert_eq!(info.remove_local_variable(), Err(CodegenError::NoRegisterInUse));
    assert_eq!(info.used_regs, 0);
}

#[test]
fn test_breaks_and_scopes() {
    let mut info = FunctionInfo::new(None);
    assert_eq!(info.pc(), -1);
    assert_eq!(info.add_breack_jump(0), Err(CodegenError::NotInLoop));
    info.enter_scope(true);
    info.enter_scope(false);
    for _ in 0..5 {
        info.emit(0);
    }
    assert_eq!(info.pc(), 4);
    assert_eq!(info.add_breack_jump(1), Ok(()));
    assert_eq!(info.add_breack_jump(3), Ok(()));
    assert_eq!(info.breaks, vec![Some(vec![1, 3]), None]);
    assert_eq!(info.exit_scope(), Ok(()));
    assert_eq!(info.instructions, vec![0, 0, 0, 0, 0]);
    assert_eq!(info.exit_scope(), Ok(()));
    // each break has become a jump to the end of the code
    assert_eq!(
        info.instructions,
        vec![0, sj_word(OpCodeEnum::OpJMP, 3), 0, sj_word(OpCodeEnum::OpJMP, 1), 0]
    );
    assert_eq!(info.breaks.len(), 0);
    assert_eq!(info.scope_level, 0);
    info.enter_scope(true);
    assert_eq!(info.add_breack_jump(9), Ok(()));
    assert_eq!(info.exit_scope(), Err(CodegenError::BadJump));
    assert_eq!(info.scope_level, 1);
    assert_eq!(info.breaks.len(), 1);
}

#[test]
fn test_upvalues() {
    let mut outer = FunctionInfo::new(None);
    outer.add_local_variable("x".to_string()).unwrap();
    outer.add_local_variable("y".to_string()).unwrap();
    let mut middle = FunctionInfo::new(Some(Box::new(outer)));
    middle.add_local_variable("m".to_string()).unwrap();
    let mut inner = FunctionInfo::new(Some(Box::new(middle)));
    assert_eq!(inner.index_of_upvalue("nowhere".to_string()), -1);
    assert_eq!(inner.upvalues.len(), 0);
    assert_eq!(inner.index_of_upvalue("m".to_string()), 0);
    assert_eq!(inner.upvalues[0].name, "m");
    assert_eq!(inner.upvalues[0].local_variable_slot, 0);
    assert_eq!(inner.upvalues[0].upvale_index, -1);
    assert_eq!(inner.index_of_upvalue("y".to_string()), 1);
    assert_eq!(inner.upvalues[1].local_variable_slot, -1);
    assert_eq!(inner.upvalues[1].upvale_index, 0);
    assert_eq!(inner.index_of_upvalue("m".to_string()), 0);
    assert_eq!(inner.index_of_upvalue("y".to_string()), 1);
    assert_eq!(inner.upvalues.len(), 2);
    let middle = inner.parent.as_ref().unwrap();
    assert_eq!(middle.upvalues.len(), 1);
    assert_eq!(middle.upvalues[0].name, "y");
    assert_eq!(middle.upvalues[0].local_variable_slot, 1);
    assert_eq!(
        middle.get_lacal_variable_by_name("m".to_string()),
        Some(LocalVariableInfo::new("m".to_string(), 0, 0, true))
    );
    assert_eq!(middle.get_jump_arg_a(), 1);
    let outer = middle.parent.as_ref().unwrap();
    assert!(outer.get_lacal_variable_by_name("y".to_string()).unwrap().captured);
    assert!(!outer.get_lacal_variable_by_name("x".to_string()).unwrap().captured);
    assert_eq!(outer.get_jump_arg_a(), 1);
}

#[test]
fn test_emit() {
    let mut info = FunctionInfo::new(None);
    assert_eq!(info.emit_load_nil(0, 2), Ok(()));
    assert_eq!(info.emit_load_bool(1, 1, 0), Ok(()));
    assert_eq!(info.emit_load_bool(1, 0, 0), Ok(()));
    assert_eq!(info.emit_load_bool(1, 0, 1), Ok(()));
    assert_eq!(info.emit_load_k(2, constant(LuaValue::Integer(5))), Ok(()));
    assert_eq!(info.emit_load_k(3, constant(LuaValue::Integer(5))), Ok(()));
    assert_eq!(info.emit_return(0, 4), Ok(()));
    assert_eq!(info.emit_return(0, -1), Ok(()));
    assert_eq!(
        info.instructions,
        vec![
            abc_word(OpCodeEnum::OpLOADNIL, 0, false, 1, 0),
            abc_word(OpCodeEnum::OpLOADTRUE, 1, false, 0, 0),
            abc_word(OpCodeEnum::OpLOADFALSE, 1, false, 0, 0),
            abc_word(OpCodeEnum::OpLFALSESKIP, 1, false, 0, 0),
            abx_word(OpCodeEnum::OpLOADK, 2, 0),
            abx_word(OpCodeEnum::OpLOADK, 3, 0),
            abc_word(OpCodeEnum::OpRETURN, 0, false, 5, 0),
            abc_word(OpCodeEnum::OpRETURN, 0, false, 0, 0),
        ]
    );
    assert_eq!(info.constants.len(), 1);
    assert_eq!(info.emit_load_nil(0, 0), Err(CodegenError::BadOperand));
    assert_eq!(info.emit_load_nil(256, 1), Err(CodegenError::BadOperand));
    assert_eq!(info.emit_load_bool(-1, 0, 0), Err(CodegenError::BadOperand));
    assert_eq!(info.emit_load_k(256, constant(LuaValue::Nil)), Err(CodegenError::BadOperand));
    assert_eq!(info.emit_return(0, 255), Err(CodegenError::BadOperand));
    assert_eq!(info.emit_return(0, -2), Err(CodegenError::BadOperand));
    assert_eq!(info.instructions.len(), 8);
    assert_eq!(info.constants.len(), 1);
}

#[test]
fn test_codegen_expression() {
    let mut info = FunctionInfo::new(None);
    assert_eq!(codegen_expression(&mut info, &Expression::NilExpression, 0, 1), Ok(()));
    assert_eq!(codegen_expression(&mut info, &Expression::TrueExpression, 1, 1), Ok(()));
    assert_eq!(codegen_expression(&mut info, &Expression::FalseExpression, 2, 1), Ok(()));
    assert_eq!(codegen_expression(&mut info, &Expression::integet_expresion(42), 3, 1), Ok(()));
    assert_eq!(
        codegen_expression(&mut info, &Expression::StringExpression("héllo".to_string()), 4, 1),
        Ok(())
    );
    assert_eq!(
        codegen_expression(&mut info, &Expression::FloatExpresion("1.5".to_string()), 5, 1),
        Err(CodegenError::Unsupported)
    );
    assert_eq!(
        codegen_expression(&mut info, &Expression::VarargExpression, 5, 1),
        Err(CodegenError::Unsupported)
    );
    assert_eq!(info.instructions.len(), 5);
    assert_eq!(info.instructions[3], abx_word(OpCodeEnum::OpLOADK, 3, 0));
    assert_eq!(info.instructions[4], abx_word(OpCodeEnum::OpLOADK, 4, 1));
    assert_eq!(info.constants[0], constant(LuaValue::Integer(42)));
    assert_eq!(info.constants[1], constant(LuaValue::String("héllo".as_bytes().to_vec())));
    assert!(is_vararg_or_func_call(&Expression::VarargExpression));
    assert!(is_vararg_or_func_call(&Expression::function_call_expression(
        Expression::NameString("f".to_string()),
        Expression::StringExpression(String::new()),
        vec![]
    )));
    assert!(!is_vararg_or_func_call(&Expression::NilExpression));
}

#[test]
fn test_codegen_return_runs() {
    let program = parse_chunk("return 7, 'seven', true, nil, 7").unwrap();
    let mut info = FunctionInfo::new(None);
    assert_eq!(codegen_block(&mut info, &program), Ok(()));
    assert_eq!((info.used_regs, info.max_regs), (0, 5));
    assert_eq!(info.constants.len(), 2);
    assert_eq!(
        info.instructions,
        vec![
            abx_word(OpCodeEnum::OpLOADK, 0, 0),
            abx_word(OpCodeEnum::OpLOADK, 1, 1),
            abc_word(OpCodeEnum::OpLOADTRUE, 2, false, 0, 0),
            abc_word(OpCodeEnum::OpLOADNIL, 3, false, 0, 0),
            abx_word(OpCodeEnum::OpLOADK, 4, 0),
            abc_word(OpCodeEnum::OpRETURN, 0, false, 6, 0),
        ]
    );
    // the code that was generated runs
    let proto = Prototype {
        source: b"@gen.lua".to_vec(),
        line_defined: 0,
        last_line_defined: 0,
        num_params: 0,
        is_vararg: 1,
        max_statck_size: info.max_regs as u8,
        code: info.instructions,
        constants: info.constants.into_iter().map(|c| c.value).collect(),
        upvalues: Vec::new(),
        prototypes: Vec::new(),
        line_info: Vec::new(),
        abs_line_list: Vec::new(),
        local_variable: Vec::new(),
        upvalue_names: Vec::new(),
    };
    let (state, step) = load_main(proto, 100).unwrap();
    assert!(matches!(step, Step::Return));
    assert_eq!(
        state.stack.slots[..5],
        [
            LuaValue::Integer(7),
            LuaValue::String(b"seven".to_vec()),
            LuaValue::Boolean(true),
            LuaValue::Nil,
            LuaValue::Integer(7),
        ]
    );
}

#[test]
fn test_codegen_faults() {
    let mut info = FunctionInfo::new(None);
    assert_eq!(codegen_block(&mut info, &Block::empty()), Ok(()));
    assert_eq!(info.instructions.len(), 0);
    assert_eq!(
        codegen_block(&mut info, &Block::only(Statement::BreakStatement)),
        Err(CodegenError::Unsupported)
    );
    assert_eq!(
        codegen_statement(&mut info, &Statement::EmptyStatement),
        Err(CodegenError::Unsupported)
    );
    let call = parse_chunk("return f()").unwrap();
    assert_eq!(
        codegen_return_statement(&mut info, &call.return_expression),
        Err(CodegenError::Unsupported)
    );
    assert_eq!(info.used_regs, 0);
    // a fault leaves nothing behind
    let mixed = parse_chunk("return 1, 'two', f()").unwrap();
    info.emit_load_k(0, constant(LuaValue::Integer(9))).unwrap();
    assert_eq!(
        codegen_return_statement(&mut info, &mixed.return_expression),
        Err(CodegenError::Unsupported)
    );
    assert_eq!(info.instructions.len(), 1);
    assert_eq!(info.constants.len(), 1);
    assert_eq!((info.used_regs, info.max_regs), (0, 0));
    info.alloc_registers(254).unwrap();
    let two = parse_chunk("return 1, 2").unwrap();
    assert_eq!(
        codegen_return_statement(&mut info, &two.return_expression),
        Err(CodegenError::TooManyRegisters)
    );
}
