use vstd::prelude::*;
use vstd::slice::slice_to_vec;
use vstd::string::StringSliceAdditionalSpecFns;
use super::function_info::{
    constant_values, first_equal, Any, CodegenError, FunctionInfo,
};
use crate::compiler::ast::block::Block;
use crate::compiler::ast::expression::{
    expressions_of, lemma_expressions_index, Expression, ExpressionModel,
};
use crate::compiler::ast::statement::Statement;
use crate::vm::instruction::{abc_value, abx_value};
use crate::vm::lua_value::{LuaValue, ValueModel};
use vstd::utf8::encode_utf8;

verus! {

// Code is generated for blocks that return literals. A statement, and an expression
// that is no literal, is `Unsupported`.

/// The constants and the code of a function.
pub struct Emitted {
    pub constants: Seq<ValueModel>,
    pub code: Seq<u32>,
}

/// The constant that a literal loads: an integer as it is, a string as the bytes of
/// its text.
pub open spec fn literal_constant(exp: ExpressionModel) -> Option<ValueModel> {
    match exp {
        ExpressionModel::Integer(i) => Some(ValueModel::Integer(i)),
        ExpressionModel::String(s) => Some(ValueModel::String(encode_utf8(s))),
        _ => None,
    }
}

/// The constants and the code after the load of an expression into register `arga`,
/// or the fault: nil is loaded into `argx` registers from `arga` on, a boolean by its
/// own instruction, an integer and a string as a constant. No other expression is
/// loaded.
pub open spec fn loaded(pre: Emitted, exp: ExpressionModel, arga: int, argx: int) -> Result<
    Emitted,
    CodegenError,
> {
    match exp {
        ExpressionModel::Nil => if 0 <= arga <= 255 && 1 <= argx <= 256 {
            Ok(Emitted { code: pre.code.push(abc_value(8, arga, 0, argx - 1, 0)), ..pre })
        } else {
            Err(CodegenError::BadOperand)
        },
        ExpressionModel::False => if 0 <= arga <= 255 {
            Ok(Emitted { code: pre.code.push(abc_value(5, arga, 0, 0, 0)), ..pre })
        } else {
            Err(CodegenError::BadOperand)
        },
        ExpressionModel::True => if 0 <= arga <= 255 {
            Ok(Emitted { code: pre.code.push(abc_value(7, arga, 0, 0, 0)), ..pre })
        } else {
            Err(CodegenError::BadOperand)
        },
        _ => match literal_constant(exp) {
            None => Err(CodegenError::Unsupported),
            Some(value) => {
                let index = first_equal(pre.constants, value, 0);
                if 0 <= arga <= 255 && index <= 131071 {
                    Ok(
                        Emitted {
                            constants: if index < pre.constants.len() {
                                pre.constants
                            } else {
                                pre.constants.push(value)
                            },
                            code: pre.code.push(abx_value(3, arga, index)),
                        },
                    )
                } else {
                    Err(CodegenError::BadOperand)
                }
            },
        },
    }
}

/// The constants and the code after the loads of the expressions from `from` on, one
/// value each, into the registers from `reg` on.
pub open spec fn loaded_all(pre: Emitted, exps: Seq<ExpressionModel>, from: int, reg: int) -> Result<
    Emitted,
    CodegenError,
>
    decreases exps.len() - from,
{
    if from < 0 || from >= exps.len() {
        Ok(pre)
    } else if reg >= 255 {
        Err(CodegenError::TooManyRegisters)
    } else {
        match loaded(pre, exps[from], reg, 1) {
            Err(e) => Err(e),
            Ok(next) => loaded_all(next, exps, from + 1, reg + 1),
        }
    }
}

/// What a function info has emitted.
pub open spec fn emitted(f: FunctionInfo) -> Emitted {
    Emitted { constants: constant_values(f.constants@), code: f.instructions@ }
}

/// The constants and the code after a return of the values of expressions: their
/// loads into the registers above those in use, and `RETURN` from there on.
pub open spec fn returned(pre: Emitted, exps: Seq<ExpressionModel>, reg: int) -> Result<
    Emitted,
    CodegenError,
> {
    match loaded_all(pre, exps, 0, reg) {
        Err(e) => Err(e),
        Ok(after) => if 0 <= reg <= 255 && exps.len() <= 254 {
            Ok(Emitted { code: after.code.push(abc_value(70, reg, 0, exps.len() as int + 1, 0)), ..after })
        } else {
            Err(CodegenError::BadOperand)
        },
    }
}

/// Whether an expression can give more than one value: `...` and a call.
pub fn is_vararg_or_func_call(exp: &Expression) -> (r: bool)
    ensures
        r == (exp@ is Vararg || exp@ is Call),
{
    match exp {
        Expression::VarargExpression => true,
        Expression::FunctionCallExpression(_) => true,
        _ => false,
    }
}

/// Generates the load of an expression into register `arga`. On a fault nothing is
/// generated.
pub fn codegen_expression(func_info: &mut FunctionInfo, exp: &Expression, arga: i64, argx: i64) -> (r:
    Result<(), CodegenError>)
    ensures
        match r {
            Ok(_) => loaded(emitted(*old(func_info)), exp@, arga as int, argx as int) == Ok::<
                Emitted,
                CodegenError,
            >(emitted(*final(func_info))) && *final(func_info) == (FunctionInfo {
                constants: final(func_info).constants,
                instructions: final(func_info).instructions,
                ..*old(func_info)
            }) && final(func_info).constants@.len() >= old(func_info).constants@.len()
                && final(func_info).constants@.take(old(func_info).constants@.len() as int)
                == old(func_info).constants@,
            Err(e) => loaded(emitted(*old(func_info)), exp@, arga as int, argx as int) == Err::<
                Emitted,
                CodegenError,
            >(e) && *final(func_info) == *old(func_info),
        },
{
    proof {
        assert(old(func_info).constants@.take(old(func_info).constants@.len() as int)
            =~= old(func_info).constants@);
    }
    match exp {
        Expression::NilExpression => func_info.emit_load_nil(arga, argx),
        Expression::FalseExpression => func_info.emit_load_bool(arga, 0, 0),
        Expression::TrueExpression => func_info.emit_load_bool(arga, 1, 0),
        Expression::IntegerExpression(value) => {
            let done = func_info.emit_load_k(arga, Any { value: LuaValue::Integer(*value) });
            proof {
                assert(func_info.constants@.take(old(func_info).constants@.len() as int)
                    =~= old(func_info).constants@);
                assert(constant_values(old(func_info).constants@.push(
                    Any { value: LuaValue::Integer(*value) },
                )) =~= constant_values(old(func_info).constants@).push(
                    ValueModel::Integer(*value),
                ));
            }
            done
        },
        Expression::StringExpression(text) => {
            let bytes = slice_to_vec(text.as_str().as_bytes());
            let ghost constant = Any { value: LuaValue::String(bytes) };
            let done = func_info.emit_load_k(arga, Any { value: LuaValue::String(bytes) });
            proof {
                assert(func_info.constants@.take(old(func_info).constants@.len() as int)
                    =~= old(func_info).constants@);
                assert(constant_values(old(func_info).constants@.push(constant))
                    =~= constant_values(old(func_info).constants@).push(
                    ValueModel::String(bytes@),
                ));
            }
            done
        },
        _ => Err(CodegenError::Unsupported),
    }
}

/// Generates the return of the values of expressions: their loads into registers
/// above those in use, which are given back again, and the return from there on. On a
/// fault nothing is generated: the code, the constants and the registers are as before.
pub fn codegen_return_statement(func_info: &mut FunctionInfo, exps: &Vec<Expression>) -> (r:
    Result<(), CodegenError>)
    requires
        old(func_info).wf(),
    ensures
        final(func_info).wf(),
        *final(func_info) == (FunctionInfo {
            constants: final(func_info).constants,
            instructions: final(func_info).instructions,
            max_regs: final(func_info).max_regs,
            ..*old(func_info)
        }),
        match r {
            Ok(_) => returned(
                emitted(*old(func_info)),
                expressions_of(*exps),
                old(func_info).used_regs as int,
            ) == Ok::<Emitted, CodegenError>(emitted(*final(func_info)))
                && final(func_info).max_regs == if old(func_info).max_regs >= old(func_info).used_regs + exps@.len() {
                old(func_info).max_regs
            } else {
                (old(func_info).used_regs + exps@.len()) as i64
            },
            Err(e) => returned(
                emitted(*old(func_info)),
                expressions_of(*exps),
                old(func_info).used_regs as int,
            ) == Err::<Emitted, CodegenError>(e) && final(func_info).instructions@ == old(func_info).instructions@ && final(func_info).constants@ == old(func_info).constants@
                && final(func_info).max_regs == old(func_info).max_regs,
        },
{
    let base = func_info.used_regs;
    let most = func_info.max_regs;
    let code_len = func_info.instructions.len();
    let constants_len = func_info.constants.len();
    let mut fault: Option<CodegenError> = None;
    let mut i: usize = 0;
    proof {
        lemma_expressions_index(*exps);
        assert(func_info.instructions@.take(code_len as int) =~= func_info.instructions@);
        assert(func_info.constants@.take(constants_len as int) =~= func_info.constants@);
    }
    while i < exps.len() && fault.is_none()
        invariant
            i <= exps@.len(),
            func_info.wf(),
            base == old(func_info).used_regs,
            most == old(func_info).max_regs,
            code_len == old(func_info).instructions@.len(),
            constants_len == old(func_info).constants@.len(),
            func_info.instructions@.len() >= code_len,
            func_info.instructions@.take(code_len as int) == old(func_info).instructions@,
            func_info.constants@.len() >= constants_len,
            func_info.constants@.take(constants_len as int) == old(func_info).constants@,
            expressions_of(*exps).len() == exps@.len(),
            forall|k: int| 0 <= k < exps@.len() ==> #[trigger] expressions_of(*exps)[k] == exps@[k]@,
            *func_info == (FunctionInfo {
                constants: func_info.constants,
                instructions: func_info.instructions,
                max_regs: func_info.max_regs,
                used_regs: func_info.used_regs,
                ..*old(func_info)
            }),
            match fault {
                Some(e) => loaded_all(
                    emitted(*old(func_info)),
                    expressions_of(*exps),
                    0,
                    base as int,
                ) == Err::<Emitted, CodegenError>(e),
                None => func_info.used_regs == base + i && func_info.max_regs == (if most >= base
                    + i {
                    most
                } else {
                    (base + i) as i64
                }) && loaded_all(emitted(*old(func_info)), expressions_of(*exps), 0, base as int)
                    == loaded_all(emitted(*func_info), expressions_of(*exps), i as int, base + i),
            },
        decreases exps@.len() - i + (if fault is None { 1int } else { 0int }),
    {
        let ghost before = *func_info;
        match func_info.alloc_register() {
            Err(e) => {
                fault = Some(e);
            },
            Ok(reg) => {
                match codegen_expression(func_info, &exps[i], reg, 1) {
                    Ok(_) => {
                        proof {
                            assert(func_info.instructions@.take(code_len as int)
                                =~= before.instructions@.take(code_len as int));
                            assert(func_info.constants@.take(constants_len as int)
                                =~= before.constants@.take(constants_len as int));
                        }
                        i = i + 1;
                    },
                    Err(e) => {
                        fault = Some(e);
                    },
                }
            },
        }
    }
    if fault.is_none() && exps.len() > 254 {
        fault = Some(CodegenError::BadOperand);
    }
    match fault {
        None => {
            let _ = func_info.free_registers(i as i64);
            func_info.emit_return(base, exps.len() as i64)
        },
        Some(e) => {
            func_info.instructions.truncate(code_len);
            func_info.constants.truncate(constants_len);
            func_info.used_regs = base;
            func_info.max_regs = most;
            Err(e)
        },
    }
}

/// Generates the code of a statement: no statement has code yet.
pub fn codegen_statement(func_info: &mut FunctionInfo, node: &Statement) -> (r: Result<
    (),
    CodegenError,
>)
    ensures
        r == Err::<(), CodegenError>(CodegenError::Unsupported),
        *final(func_info) == *old(func_info),
{
    Err(CodegenError::Unsupported)
}

/// Generates the code of a block: of its statements, and of its return where it has
/// one.
pub fn codegen_block(func_info: &mut FunctionInfo, node: &Block) -> (r: Result<(), CodegenError>)
    requires
        old(func_info).wf(),
    ensures
        final(func_info).wf(),
        node.statements@.len() > 0 ==> r == Err::<(), CodegenError>(CodegenError::Unsupported)
            && *final(func_info) == *old(func_info),
        node.statements@.len() == 0 && node.return_expression@.len() == 0 ==> r is Ok
            && *final(func_info) == *old(func_info),
        node.statements@.len() == 0 && node.return_expression@.len() > 0 ==> match r {
            Ok(_) => returned(
                emitted(*old(func_info)),
                expressions_of(node.return_expression),
                old(func_info).used_regs as int,
            ) == Ok::<Emitted, CodegenError>(emitted(*final(func_info))),
            Err(e) => returned(
                emitted(*old(func_info)),
                expressions_of(node.return_expression),
                old(func_info).used_regs as int,
            ) == Err::<Emitted, CodegenError>(e) && emitted(*final(func_info)) == emitted(
                *old(func_info),
            ),
        },
{
    if node.statements.len() > 0 {
        return codegen_statement(func_info, &node.statements[0]);
    }
    if node.return_expression.len() > 0 {
        return codegen_return_statement(func_info, &node.return_expression);
    }
    Ok(())
}

} // verus!
