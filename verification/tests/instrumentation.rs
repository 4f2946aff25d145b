use wasm_instrumentation::ast::{Code, Function, Module, Table};
use wasm_instrumentation::convert::{convert_i64_instr, convert_i64_type};
use wasm_instrumentation::control::{label_to_instr_idx, Begin};
use wasm_instrumentation::instrument::add_hooks;
use wasm_instrumentation::names::append_mangled_tys;
use wasm_instrumentation::ops::{BinOp, FunctionType, Instr, UnOp, Val, ValType};
use wasm_instrumentation::spill::{restore_locals_with_i64_handling, save_stack_to_locals};
use wasm_instrumentation::static_info::{BrTableInfo, LabelAndLocation, ModuleInfo};

fn func(params: Vec<ValType>, results: Vec<ValType>, body: Vec<Instr>) -> Function {
    Function {
        type_: FunctionType { params, results },
        import: None,
        code: Some(Code { locals: Vec::new(), body }),
        export: Some(String::from("f")),
    }
}

fn module_with(functions: Vec<Function>) -> Module {
    Module {
        functions,
        globals: Vec::new(),
        tables: vec![Table { export: None }],
    }
}

fn c32(x: i32) -> Instr {
    Instr::Const(Val::I32(x))
}

#[test]
fn empty_function_gets_only_prologue_and_end() {
    // one exported function with an empty body: only the begin_function
    // prologue, the end_function hook and the final end remain
    let mut m = module_with(vec![func(vec![], vec![], vec![Instr::End])]);
    let json = add_hooks(&mut m);
    assert!(json.is_some());
    // one function; unique arg tys [[]]; unique result tys [[]]
    // poly hooks: return(1) + locals/globals(20) + call(1) + call_indirect(1) = 23
    // call_result: 1; fixed base = 1 + 23 + 1 = 25; begin_function = 29, end_function = 30
    let body = &m.functions[0].code.as_ref().unwrap().body;
    assert_eq!(
        body,
        &vec![
            c32(0),
            c32(-1),
            Instr::Call(29),
            c32(0),
            c32(0),
            Instr::Call(30),
            Instr::End,
        ]
    );
    assert_eq!(
        m.functions[29].import,
        Some(("hooks".to_string(), "begin_function".to_string()))
    );
    assert_eq!(
        m.functions[30].import,
        Some(("hooks".to_string(), "end_function".to_string()))
    );
    // the table is exported for the observer
    assert_eq!(m.tables[0].export, Some("table".to_string()));
}

#[test]
fn const_function_reports_its_value() {
    // (func (result i32) i32.const 42)
    let mut m = module_with(vec![func(
        vec![],
        vec![ValType::I32],
        vec![c32(42), Instr::End],
    )]);
    add_hooks(&mut m).unwrap();
    // unique results [[i32]]: poly = 23, call_result = 1, fixed base = 25
    // begin_function = 29, end_function = 30, mono base = 45, i32.const = 45
    let body = &m.functions[0].code.as_ref().unwrap().body;
    assert_eq!(
        body,
        &vec![
            c32(0),
            c32(-1),
            Instr::Call(29),
            // i32.const 42 at index 0
            c32(0),
            c32(0),
            c32(42),
            Instr::Call(45),
            c32(42),
            // end at index 1
            c32(0),
            c32(1),
            Instr::Call(30),
            Instr::End,
        ]
    );
    assert_eq!(
        m.functions[45].import,
        Some(("hooks".to_string(), "i32.const".to_string()))
    );
}

#[test]
fn get_local_reports_slot_and_value() {
    // (func (param i32) (result i32) get_local 0)
    let mut m = module_with(vec![func(
        vec![ValType::I32],
        vec![ValType::I32],
        vec![Instr::GetLocal(0), Instr::End],
    )]);
    add_hooks(&mut m).unwrap();
    // poly entries in order: return_i32 (idx 1), get_local over i32/i64/f32/f64
    // at indices 2..=5, so get_local_i32 is function index 2
    let body = &m.functions[0].code.as_ref().unwrap().body;
    assert_eq!(
        body,
        &vec![
            c32(0),
            c32(-1),
            Instr::Call(29),
            Instr::GetLocal(0),
            c32(0),
            c32(0),
            c32(0),
            Instr::GetLocal(0),
            Instr::Call(2),
            c32(0),
            c32(1),
            Instr::Call(30),
            Instr::End,
        ]
    );
    assert_eq!(
        m.functions[2].import,
        Some(("hooks".to_string(), "get_local_i32".to_string()))
    );
}

#[test]
fn br_inside_block_resolves_to_block_begin() {
    // block; br 0; end; end
    let mut m = module_with(vec![func(
        vec![],
        vec![],
        vec![Instr::Block(None), Instr::Br(0), Instr::End, Instr::End],
    )]);
    add_hooks(&mut m).unwrap();
    // fixed base 25: if_=25 br=26 br_if=27 br_table=28 begin_function=29
    // end_function=30 begin_block=31 end_block=32
    let body = &m.functions[0].code.as_ref().unwrap().body;
    assert_eq!(
        body,
        &vec![
            c32(0),
            c32(-1),
            Instr::Call(29),
            // block at 0
            Instr::Block(None),
            c32(0),
            c32(0),
            Instr::Call(31),
            // br 0 at 1: label 0, target is the block's begin index 0
            c32(0),
            c32(1),
            c32(0),
            c32(0),
            Instr::Call(26),
            Instr::Br(0),
            // end at 2 closes the block begun at 0
            c32(0),
            c32(2),
            c32(0),
            Instr::Call(32),
            Instr::End,
            // end at 3 closes the function
            c32(0),
            c32(3),
            Instr::Call(30),
            Instr::End,
        ]
    );
}

#[test]
fn br_inside_loop_resolves_to_loop_begin() {
    let stack = vec![Begin::Function, Begin::Loop(3)];
    assert_eq!(label_to_instr_idx(&stack, 0), 3);
    let stack2 = vec![Begin::Function, Begin::Block(2)];
    assert_eq!(label_to_instr_idx(&stack2, 0), 2);
    let stack3 = vec![Begin::Function, Begin::Loop(1), Begin::Block(4)];
    assert_eq!(label_to_instr_idx(&stack3, 1), 1);
    assert_eq!(label_to_instr_idx(&stack3, 2), 0);
}

#[test]
fn if_else_condition_teed_and_reported() {
    // i32.const 1; if; nop; else; nop; end; end
    let mut m = module_with(vec![func(
        vec![],
        vec![],
        vec![
            c32(1),
            Instr::If(None),
            Instr::Nop,
            Instr::Else,
            Instr::Nop,
            Instr::End,
            Instr::End,
        ],
    )]);
    add_hooks(&mut m).unwrap();
    // fixed base 25: if_=25, begin_function=29, end_function=30,
    // begin_if=35, end_if=36, begin_else=37, end_else=38, nop=39
    // mono base 45, i32.const = 45
    let body = &m.functions[0].code.as_ref().unwrap().body;
    // condition local is the first fresh local of a function with no
    // parameters and no declared locals: slot 0
    assert_eq!(
        body,
        &vec![
            c32(0),
            c32(-1),
            Instr::Call(29),
            // i32.const 1 at 0
            c32(0),
            c32(0),
            c32(1),
            Instr::Call(45),
            c32(1),
            // if at 1: tee condition, if_ hook, then begin_if after the if
            Instr::TeeLocal(0),
            c32(0),
            c32(1),
            Instr::GetLocal(0),
            Instr::Call(25),
            Instr::If(None),
            c32(0),
            c32(1),
            Instr::Call(35),
            // nop at 2
            Instr::Nop,
            c32(0),
            c32(2),
            Instr::Call(39),
            // else at 3: end_else with the if's begin index 1, then begin_else
            c32(0),
            c32(3),
            c32(1),
            Instr::Call(38),
            Instr::Else,
            c32(0),
            c32(3),
            Instr::Call(37),
            // nop at 4
            Instr::Nop,
            c32(0),
            c32(4),
            Instr::Call(39),
            // end at 5 closes the else begun at 3
            c32(0),
            c32(5),
            c32(3),
            Instr::Call(38),
            Instr::End,
            // end at 6 closes the function
            c32(0),
            c32(6),
            Instr::Call(30),
            Instr::End,
        ]
    );
    // begin hooks and end hooks are called equally often: function, if, else
    let begin_hooks = [29u32, 31, 33, 35, 37];
    let end_hooks = [30u32, 32, 34, 36, 38];
    let count = |hooks: &[u32]| {
        body.iter()
            .filter(|i| matches!(i, Instr::Call(h) if hooks.contains(h)))
            .count()
    };
    assert_eq!(count(&begin_hooks), count(&end_hooks));
    assert_eq!(count(&begin_hooks), 3);
}

#[test]
fn call_indirect_splits_i64_argument() {
    // (func (param i64) (result i32) get_local 0 -> used as arg via stack;
    // i64.const 7; i32.const 5; call_indirect (i64)->(i32))
    let ft = FunctionType {
        params: vec![ValType::I64],
        results: vec![ValType::I32],
    };
    let mut m = module_with(vec![func(
        vec![ValType::I64],
        vec![ValType::I32],
        vec![
            Instr::GetLocal(0),
            c32(5),
            Instr::CallIndirect(ft, 0),
            Instr::End,
        ],
    )]);
    add_hooks(&mut m).unwrap();
    let body = &m.functions[0].code.as_ref().unwrap().body;
    // the function has one i64 parameter, so fresh locals start at slot 1:
    // target-table-index local 1 (i32), arg local 2 (i64), result local 3 (i32)
    let locals = &m.functions[0].code.as_ref().unwrap().locals;
    assert_eq!(
        &locals[0..3],
        &[ValType::I32, ValType::I64, ValType::I32]
    );
    // the pre-call hook receives the i64 argument as two i32 halves,
    // low before high
    let split = vec![
        Instr::GetLocal(2),
        Instr::Unary(UnOp::I32WrapI64),
        Instr::GetLocal(2),
        Instr::Const(Val::I64(32)),
        Instr::Binary(BinOp::I64ShrU),
        Instr::Unary(UnOp::I32WrapI64),
    ];
    let found = body
        .windows(split.len())
        .any(|w| w == split.as_slice());
    assert!(found);
    // the polymorphic and call_result hooks carry the mangled names:
    // poly entries are return_i32 (1), the twenty local/global hooks (2..=21),
    // call_i64 (22), call_indirect_i64 (23); call_result_i32 follows (24)
    assert_eq!(
        m.functions[23].import,
        Some(("hooks".to_string(), "call_indirect_i64".to_string()))
    );
    assert_eq!(
        m.functions[24].import,
        Some(("hooks".to_string(), "call_result_i32".to_string()))
    );
    assert_eq!(
        m.functions[1].import,
        Some(("hooks".to_string(), "return_i32".to_string()))
    );
}

#[test]
fn save_restore_of_nothing_is_empty() {
    let saved = save_stack_to_locals(&Vec::new());
    assert!(saved.is_empty());
    let restored = restore_locals_with_i64_handling(&Vec::new(), &[]);
    assert!(restored.is_empty());
}

#[test]
fn i64_value_splits_low_before_high() {
    let seq = convert_i64_instr(Instr::GetLocal(5), ValType::I64);
    assert_eq!(
        seq,
        vec![
            Instr::GetLocal(5),
            Instr::Unary(UnOp::I32WrapI64),
            Instr::GetLocal(5),
            Instr::Const(Val::I64(32)),
            Instr::Binary(BinOp::I64ShrU),
            Instr::Unary(UnOp::I32WrapI64),
        ]
    );
    let single = convert_i64_instr(Instr::GetLocal(5), ValType::F64);
    assert_eq!(single, vec![Instr::GetLocal(5)]);
    assert_eq!(
        convert_i64_type(ValType::I64),
        vec![ValType::I32, ValType::I32]
    );
    assert_eq!(convert_i64_type(ValType::F32), vec![ValType::F32]);
}

#[test]
fn mangled_names_append_type_suffixes() {
    let name = append_mangled_tys(
        String::from("call"),
        &[ValType::I32, ValType::I64, ValType::F32, ValType::F64],
    );
    assert_eq!(name, "call_i32_i64_f32_f64");
    let bare = append_mangled_tys(String::from("return"), &[]);
    assert_eq!(bare, "return");
}

#[test]
fn br_table_entries_record_labels_in_order() {
    // block; block; i32.const 0; br_table [1, 0] default 1; end; end; end
    let mut m = module_with(vec![func(
        vec![],
        vec![],
        vec![
            Instr::Block(None),
            Instr::Block(None),
            c32(0),
            Instr::BrTable(vec![1, 0], 1),
            Instr::End,
            Instr::End,
            Instr::End,
        ],
    )]);
    let json = add_hooks(&mut m).unwrap();
    let v: serde_json::Value = serde_json::from_str(&json).unwrap();
    let tables = v["br_tables"].as_array().unwrap();
    assert_eq!(tables.len(), 1);
    assert_eq!(tables[0]["targets"][0]["label"], 1);
    assert_eq!(tables[0]["targets"][1]["label"], 0);
    assert_eq!(tables[0]["default"]["label"], 1);
    // the emitted index names the first (and only) side-table entry
    let body = &m.functions[0].code.as_ref().unwrap().body;
    let found = body
        .windows(2)
        .any(|w| w[0] == c32(0) && matches!(w[1], Instr::GetLocal(_)));
    assert!(found);
}

#[test]
fn static_info_json_has_exact_shape() {
    let mut m = module_with(vec![func(
        vec![ValType::I32],
        vec![ValType::I64],
        vec![Instr::End],
    )]);
    m.globals = vec![ValType::F64];
    let json = add_hooks(&mut m).unwrap();
    assert_eq!(
        json,
        "{\"functions\":[{\"type\":{\"params\":[\"i32\"],\"results\":[\"i64\"]}}],\
         \"globals\":[\"f64\"],\"br_tables\":[]}"
    );
}

#[test]
fn static_info_json_reparses_to_equal_structure() {
    let mut m = module_with(vec![
        func(vec![ValType::I32], vec![], vec![Instr::End]),
        func(vec![], vec![ValType::F32], vec![Instr::End]),
    ]);
    m.globals = vec![ValType::I32, ValType::I64];
    let json = add_hooks(&mut m).unwrap();
    let v: serde_json::Value = serde_json::from_str(&json).unwrap();
    assert_eq!(v["functions"].as_array().unwrap().len(), 2);
    assert_eq!(v["functions"][0]["type"]["params"][0], "i32");
    assert_eq!(v["functions"][1]["type"]["results"][0], "f32");
    assert_eq!(v["globals"][0], "i32");
    assert_eq!(v["globals"][1], "i64");
    assert_eq!(v["br_tables"].as_array().unwrap().len(), 0);
    // serializing the reparsed structure again yields the same text
    let again = serde_json::to_string(&v).unwrap();
    let v2: serde_json::Value = serde_json::from_str(&again).unwrap();
    assert_eq!(v, v2);
}

#[test]
fn imported_functions_are_not_instrumented() {
    let imported = Function {
        type_: FunctionType { params: vec![], results: vec![] },
        import: Some(("env".to_string(), "g".to_string())),
        code: None,
        export: None,
    };
    let mut m = module_with(vec![imported, func(vec![], vec![], vec![Instr::End])]);
    add_hooks(&mut m).unwrap();
    assert!(m.functions[0].code.is_none());
    assert_eq!(
        m.functions[0].import,
        Some(("env".to_string(), "g".to_string()))
    );
    assert!(m.functions[1].code.is_some());
}

#[test]
fn exported_table_name_is_kept() {
    let mut m = module_with(vec![func(vec![], vec![], vec![Instr::End])]);
    m.tables = vec![Table { export: Some("mine".to_string()) }];
    add_hooks(&mut m).unwrap();
    assert_eq!(m.tables[0].export, Some("mine".to_string()));
}

#[test]
fn module_info_derives_from_module() {
    let m = module_with(vec![func(
        vec![ValType::I32, ValType::I64],
        vec![ValType::F32],
        vec![Instr::End],
    )]);
    let info = ModuleInfo::from_module(&m);
    assert_eq!(info.functions.len(), 1);
    assert_eq!(
        info.functions[0].type_.params,
        vec![ValType::I32, ValType::I64]
    );
    assert_eq!(info.functions[0].type_.results, vec![ValType::F32]);
    assert!(info.br_tables.is_empty());
    let lal = LabelAndLocation::new(7);
    assert_eq!(lal.label, 7);
    assert_eq!(lal.location, 0);
    let bt = BrTableInfo::new(vec![lal], LabelAndLocation::new(1));
    assert_eq!(bt.targets.len(), 1);
    assert_eq!(bt.default_target.label, 1);
}

#[test]
fn binary_op_spills_and_reports_operands() {
    // (func (result i32) i32.const 1; i32.const 2; i32.add)
    let mut m = module_with(vec![func(
        vec![],
        vec![ValType::I32],
        vec![c32(1), c32(2), Instr::Binary(BinOp::I32Add), Instr::End],
    )]);
    add_hooks(&mut m).unwrap();
    let body = &m.functions[0].code.as_ref().unwrap().body;
    // the add saves both operands: set second, tee first, get second, add,
    // tee result, then reports first, second and result
    let window = vec![
        Instr::SetLocal(1),
        Instr::TeeLocal(0),
        Instr::GetLocal(1),
        Instr::Binary(BinOp::I32Add),
        Instr::TeeLocal(2),
    ];
    let found = body
        .windows(window.len())
        .any(|w| w == window.as_slice());
    assert!(found);
}

#[test]
fn direct_call_gets_pre_and_post_hooks() {
    // f0 calls f1 of type (i32) -> (i32): one argument scratch local and one
    // result scratch local are added, and the call is bracketed by the
    // polymorphic call hook and the call_result hook
    let mut m = module_with(vec![
        func(vec![], vec![], vec![c32(7), Instr::Call(1), Instr::Drop, Instr::End]),
        func(
            vec![ValType::I32],
            vec![ValType::I32],
            vec![Instr::GetLocal(0), Instr::End],
        ),
    ]);
    add_hooks(&mut m).unwrap();
    let code = m.functions[0].code.as_ref().unwrap();
    assert_eq!(code.locals, vec![ValType::I32, ValType::I32]);
    // the original call instruction survives, aimed at the same target
    assert!(code.body.contains(&Instr::Call(1)));
    // the argument is teed into the scratch local and re-read for the
    // pre-call hook
    assert!(code.body.contains(&Instr::TeeLocal(0)));
    assert!(code.body.contains(&Instr::GetLocal(0)));
    // the result is saved into the second scratch local after the call
    assert!(code.body.contains(&Instr::TeeLocal(1)));
}

#[test]
fn return_saves_and_reports_results() {
    let mut m = module_with(vec![func(
        vec![],
        vec![ValType::I32],
        vec![c32(42), Instr::Return, Instr::End],
    )]);
    add_hooks(&mut m).unwrap();
    let code = m.functions[0].code.as_ref().unwrap();
    // one scratch local for the single i32 result
    assert_eq!(code.locals, vec![ValType::I32]);
    assert!(code.body.contains(&Instr::Return));
    // the result is teed, reported, and the return re-emitted right after
    // the polymorphic return hook
    let pos = code.body.iter().position(|i| *i == Instr::Return).unwrap();
    assert!(matches!(code.body[pos - 1], Instr::Call(_)));
    assert!(code.body.contains(&Instr::TeeLocal(0)));
}
