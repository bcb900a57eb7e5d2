use rupyjit::translate::{translate, Activation, Trampolines, PROLOGUE_LEN, SLOT_WIDTH};
use rupyjit::adapters::{add_longs, less_than_flag, sub_longs, truth_flag};

const LOAD_FAST: u8 = 124;
const LOAD_CONST: u8 = 100;
const LOAD_GLOBAL: u8 = 116;
const RETURN_VALUE: u8 = 83;
const BINARY_ADD: u8 = 23;
const BINARY_SUBTRACT: u8 = 24;
const COMPARE_OP: u8 = 107;
const POP_JUMP_IF_FALSE: u8 = 114;
const CALL_FUNCTION: u8 = 131;
const STORE_FAST: u8 = 125;

const ADD_AT: u64 = 0xa001;
const SUB_AT: u64 = 0xa002;
const LESS_AT: u64 = 0xa003;
const TRUTHY_AT: u64 = 0xa004;
const INVOKE_AT: u64 = 0xa005;
const RETURN_ADDRESS: u64 = 0xdead;

fn trampolines() -> Trampolines {
    Trampolines {
        add: ADD_AT,
        subtract: SUB_AT,
        less_than: LESS_AT,
        truthy: TRUTHY_AT,
        invoke: INVOKE_AT,
    }
}

#[derive(Clone, Debug, PartialEq)]
enum Value {
    Nothing,
    Int(i64),
    Bool(bool),
    Identity,
}

/// Host objects; a handle is an index plus one.
struct Heap {
    values: Vec<Value>,
}

impl Heap {
    fn new() -> Heap {
        Heap { values: Vec::new() }
    }

    fn store(&mut self, v: Value) -> u64 {
        self.values.push(v);
        self.values.len() as u64
    }

    fn get(&self, h: u64) -> Value {
        self.values[(h - 1) as usize].clone()
    }

    fn long(&self, h: u64) -> i64 {
        match self.get(h) {
            Value::Int(i) => i,
            other => panic!("not an int: {:?}", other),
        }
    }

    fn is_true(&self, h: u64) -> i32 {
        match self.get(h) {
            Value::Int(i) => (i != 0) as i32,
            Value::Bool(b) => b as i32,
            Value::Nothing => 0,
            Value::Identity => 1,
        }
    }
}

/// The runtime adapters, called with the generated code's `rdi` and `rsi`.
fn call(heap: &mut Heap, target: u64, rdi: u64, rsi: u64) -> u64 {
    match target {
        ADD_AT => {
            let c = add_longs(heap.long(rdi), heap.long(rsi)).unwrap();
            heap.store(Value::Int(c))
        }
        SUB_AT => {
            let c = sub_longs(heap.long(rdi), heap.long(rsi)).unwrap();
            heap.store(Value::Int(c))
        }
        LESS_AT => {
            // the right operand arrives first
            let flag = less_than_flag(heap.long(rsi), heap.long(rdi));
            heap.store(Value::Bool(flag == 1))
        }
        TRUTHY_AT => truth_flag(heap.is_true(rdi)) as u64,
        INVOKE_AT => match heap.get(rdi) {
            Value::Identity => rsi,
            other => panic!("not callable: {:?}", other),
        },
        other => panic!("call to unknown address {:x}", other),
    }
}

/// Runs generated code on a model of the machine and returns `rax` at the
/// final `ret`.
fn run(code: &[u8], heap: &mut Heap) -> u64 {
    let mut stack: Vec<u64> = vec![RETURN_ADDRESS];
    let (mut rax, mut rdi, mut rsi, mut rbp) = (0u64, 0u64, 0u64, 0x5555u64);
    let mut zf = false;
    let mut pc: usize = 0;
    let mut steps = 0;
    loop {
        steps += 1;
        assert!(steps < 10_000, "runaway code");
        match code[pc] {
            0xf3 => {
                assert_eq!(&code[pc..pc + 4], &[0xf3, 0x0f, 0x1e, 0xfa]);
                pc += 4;
            }
            0x55 => {
                stack.push(rbp);
                pc += 1;
            }
            0x5d => {
                rbp = stack.pop().unwrap();
                pc += 1;
            }
            0x50 => {
                stack.push(rax);
                pc += 1;
            }
            0x58 => {
                rax = stack.pop().unwrap();
                pc += 1;
            }
            0x5f => {
                rdi = stack.pop().unwrap();
                pc += 1;
            }
            0x5e => {
                rsi = stack.pop().unwrap();
                pc += 1;
            }
            0x90 => pc += 1,
            0xc3 => {
                assert_eq!(stack.pop(), Some(RETURN_ADDRESS));
                assert_eq!(rbp, 0x5555);
                assert!(stack.is_empty());
                return rax;
            }
            0x48 if code[pc + 1] == 0xb8 => {
                let mut v = [0u8; 8];
                v.copy_from_slice(&code[pc + 2..pc + 10]);
                rax = u64::from_le_bytes(v);
                pc += 10;
            }
            0x48 => {
                assert_eq!(&code[pc..pc + 4], &[0x48, 0x83, 0xf8, 0x00]);
                zf = rax == 0;
                pc += 4;
            }
            0xff => {
                assert_eq!(code[pc + 1], 0xd0);
                rax = call(heap, rax, rdi, rsi);
                pc += 2;
            }
            0x0f => {
                assert_eq!(code[pc + 1], 0x84);
                let mut d = [0u8; 4];
                d.copy_from_slice(&code[pc + 2..pc + 6]);
                pc += 6;
                if zf {
                    pc = (pc as i64 + i32::from_le_bytes(d) as i64) as usize;
                }
            }
            other => panic!("unexpected byte {:x} at {}", other, pc),
        }
    }
}

fn activation(code: Vec<u8>, consts: Vec<u64>, locals: Vec<u64>, globals: Vec<u64>) -> Activation {
    Activation { code, consts, locals, globals }
}

fn compile_and_run(act: &Activation, heap: &mut Heap) -> Value {
    let code = translate(act, &trampolines()).expect("compiled");
    let h = run(&code, heap);
    heap.get(h)
}

#[test]
fn arithmetic_adds_locals() {
    let mut heap = Heap::new();
    let a = heap.store(Value::Int(3));
    let b = heap.store(Value::Int(4));
    let act = activation(
        vec![LOAD_FAST, 0, LOAD_FAST, 1, BINARY_ADD, 0, RETURN_VALUE, 0],
        vec![],
        vec![a, b],
        vec![],
    );
    assert_eq!(compile_and_run(&act, &mut heap), Value::Int(7));
}

#[test]
fn subtraction_takes_first_minus_second() {
    let mut heap = Heap::new();
    let a = heap.store(Value::Int(10));
    let b = heap.store(Value::Int(3));
    let act = activation(
        vec![LOAD_FAST, 0, LOAD_FAST, 1, BINARY_SUBTRACT, 0, RETURN_VALUE, 0],
        vec![],
        vec![a, b],
        vec![],
    );
    assert_eq!(compile_and_run(&act, &mut heap), Value::Int(7));
}

#[test]
fn comparison_is_less_than() {
    let mut heap = Heap::new();
    let a = heap.store(Value::Int(2));
    let b = heap.store(Value::Int(5));
    let code = vec![LOAD_FAST, 0, LOAD_FAST, 1, COMPARE_OP, 0, RETURN_VALUE, 0];
    let act = activation(code.clone(), vec![], vec![a, b], vec![]);
    assert_eq!(compile_and_run(&act, &mut heap), Value::Bool(true));
    let act = activation(code, vec![], vec![b, a], vec![]);
    assert_eq!(compile_and_run(&act, &mut heap), Value::Bool(false));
}

fn branch_activation(heap: &mut Heap, cond: Value) -> Activation {
    let none = heap.store(Value::Nothing);
    let one = heap.store(Value::Int(1));
    let two = heap.store(Value::Int(2));
    let c = heap.store(cond);
    activation(
        vec![
            LOAD_GLOBAL, 0, POP_JUMP_IF_FALSE, 4, LOAD_CONST, 1, RETURN_VALUE, 0, LOAD_CONST, 2,
            RETURN_VALUE, 0,
        ],
        vec![none, one, two],
        vec![],
        vec![c],
    )
}

#[test]
fn branch_follows_condition() {
    let mut heap = Heap::new();
    let act = branch_activation(&mut heap, Value::Bool(false));
    assert_eq!(compile_and_run(&act, &mut heap), Value::Int(2));
    let act = branch_activation(&mut heap, Value::Int(0));
    assert_eq!(compile_and_run(&act, &mut heap), Value::Int(2));
    let act = branch_activation(&mut heap, Value::Bool(true));
    assert_eq!(compile_and_run(&act, &mut heap), Value::Int(1));
    let act = branch_activation(&mut heap, Value::Int(9));
    assert_eq!(compile_and_run(&act, &mut heap), Value::Int(1));
}

#[test]
fn call_passes_single_argument() {
    let mut heap = Heap::new();
    let identity = heap.store(Value::Identity);
    let five = heap.store(Value::Int(5));
    let act = activation(
        vec![LOAD_GLOBAL, 0, LOAD_FAST, 0, CALL_FUNCTION, 1, RETURN_VALUE, 0],
        vec![],
        vec![five],
        vec![identity],
    );
    assert_eq!(compile_and_run(&act, &mut heap), Value::Int(5));
}

#[test]
fn translation_is_repeatable() {
    let act = activation(
        vec![LOAD_FAST, 0, LOAD_FAST, 1, BINARY_ADD, 0, RETURN_VALUE, 0],
        vec![],
        vec![0x7000, 0x7008],
        vec![],
    );
    let first = translate(&act, &trampolines());
    let second = translate(&act.clone(), &trampolines());
    assert!(first.is_some());
    assert_eq!(first, second);
}

#[test]
fn every_instruction_takes_one_slot() {
    assert_eq!(SLOT_WIDTH, 24);
    assert_eq!(PROLOGUE_LEN, 5);
    let act = activation(
        vec![
            LOAD_GLOBAL, 0, POP_JUMP_IF_FALSE, 4, LOAD_CONST, 1, RETURN_VALUE, 0, LOAD_CONST, 2,
            RETURN_VALUE, 0,
        ],
        vec![1, 2, 3],
        vec![],
        vec![4],
    );
    let code = translate(&act, &trampolines()).unwrap();
    assert_eq!(code.len() - PROLOGUE_LEN, 6 * SLOT_WIDTH);
    assert_eq!(translate(&activation(vec![], vec![], vec![], vec![]), &trampolines()).unwrap().len(), 5);
}

#[test]
fn exact_bytes_of_addition() {
    let act = activation(
        vec![LOAD_FAST, 0, LOAD_FAST, 1, BINARY_ADD, 0, RETURN_VALUE, 0],
        vec![],
        vec![0x1111, 0x2222],
        vec![],
    );
    let code = translate(&act, &trampolines()).unwrap();
    let mut want: Vec<u8> = vec![0xf3, 0x0f, 0x1e, 0xfa, 0x55];
    let mov = |v: u64| {
        let mut b = vec![0x48, 0xb8];
        b.extend_from_slice(&v.to_le_bytes());
        b
    };
    let pad = |mut b: Vec<u8>| {
        b.resize(24, 0x90);
        b
    };
    let mut load0 = mov(0x1111);
    load0.push(0x50);
    let mut load1 = mov(0x2222);
    load1.push(0x50);
    let mut add = vec![0x5f, 0x5e];
    add.extend(mov(ADD_AT));
    add.extend([0xff, 0xd0, 0x50]);
    want.extend(pad(load0));
    want.extend(pad(load1));
    want.extend(pad(add));
    want.extend(pad(vec![0x58, 0x5d, 0xc3]));
    assert_eq!(code, want);
}

#[test]
fn branch_displacement_is_half_operand_slots() {
    let act = activation(vec![POP_JUMP_IF_FALSE, 4], vec![], vec![], vec![]);
    let code = translate(&act, &trampolines()).unwrap();
    let block = &code[5..29];
    assert_eq!(&block[17..23], &[0x0f, 0x84, 48, 0, 0, 0]);
    assert_eq!(block[23], 0x90);
    let act = activation(vec![POP_JUMP_IF_FALSE, 0xfd], vec![], vec![], vec![]);
    let code = translate(&act, &trampolines()).unwrap();
    // -3 halves toward zero to -1
    assert_eq!(&code[5 + 17..5 + 23], &[0x0f, 0x84, 0xe8, 0xff, 0xff, 0xff]);
}

#[test]
fn unsupported_anywhere_is_not_compiled() {
    let good = vec![LOAD_FAST, 0, LOAD_FAST, 1, BINARY_ADD, 0, RETURN_VALUE, 0];
    for at in 0..4 {
        let mut code = good.clone();
        code[2 * at] = STORE_FAST;
        let act = activation(code, vec![], vec![1, 2], vec![]);
        assert_eq!(translate(&act, &trampolines()), None);
    }
    let mut code = good.clone();
    code[4] = 0;
    let act = activation(code, vec![], vec![1, 2], vec![]);
    assert_eq!(translate(&act, &trampolines()), None);
}

#[test]
fn unsupported_operands_are_not_compiled() {
    let t = trampolines();
    // a call with two arguments
    let act = activation(vec![CALL_FUNCTION, 2], vec![], vec![], vec![]);
    assert_eq!(translate(&act, &t), None);
    // a comparison other than less-than
    let act = activation(vec![COMPARE_OP, 2], vec![], vec![], vec![]);
    assert_eq!(translate(&act, &t), None);
    // tables too short for the operand
    let act = activation(vec![LOAD_FAST, 1], vec![], vec![9], vec![]);
    assert_eq!(translate(&act, &t), None);
    let act = activation(vec![LOAD_CONST, 0xff], vec![9], vec![], vec![]);
    assert_eq!(translate(&act, &t), None);
    let act = activation(vec![LOAD_GLOBAL, 0], vec![], vec![], vec![]);
    assert_eq!(translate(&act, &t), None);
}

#[test]
fn odd_stream_is_not_compiled() {
    let act = activation(vec![LOAD_FAST, 0, RETURN_VALUE], vec![], vec![1], vec![]);
    assert_eq!(translate(&act, &trampolines()), None);
}
