//! Compilation of a parsed AST into an object file.
//!
//! Variables are laid out in declaration order: each one's offset is the
//! previous offset plus the previous size, starting at zero. Instructions
//! are emitted one after the other, with `SV <name>` resolved to the named
//! variable's offset as a 16-bit little-endian immediate.

use crate::ast::{ASTTree, Instruction, InstructionModel, R8Regs, Variable, VariableModel};
use crate::object_file::{
    spec_item_size, spec_items_size, spec_storage_wf, ItemModel, SmolFile, SmolFileModel, Storage,
    StorageItem, StorageModel,
};
use vstd::prelude::*;

verus! {

/// Why an AST cannot be compiled.
#[derive(Clone, Copy, Debug, PartialEq, Eq, Structural)]
pub enum CompileError {
    /// `SV` names a variable that was never declared; carries the 1-based
    /// source line of the instruction.
    UnknownVariable { line: usize },
    /// The variable at `index` has a size outside `1..=0x7FFF`.
    InvalidSize { index: usize },
    /// The variable at `index` has an initial value whose length is not
    /// its size.
    SizeMismatch { index: usize },
    /// The variables no longer fit the variable space, or their encoded
    /// item region no longer fits its 16-bit length field.
    StorageOverflow { index: usize },
}

/// The ALU operation an opcode byte should carry.
#[derive(Clone, Copy, Debug, PartialEq, Eq, Structural)]
pub enum ALUType {
    /// Addition.
    Add,
    /// Subtraction.
    Subtract,
    /// Binary AND.
    And,
    /// Binary OR.
    Or,
    /// Binary XOR.
    Xor,
    /// Binary NOT.
    Not,
    /// Equality.
    Equality,
    /// Increment / decrement.
    IncrDecr,
}

impl ALUType {
    /// The 3-bit encoding of this operation, bits 5..3 of the opcode.
    pub open spec fn spec_encode(self) -> u8 {
        match self {
            ALUType::Add => 0,
            ALUType::Subtract => 1,
            ALUType::And => 2,
            ALUType::Or => 3,
            ALUType::Xor => 4,
            ALUType::Not => 5,
            ALUType::Equality => 6,
            ALUType::IncrDecr => 7,
        }
    }
}

/// The source, or for increment/decrement the sub-function, that bit 2 of
/// an ALU opcode selects.
#[derive(Clone, Copy, Debug, PartialEq, Eq, Structural)]
pub enum ALUSrc {
    /// The second operand is a register.
    Register,
    /// The second operand is an immediate.
    Immidiate,
    /// Operation 7: increment.
    Incerement,
    /// Operation 7: decrement.
    Decrement,
}

impl ALUSrc {
    /// Whether this source sets bit 2 of the opcode.
    pub open spec fn spec_bit2(self) -> bool {
        self is Immidiate || self is Decrement
    }
}

/// The opcode byte of an ALU instruction, assembled from its fields.
pub open spec fn spec_compile_alu_equality(tt: ALUType, source: ALUSrc, is_16b: bool, noop: bool) -> u8 {
    ((tt.spec_encode() << 3) | (if source.spec_bit2() {
        4
    } else {
        0
    }) | (if is_16b {
        2
    } else {
        0
    }) | (if noop {
        1
    } else {
        0
    })) as u8
}

/// Assemble an ALU opcode byte. The result decodes back to its fields: it
/// lands in the ALU family, and the machine's operation, source, width and
/// no-op selectors recover exactly what was put in.
pub fn compile_alu_equality(tt: ALUType, source: ALUSrc, is_16b: bool, noop: bool) -> (r: u8)
    ensures
        r == spec_compile_alu_equality(tt, source, is_16b, noop),
        crate::vm::spec_family(r) == 0,
        crate::vm::spec_alu_op(r) == tt.spec_encode(),
        crate::vm::spec_alu_bit2(r) == source.spec_bit2(),
        crate::vm::spec_alu_wide(r) == is_16b,
        crate::vm::spec_alu_nop(r) == noop,
{
    let t: u8 = match tt {
        ALUType::Add => 0,
        ALUType::Subtract => 1,
        ALUType::And => 2,
        ALUType::Or => 3,
        ALUType::Xor => 4,
        ALUType::Not => 5,
        ALUType::Equality => 6,
        ALUType::IncrDecr => 7,
    };
    let sv: u8 = match source {
        ALUSrc::Immidiate | ALUSrc::Decrement => 4,
        _ => 0,
    };
    let wv: u8 = if is_16b {
        2
    } else {
        0
    };
    let nv: u8 = if noop {
        1
    } else {
        0
    };
    let op = (t << 3) | sv | wv | nv;
    proof {
        lemma_alu_opcode_fields(t, sv, wv, nv);
    }
    op
}

/// An assembled ALU opcode decodes back to the fields it was built from.
proof fn lemma_alu_opcode_fields(t: u8, sv: u8, wv: u8, nv: u8)
    requires
        t < 8,
        sv == 0 || sv == 4,
        wv == 0 || wv == 2,
        nv == 0 || nv == 1,
    ensures
        (((t << 3) | sv | wv | nv) >> 6) & 3 == 0,
        (((t << 3) | sv | wv | nv) >> 3) & 7 == t,
        (((t << 3) | sv | wv | nv) & 4 == 4) == (sv == 4),
        (((t << 3) | sv | wv | nv) & 2 == 2) == (wv == 2),
        (((t << 3) | sv | wv | nv) & 1 == 1) == (nv == 1),
{
    assert((t < 8 && (sv == 0 || sv == 4) && (wv == 0 || wv == 2) && (nv == 0 || nv == 1)) ==> {
        let op = (t << 3) | sv | wv | nv;
        &&& (op >> 6) & 3 == 0
        &&& (op >> 3) & 7 == t
        &&& (op & 4 == 4) == (sv == 4)
        &&& (op & 2 == 2) == (wv == 2)
        &&& (op & 1 == 1) == (nv == 1)
    }) by (bit_vector);
}

// ---------------------------------------------------------------------------
// Variable layout
// ---------------------------------------------------------------------------
/// Layout of the variables from index `i` on, given the next free offset,
/// the byte count of the items laid out so far, and those items. Rejected:
/// a size outside `1..=0x7FFF`, init data of the wrong length, a layout
/// past the end of the variable space, and an item region over the 16-bit
/// `total_size`.
pub open spec fn spec_compile_variables_from(
    vars: Seq<VariableModel>,
    i: int,
    offset: u16,
    total: u16,
    items: Seq<ItemModel>,
) -> Result<StorageModel, CompileError>
    decreases vars.len() - i,
{
    if i < 0 || i >= vars.len() {
        Ok(StorageModel { total_size: total, items })
    } else {
        let v = vars[i];
        if !(1 <= v.size <= 0x7FFF) {
            Err(CompileError::InvalidSize { index: i as usize })
        } else if v.bytes is Some && v.bytes->0.len() != v.size {
            Err(CompileError::SizeMismatch { index: i as usize })
        } else if offset + v.size > 0x7FFF {
            Err(CompileError::StorageOverflow { index: i as usize })
        } else if total + 4 + (if v.bytes is Some {
            v.size as int
        } else {
            0
        }) > 0xFFFF {
            Err(CompileError::StorageOverflow { index: i as usize })
        } else {
            spec_compile_variables_from(
                vars,
                i + 1,
                (offset + v.size) as u16,
                (total + 4 + (if v.bytes is Some {
                    v.size as int
                } else {
                    0
                })) as u16,
                items.push(ItemModel { size: v.size, offset, init: v.bytes }),
            )
        }
    }
}

/// The layout of a whole variable list, offsets rising from zero.
pub open spec fn spec_compile_variables(vars: Seq<VariableModel>) -> Result<
    StorageModel,
    CompileError,
> {
    spec_compile_variables_from(vars, 0, 0, 0, Seq::empty())
}

/// Lay out the declared variables as storage items with rising offsets.
#[verifier::loop_isolation(false)]
pub fn compile_variables(vars: &Vec<Variable>) -> (r: Result<Storage, CompileError>)
    ensures
        match r {
            Ok(st) => spec_compile_variables(Seq::new(vars@.len(), |i: int| vars@[i]@)) == Ok::<
                StorageModel,
                CompileError,
            >(st@),
            Err(e) => spec_compile_variables(Seq::new(vars@.len(), |i: int| vars@[i]@)) == Err::<
                StorageModel,
                CompileError,
            >(e),
        },
{
    let ghost vmodels = Seq::new(vars@.len(), |i: int| vars@[i]@);
    let n = vars.len();
    let mut i: usize = 0;
    let mut offset: u16 = 0;
    let mut total: u16 = 0;
    let mut items: Vec<StorageItem> = Vec::new();
    proof {
        assert(Seq::new(items@.len(), |k: int| items@[k]@) =~= Seq::<ItemModel>::empty());
    }
    while i < n
        invariant
            i <= n,
            n == vars@.len(),
            spec_compile_variables(vmodels) == spec_compile_variables_from(
                vmodels,
                i as int,
                offset,
                total,
                Seq::new(items@.len(), |k: int| items@[k]@),
            ),
        decreases n - i,
    {
        let ghost acc = Seq::new(items@.len(), |k: int| items@[k]@);
        let v = &vars[i];
        if v.size < 1 || v.size > 0x7FFF {
            return Err(CompileError::InvalidSize { index: i });
        }
        let init_len: usize = match v.bytes {
            Some(ref b) => {
                if b.len() != v.size as usize {
                    return Err(CompileError::SizeMismatch { index: i });
                }
                b.len()
            },
            None => 0,
        };
        if offset as usize + v.size as usize > 0x7FFF {
            return Err(CompileError::StorageOverflow { index: i });
        }
        if total as usize + 4 + init_len > 0xFFFF {
            return Err(CompileError::StorageOverflow { index: i });
        }
        let init_data: Option<Vec<u8>> = match v.bytes {
            Some(ref b) => Some(b.clone()),
            None => None,
        };
        let item = StorageItem { size: v.size, offset, init_data };
        proof {
            assert(item@ == (ItemModel { size: v@.size, offset, init: v@.bytes }));
        }
        items.push(item);
        proof {
            assert(Seq::new(items@.len(), |k: int| items@[k]@) =~= acc.push(item@));
        }
        offset = offset + v.size;
        total = total + 4 + init_len as u16;
        i = i + 1;
    }
    proof {
        assert(Seq::new(items@.len(), |k: int| items@[k]@) =~= Seq::new(
            items@.len(),
            |k: int| items@[k]@,
        ));
    }
    Ok(Storage { total_size: total, items })
}

/// Offsets, sizes and the byte count of a computed layout: every item has
/// a size in `1..=0x7FFF` and init data of exactly that size, consecutive
/// items are adjacent (each offset is the previous offset plus the
/// previous size), and `total_size` is the exact byte count of the item
/// region.
proof fn lemma_compile_variables_shape(
    vars: Seq<VariableModel>,
    i: int,
    offset: u16,
    total: u16,
    items: Seq<ItemModel>,
    st: StorageModel,
)
    requires
        spec_compile_variables_from(vars, i, offset, total, items) == Ok::<
            StorageModel,
            CompileError,
        >(st),
        forall|k: int|
            0 <= k < items.len() ==> crate::object_file::spec_item_wf(#[trigger] items[k]),
        forall|k: int|
            0 <= k < items.len() - 1 ==> (#[trigger] items[k + 1].offset) == items[k].offset
                + items[k].size,
        items.len() > 0 ==> items.last().offset + items.last().size == offset,
        items.len() == 0 ==> offset == 0,
        total == spec_items_size(items),
    ensures
        spec_storage_wf(st),
        forall|k: int|
            0 <= k < st.items.len() - 1 ==> (#[trigger] st.items[k + 1].offset) == st.items[k].offset
                + st.items[k].size,
        st.items.len() >= items.len(),
        forall|k: int| 0 <= k < items.len() ==> st.items[k] == items[k],
    decreases vars.len() - i,
{
    lemma_items_size_nonneg(items);
    if i < 0 || i >= vars.len() {
        assert(st.items == items);
    } else {
        let v = vars[i];
        let it = ItemModel { size: v.size, offset, init: v.bytes };
        let pushed = items.push(it);
        lemma_items_size_snoc(items, it);
        assert(forall|k: int|
            0 <= k < pushed.len() - 1 ==> (#[trigger] pushed[k + 1].offset) == pushed[k].offset
                + pushed[k].size);
        lemma_compile_variables_shape(
            vars,
            i + 1,
            (offset + v.size) as u16,
            (total + spec_item_size(it)) as u16,
            pushed,
            st,
        );
        assert forall|k: int| 0 <= k < items.len() implies st.items[k] == items[k] by {
            assert(pushed[k] == items[k]);
            assert(st.items[k] == pushed[k]);
        }
    }
}

/// The byte count of an item list is never negative.
proof fn lemma_items_size_nonneg(items: Seq<ItemModel>)
    ensures
        spec_items_size(items) >= 0,
    decreases items.len(),
{
    if items.len() > 0 {
        lemma_items_size_nonneg(items.drop_first());
    }
}

/// Appending one item adds exactly its own byte count.
proof fn lemma_items_size_snoc(items: Seq<ItemModel>, it: ItemModel)
    ensures
        spec_items_size(items.push(it)) == spec_items_size(items) + spec_item_size(it),
    decreases items.len(),
{
    if items.len() == 0 {
        assert(items.push(it).drop_first() =~= Seq::<ItemModel>::empty());
        assert(spec_items_size(items.push(it).drop_first()) == 0);
    } else {
        assert(items.push(it).drop_first() =~= items.drop_first().push(it));
        lemma_items_size_snoc(items.drop_first(), it);
    }
}

// ---------------------------------------------------------------------------
// Name resolution and instruction emission
// ---------------------------------------------------------------------------
/// The index of the first declared variable called `name`, from `i` on.
pub open spec fn spec_find_variable(vars: Seq<VariableModel>, name: Seq<u8>, i: int) -> Option<int>
    decreases vars.len() - i,
{
    if i < 0 || i >= vars.len() {
        None
    } else if vars[i].name == name {
        Some(i)
    } else {
        spec_find_variable(vars, name, i + 1)
    }
}

/// The storage offset of the variable called `name`: variables and items
/// are laid out in the same order, so they share indexes.
pub open spec fn spec_variable_offset(
    vars: Seq<VariableModel>,
    items: Seq<ItemModel>,
    name: Seq<u8>,
) -> Option<u16> {
    match spec_find_variable(vars, name, 0) {
        Some(i) => if i < items.len() {
            Some(items[i].offset)
        } else {
            None
        },
        None => None,
    }
}

/// Whether two byte strings hold the same bytes.
fn bytes_eq(a: &[u8], b: &[u8]) -> (r: bool)
    ensures
        r == (a@ == b@),
{
    if a.len() != b.len() {
        return false;
    }
    let n = a.len();
    let mut i: usize = 0;
    while i < n
        invariant
            i <= n,
            n == a@.len() == b@.len(),
            forall|k: int| 0 <= k < i ==> a@[k] == b@[k],
        decreases n - i,
    {
        if a[i] != b[i] {
            return false;
        }
        i = i + 1;
    }
    proof {
        assert(a@ =~= b@);
    }
    true
}

/// Resolve a variable name to its storage offset.
#[verifier::loop_isolation(false)]
pub fn variable_offset(name: &[u8], ast: &ASTTree, storage: &Storage) -> (r: Option<u16>)
    ensures
        r == spec_variable_offset(ast@.variables, storage@.items, name@),
{
    let n = ast.variables.len();
    let mut i: usize = 0;
    while i < n
        invariant
            i <= n,
            n == ast@.variables.len(),
            spec_find_variable(ast@.variables, name@, 0) == spec_find_variable(
                ast@.variables,
                name@,
                i as int,
            ),
        decreases n - i,
    {
        if bytes_eq(ast.variables[i].name.as_slice(), name) {
            if i < storage.items.len() {
                return Some(storage.items[i].offset);
            } else {
                return None;
            }
        }
        i = i + 1;
    }
    None
}

/// The 4-bit selector of an 8-bit register operand.
pub open spec fn spec_r8_code(r: R8Regs) -> u8 {
    match r {
        R8Regs::R0 => 0,
        R8Regs::R1 => 1,
        R8Regs::R2 => 2,
        R8Regs::R3 => 3,
        R8Regs::R4 => 4,
        R8Regs::R5 => 5,
        R8Regs::R6 => 6,
        R8Regs::R7 => 7,
    }
}

/// Encode an 8-bit register operand as its 4-bit selector.
fn r8_code(r: R8Regs) -> (v: u8)
    ensures
        v == spec_r8_code(r),
{
    match r {
        R8Regs::R0 => 0,
        R8Regs::R1 => 1,
        R8Regs::R2 => 2,
        R8Regs::R3 => 3,
        R8Regs::R4 => 4,
        R8Regs::R5 => 5,
        R8Regs::R6 => 6,
        R8Regs::R7 => 7,
    }
}

/// The bytes one instruction assembles to. `ADD rX rY` is the ALU add
/// opcode and one register byte, destination in the low nibble; `ADDI` is
/// the immediate-source add opcode, the destination byte and the
/// immediate; `SYSCALL` is `0b11101111`; `SV <name>` is `0b10101100` and
/// the named variable's offset, little-endian; `UV` is `0b10110000`.
pub open spec fn spec_compile_instruction(
    instr: InstructionModel,
    vars: Seq<VariableModel>,
    items: Seq<ItemModel>,
) -> Result<Seq<u8>, CompileError> {
    match instr {
        InstructionModel::Add { line, dst, src } => Ok(
            seq![
                spec_compile_alu_equality(ALUType::Add, ALUSrc::Register, false, false),
                ((spec_r8_code(src) << 4) | spec_r8_code(dst)) as u8,
            ],
        ),
        InstructionModel::AddI { line, dst, imm } => Ok(
            seq![
                spec_compile_alu_equality(ALUType::Add, ALUSrc::Immidiate, false, false),
                spec_r8_code(dst),
                imm,
            ],
        ),
        InstructionModel::Syscall { line } => Ok(seq![0xEFu8]),
        InstructionModel::Uv { line } => Ok(seq![0xB0u8]),
        InstructionModel::Sv { line, name } => match spec_variable_offset(vars, items, name) {
            Some(off) => Ok(seq![0xACu8, off as u8, (off >> 8) as u8]),
            None => Err(CompileError::UnknownVariable { line }),
        },
    }
}

/// The bytes the instructions from index `i` on assemble to, appended to
/// `acc`.
pub open spec fn spec_compile_instructions(
    instrs: Seq<InstructionModel>,
    vars: Seq<VariableModel>,
    items: Seq<ItemModel>,
    i: int,
    acc: Seq<u8>,
) -> Result<Seq<u8>, CompileError>
    decreases instrs.len() - i,
{
    if i < 0 || i >= instrs.len() {
        Ok(acc)
    } else {
        match spec_compile_instruction(instrs[i], vars, items) {
            Ok(bytes) => spec_compile_instructions(instrs, vars, items, i + 1, acc + bytes),
            Err(e) => Err(e),
        }
    }
}

/// The object file a whole AST compiles to: the variable layout, then the
/// assembled instruction bytes.
pub open spec fn spec_compile_ast(ast: crate::ast::ASTModel) -> Result<
    SmolFileModel,
    CompileError,
> {
    match spec_compile_variables(ast.variables) {
        Err(e) => Err(e),
        Ok(storage) => match spec_compile_instructions(
            ast.instructions,
            ast.variables,
            storage.items,
            0,
            Seq::empty(),
        ) {
            Err(e) => Err(e),
            Ok(bytes) => Ok(SmolFileModel { storage, instructions: bytes }),
        },
    }
}

/// Compile a parsed AST into an object file: lay out the variables, then
/// assemble the instructions, resolving each `SV` name to its offset.
#[verifier::loop_isolation(false)]
pub fn compile_ast(ast: ASTTree) -> (r: Result<SmolFile, CompileError>)
    ensures
        match r {
            Ok(f) => spec_compile_ast(ast@) == Ok::<SmolFileModel, CompileError>(f@),
            Err(e) => spec_compile_ast(ast@) == Err::<SmolFileModel, CompileError>(e),
        },
{
    let storage = match compile_variables(&ast.variables) {
        Ok(st) => st,
        Err(e) => {
            return Err(e);
        },
    };
    let mut out: Vec<u8> = Vec::new();
    let n = ast.instructions.len();
    let mut i: usize = 0;
    proof {
        assert(Seq::new(ast.variables@.len(), |k: int| ast.variables@[k]@) =~= ast@.variables);
        assert(out@ =~= Seq::<u8>::empty());
    }
    while i < n
        invariant
            i <= n,
            n == ast@.instructions.len(),
            spec_compile_instructions(ast@.instructions, ast@.variables, storage@.items, 0, Seq::empty())
                == spec_compile_instructions(
                ast@.instructions,
                ast@.variables,
                storage@.items,
                i as int,
                out@,
            ),
        decreases n - i,
    {
        let ghost acc = out@;
        let instr = &ast.instructions[i];
        match instr {
            Instruction::Add(il) => {
                let op = compile_alu_equality(ALUType::Add, ALUSrc::Register, false, false);
                let regbyte = (r8_code(il.instr.arg2.register) << 4) | r8_code(
                    il.instr.arg1.register,
                );
                out.push(op);
                out.push(regbyte);
                proof {
                    assert(out@ =~= acc + seq![op, regbyte]);
                }
            },
            Instruction::AddI(il) => {
                let op = compile_alu_equality(ALUType::Add, ALUSrc::Immidiate, false, false);
                let regbyte = r8_code(il.instr.arg1.register);
                let imm = il.instr.arg2.value;
                out.push(op);
                out.push(regbyte);
                out.push(imm);
                proof {
                    assert(out@ =~= acc + seq![op, regbyte, imm]);
                }
            },
            Instruction::Syscall(il) => {
                out.push(0xEF);
                proof {
                    assert(out@ =~= acc + seq![0xEFu8]);
                }
            },
            Instruction::Uv(il) => {
                out.push(0xB0);
                proof {
                    assert(out@ =~= acc + seq![0xB0u8]);
                }
            },
            Instruction::Sv(il) => {
                let off = match variable_offset(il.instr.as_slice(), &ast, &storage) {
                    Some(off) => off,
                    None => {
                        return Err(CompileError::UnknownVariable { line: il.line });
                    },
                };
                out.push(0xAC);
                out.push(off as u8);
                out.push((off >> 8) as u8);
                proof {
                    assert(out@ =~= acc + seq![0xACu8, off as u8, (off >> 8) as u8]);
                }
            },
        }
        i = i + 1;
    }
    Ok(SmolFile { storage, instructions: out })
}

/// Offset-monotonicity law: in any layout the compiler accepts, item
/// offsets are strictly increasing, and each item's offset is the previous
/// item's offset plus the previous item's size. The layout is moreover a
/// well-formed storage header, so it survives the object-file round trip.
pub proof fn lemma_offset_monotonicity(vars: Seq<VariableModel>)
    ensures
        match spec_compile_variables(vars) {
            Ok(st) => {
                &&& spec_storage_wf(st)
                &&& forall|k: int|
                    0 <= k < st.items.len() - 1 ==> (#[trigger] st.items[k + 1].offset)
                        == st.items[k].offset + st.items[k].size
                &&& forall|k: int|
                    0 <= k < st.items.len() - 1 ==> st.items[k].offset < (
                    #[trigger] st.items[k + 1].offset)
            },
            Err(e) => true,
        },
{
    if let Ok(st) = spec_compile_variables(vars) {
        lemma_compile_variables_shape(vars, 0, 0, 0, Seq::empty(), st);
        assert forall|k: int| 0 <= k < st.items.len() - 1 implies st.items[k].offset < (
        #[trigger] st.items[k + 1].offset) by {
            assert(crate::object_file::spec_item_wf(st.items[k]));
        }
    }
}

/// Round-trip law for compiled output: any object file the compiler
/// produces from an AST with at least one instruction decodes from its
/// own encoding unchanged, bit for bit.
pub proof fn lemma_compiled_file_roundtrip(ast: crate::ast::ASTModel)
    ensures
        match spec_compile_ast(ast) {
            Ok(f) => f.instructions.len() >= 1
                ==> crate::object_file::spec_decode_file(crate::object_file::spec_encode_file(f))
                == Ok::<SmolFileModel, crate::object_file::DecodeError>(f),
            Err(e) => true,
        },
{
    if let Ok(f) = spec_compile_ast(ast) {
        lemma_offset_monotonicity(ast.variables);
        if f.instructions.len() >= 1 {
            crate::object_file::lemma_file_roundtrip(f);
        }
    }
}

} // verus!
