//! Parsing of assembly source text into an AST.
//!
//! The source is line-oriented. A line whose first three characters are
//! `---` is a region marker: everything between the first and the second
//! marker is the variable region, everything after the second is the
//! instruction region; without any marker the whole file is instructions.
//! In both regions blank lines and lines whose first non-blank character
//! is `#` are skipped. Tokens are separated by ASCII whitespace.
//!
//! Variable lines read `<name> <size> [<value>]` with `<size>` a decimal
//! `u16` and `<value>`, when present, a double-quoted string literal in
//! which `\n` stands for a newline. Instruction lines start with a
//! case-insensitive mnemonic.
//!
//! Every parsing function is verified against a specification function
//! over the byte sequence of the source; errors carry the 1-based source
//! line they arose on.

use vstd::prelude::*;
use vstd::slice::{slice_subrange, slice_to_vec};
use vstd::string::StringSliceAdditionalSpecFns;

verus! {

/// What went wrong inside one source line.
#[derive(Clone, Copy, Debug, PartialEq, Eq, Structural)]
pub enum ParseErrorKind {
    /// The mnemonic names no known instruction.
    UnknownInstruction,
    /// The instruction needs more operands than the line carries.
    MissingArguments,
    /// An operand that should be one of `r0`..`r7` is not.
    BadRegister,
    /// An operand that should be a decimal `0..=255` is not.
    BadImmediate,
    /// `SV` without a variable name.
    MissingVariableName,
    /// A variable line without a size token.
    MissingVariableSize,
    /// A variable size that is not a decimal `u16`.
    BadVariableSize,
    /// A variable value that is not a double-quoted string literal.
    NotAString,
    /// A string literal with no closing quote.
    UnterminatedString,
    /// A string literal whose byte length differs from the declared size.
    InitSizeMismatch,
}

/// A parse error, pinned to the 1-based source line it arose on.
#[derive(Clone, Copy, Debug, PartialEq, Eq, Structural)]
pub struct SourceError {
    /// The 1-based line number.
    pub line: usize,
    /// What went wrong there.
    pub kind: ParseErrorKind,
}

// ---------------------------------------------------------------------------
// Scanning
// ---------------------------------------------------------------------------
/// ASCII whitespace, as a token separator.
pub open spec fn spec_is_space(b: u8) -> bool {
    b == 32 || b == 9 || b == 10 || b == 12 || b == 13
}

/// The first index at or after `i` holding something other than
/// whitespace, or the end of `s`.
pub open spec fn spec_ws_end(s: Seq<u8>, i: int) -> int
    decreases s.len() - i,
{
    if i < 0 || i >= s.len() || !spec_is_space(s[i]) {
        i
    } else {
        spec_ws_end(s, i + 1)
    }
}

/// The first index at or after `i` holding whitespace, or the end of `s`:
/// the end of the token starting at `i`.
pub open spec fn spec_tok_end(s: Seq<u8>, i: int) -> int
    decreases s.len() - i,
{
    if i < 0 || i >= s.len() || spec_is_space(s[i]) {
        i
    } else {
        spec_tok_end(s, i + 1)
    }
}

/// The first index at or after `i` holding a newline, or the end of `s`:
/// the end of the line starting at `i`.
pub open spec fn spec_line_end(s: Seq<u8>, i: int) -> int
    decreases s.len() - i,
{
    if i < 0 || i >= s.len() || s[i] == 10 {
        i
    } else {
        spec_line_end(s, i + 1)
    }
}

/// Each scan lands between its start and the end of the sequence.
pub proof fn lemma_scan_ranges(s: Seq<u8>, i: int)
    requires
        0 <= i <= s.len(),
    ensures
        i <= spec_ws_end(s, i) <= s.len(),
        i <= spec_tok_end(s, i) <= s.len(),
        i <= spec_line_end(s, i) <= s.len(),
    decreases s.len() - i,
{
    if i < s.len() {
        lemma_scan_ranges(s, i + 1);
    }
}

/// Whether `b` separates tokens.
fn is_space(b: u8) -> (r: bool)
    ensures
        r == spec_is_space(b),
{
    b == 32 || b == 9 || b == 10 || b == 12 || b == 13
}

/// Skip whitespace from `from`.
fn scan_ws_end(s: &[u8], from: usize) -> (r: usize)
    requires
        from <= s@.len(),
    ensures
        r == spec_ws_end(s@, from as int),
        from <= r <= s@.len(),
{
    let mut i = from;
    while i < s.len() && is_space(s[i])
        invariant
            from <= i <= s@.len(),
            spec_ws_end(s@, from as int) == spec_ws_end(s@, i as int),
        decreases s@.len() - i,
    {
        i = i + 1;
    }
    i
}

/// Find the end of the token starting at `from`.
fn scan_tok_end(s: &[u8], from: usize) -> (r: usize)
    requires
        from <= s@.len(),
    ensures
        r == spec_tok_end(s@, from as int),
        from <= r <= s@.len(),
{
    let mut i = from;
    while i < s.len() && !is_space(s[i])
        invariant
            from <= i <= s@.len(),
            spec_tok_end(s@, from as int) == spec_tok_end(s@, i as int),
        decreases s@.len() - i,
    {
        i = i + 1;
    }
    i
}

/// Find the end of the line starting at `from`.
fn scan_line_end(s: &[u8], from: usize) -> (r: usize)
    requires
        from <= s@.len(),
    ensures
        r == spec_line_end(s@, from as int),
        from <= r <= s@.len(),
{
    let mut i = from;
    while i < s.len() && s[i] != 10
        invariant
            from <= i <= s@.len(),
            spec_line_end(s@, from as int) == spec_line_end(s@, i as int),
        decreases s@.len() - i,
    {
        i = i + 1;
    }
    i
}

// ---------------------------------------------------------------------------
// Decimal numbers and letter case
// ---------------------------------------------------------------------------
/// Whether every byte of `t` is an ASCII digit.
pub open spec fn spec_all_digits(t: Seq<u8>) -> bool {
    forall|i: int| 0 <= i < t.len() ==> 48 <= #[trigger] t[i] <= 57
}

/// The numeric value of a digit string, most significant digit first.
pub open spec fn spec_dec_value(t: Seq<u8>) -> int
    decreases t.len(),
{
    if t.len() == 0 {
        0
    } else {
        spec_dec_value(t.drop_last()) * 10 + (t.last() - 48)
    }
}

/// The value of a decimal `u16` token: one or more digits whose value fits
/// 16 bits; anything else is rejected.
pub open spec fn spec_parse_u16(t: Seq<u8>) -> Option<u16> {
    if t.len() > 0 && spec_all_digits(t) && spec_dec_value(t) <= 0xFFFF {
        Some(spec_dec_value(t) as u16)
    } else {
        None
    }
}

/// A digit string's value never shrinks as digits are appended.
proof fn lemma_dec_value_prefix(t: Seq<u8>, i: int)
    requires
        spec_all_digits(t),
        0 <= i <= t.len(),
    ensures
        0 <= spec_dec_value(t.take(i)) <= spec_dec_value(t),
    decreases t.len() - i,
{
    if i == t.len() {
        assert(t.take(i) =~= t);
        lemma_dec_value_nonneg(t);
    } else {
        lemma_dec_value_prefix(t, i + 1);
        let u = t.take(i + 1);
        assert(u.drop_last() =~= t.take(i));
        lemma_dec_value_nonneg(t.take(i));
        assert(spec_dec_value(u) == spec_dec_value(t.take(i)) * 10 + (u.last() - 48));
        assert(48 <= t[i] <= 57);
        assert(u.last() == t[i]);
    }
}

/// A digit string's value is not negative.
proof fn lemma_dec_value_nonneg(t: Seq<u8>)
    requires
        spec_all_digits(t),
    ensures
        spec_dec_value(t) >= 0,
    decreases t.len(),
{
    if t.len() > 0 {
        assert(spec_all_digits(t.drop_last()));
        lemma_dec_value_nonneg(t.drop_last());
    }
}

/// Parse a decimal `u16` token.
fn parse_u16_token(t: &[u8]) -> (r: Option<u16>)
    ensures
        r == spec_parse_u16(t@),
{
    let n = t.len();
    if n == 0 {
        return None;
    }
    let mut acc: u32 = 0;
    let mut i: usize = 0;
    while i < n
        invariant
            0 < n == t@.len(),
            i <= n,
            spec_all_digits(t@.take(i as int)),
            acc == spec_dec_value(t@.take(i as int)),
            acc <= 0xFFFF,
        decreases n - i,
    {
        let b = t[i];
        if b < 48 || b > 57 {
            proof {
                assert(!spec_all_digits(t@));
            }
            return None;
        }
        proof {
            assert(t@.take(i + 1).drop_last() =~= t@.take(i as int));
            assert(t@.take(i + 1).last() == t@[i as int]);
        }
        acc = acc * 10 + (b - 48) as u32;
        i = i + 1;
        if acc > 0xFFFF {
            proof {
                if spec_all_digits(t@) {
                    lemma_dec_value_prefix(t@, i as int);
                }
            }
            return None;
        }
    }
    proof {
        assert(t@.take(n as int) =~= t@);
    }
    Some(acc as u16)
}

/// An upper-case ASCII letter folded to lower case; any other byte kept.
pub open spec fn spec_lower_byte(b: u8) -> u8 {
    if 65 <= b <= 90 {
        (b + 32) as u8
    } else {
        b
    }
}

/// The byte sequence with every upper-case ASCII letter folded to lower
/// case.
pub open spec fn spec_lower(t: Seq<u8>) -> Seq<u8> {
    Seq::new(t.len(), |i: int| spec_lower_byte(t[i]))
}

// ---------------------------------------------------------------------------
// AST types
// ---------------------------------------------------------------------------
/// The eight 8-bit general-purpose registers an operand token can name.
#[derive(Clone, Copy, Debug, PartialEq, Eq, Structural)]
pub enum R8Regs {
    /// `r0`.
    R0,
    /// `r1`.
    R1,
    /// `r2`.
    R2,
    /// `r3`.
    R3,
    /// `r4`.
    R4,
    /// `r5`.
    R5,
    /// `r6`.
    R6,
    /// `r7`.
    R7,
}

/// An operand as the encoder sees it: a register or an 8-bit immediate.
#[derive(Clone, Copy, Debug, PartialEq, Eq, Structural)]
pub enum RegType {
    /// 8-bit register.
    R8(R8Regs),
    /// 8-bit immediate.
    I8(u8),
}

/// An operand kind: something a single token can be parsed into.
pub trait Register: Sized {
    /// The operand this argument stands for.
    spec fn spec_reg_type(&self) -> RegType;

    /// The parse of one token into this operand kind.
    spec fn spec_try_parse(token: Seq<u8>) -> Result<Self, ParseErrorKind>;

    /// Turn the parsed argument into the operand it stands for.
    fn parse(self) -> (r: RegType)
        ensures
            r == self.spec_reg_type(),
    ;

    /// Parse one token.
    fn try_parse(token: &[u8]) -> (r: Result<Self, ParseErrorKind>)
        ensures
            r == Self::spec_try_parse(token@),
    ;
}

/// A register operand: one of the tokens `r0`..`r7`.
#[derive(Clone, Copy, Debug, PartialEq, Eq, Structural)]
pub struct R8 {
    /// Which register the token named.
    pub register: R8Regs,
}

/// The register named by an ASCII digit `0`..`7`.
pub open spec fn spec_r8_of_digit(d: u8) -> R8Regs {
    match d {
        48 => R8Regs::R0,
        49 => R8Regs::R1,
        50 => R8Regs::R2,
        51 => R8Regs::R3,
        52 => R8Regs::R4,
        53 => R8Regs::R5,
        54 => R8Regs::R6,
        _ => R8Regs::R7,
    }
}

impl R8 {
    /// The parse of a register token: exactly `r` followed by one digit
    /// `0`..`7`.
    pub open spec fn spec_parse_token(token: Seq<u8>) -> Result<R8, ParseErrorKind> {
        if token.len() == 2 && token[0] == 114 && 48 <= token[1] <= 55 {
            Ok(R8 { register: spec_r8_of_digit(token[1]) })
        } else {
            Err(ParseErrorKind::BadRegister)
        }
    }
}

impl Register for R8 {
    open spec fn spec_reg_type(&self) -> RegType {
        RegType::R8(self.register)
    }

    open spec fn spec_try_parse(token: Seq<u8>) -> Result<R8, ParseErrorKind> {
        R8::spec_parse_token(token)
    }

    fn parse(self) -> (r: RegType) {
        RegType::R8(self.register)
    }

    fn try_parse(token: &[u8]) -> (r: Result<R8, ParseErrorKind>) {
        if token.len() != 2 || token[0] != 114 {
            return Err(ParseErrorKind::BadRegister);
        }
        let d = token[1];
        let register = match d {
            48 => R8Regs::R0,
            49 => R8Regs::R1,
            50 => R8Regs::R2,
            51 => R8Regs::R3,
            52 => R8Regs::R4,
            53 => R8Regs::R5,
            54 => R8Regs::R6,
            55 => R8Regs::R7,
            _ => {
                return Err(ParseErrorKind::BadRegister);
            },
        };
        Ok(R8 { register })
    }
}

/// An immediate operand: a decimal token `0..=255`.
#[derive(Clone, Copy, Debug, PartialEq, Eq, Structural)]
pub struct I8 {
    /// The immediate's value.
    pub value: u8,
}

impl I8 {
    /// The parse of an immediate token: a decimal number up to 255.
    pub open spec fn spec_parse_token(token: Seq<u8>) -> Result<I8, ParseErrorKind> {
        match spec_parse_u16(token) {
            Some(v) => if v <= 255 {
                Ok(I8 { value: v as u8 })
            } else {
                Err(ParseErrorKind::BadImmediate)
            },
            None => Err(ParseErrorKind::BadImmediate),
        }
    }
}

impl Register for I8 {
    open spec fn spec_reg_type(&self) -> RegType {
        RegType::I8(self.value)
    }

    open spec fn spec_try_parse(token: Seq<u8>) -> Result<I8, ParseErrorKind> {
        I8::spec_parse_token(token)
    }

    fn parse(self) -> (r: RegType) {
        RegType::I8(self.value)
    }

    fn try_parse(token: &[u8]) -> (r: Result<I8, ParseErrorKind>) {
        match parse_u16_token(token) {
            Some(v) => if v <= 255 {
                Ok(I8 { value: v as u8 })
            } else {
                Err(ParseErrorKind::BadImmediate)
            },
            None => Err(ParseErrorKind::BadImmediate),
        }
    }
}

/// An instruction that takes no operands.
#[derive(Clone, Copy, Debug, PartialEq, Eq, Structural)]
pub struct Arg0 {}

/// The two operands of a binary instruction.
#[derive(Clone, Copy, Debug, PartialEq, Eq)]
pub struct Arg2<A1: Register, A2: Register> {
    /// The first operand: destination, and first source.
    pub arg1: A1,
    /// The second operand: the second source.
    pub arg2: A2,
}

impl<A1: Register, A2: Register> Arg2<A1, A2> {
    /// The parse of an instruction line's operands: the two tokens after
    /// the mnemonic, which must both be present.
    pub open spec fn spec_parse_line(line: Seq<u8>) -> Result<Arg2<A1, A2>, ParseErrorKind> {
        let j0 = spec_ws_end(line, 0);
        let k0 = spec_tok_end(line, j0);
        let j1 = spec_ws_end(line, k0);
        let k1 = spec_tok_end(line, j1);
        let j2 = spec_ws_end(line, k1);
        let k2 = spec_tok_end(line, j2);
        if j1 >= line.len() || j2 >= line.len() {
            Err(ParseErrorKind::MissingArguments)
        } else {
            match A1::spec_try_parse(line.subrange(j1, k1)) {
                Ok(arg1) => match A2::spec_try_parse(line.subrange(j2, k2)) {
                    Ok(arg2) => Ok(Arg2 { arg1, arg2 }),
                    Err(e) => Err(e),
                },
                Err(e) => Err(e),
            }
        }
    }

    /// Parse the operands of an instruction line: the whole line is given,
    /// its first token being the mnemonic.
    pub fn try_parse(line: &[u8]) -> (r: Result<Arg2<A1, A2>, ParseErrorKind>)
        ensures
            r == Arg2::<A1, A2>::spec_parse_line(line@),
    {
        let j0 = scan_ws_end(line, 0);
        let k0 = scan_tok_end(line, j0);
        let j1 = scan_ws_end(line, k0);
        let k1 = scan_tok_end(line, j1);
        let j2 = scan_ws_end(line, k1);
        let k2 = scan_tok_end(line, j2);
        if j1 >= line.len() || j2 >= line.len() {
            return Err(ParseErrorKind::MissingArguments);
        }
        let arg1 = match A1::try_parse(slice_subrange(line, j1, k1)) {
            Ok(a) => a,
            Err(e) => {
                return Err(e);
            },
        };
        let arg2 = match A2::try_parse(slice_subrange(line, j2, k2)) {
            Ok(a) => a,
            Err(e) => {
                return Err(e);
            },
        };
        Ok(Arg2 { arg1, arg2 })
    }
}

/// A parsed instruction together with the 1-based source line it came
/// from, kept for diagnostics.
#[derive(Debug)]
pub struct InstrLine<T> {
    /// The instruction payload.
    pub instr: T,
    /// The 1-based source line.
    pub line: usize,
}

impl<T> InstrLine<T> {
    /// Pair an instruction with its source line.
    pub fn new(instr: T, line: usize) -> (r: InstrLine<T>)
        ensures
            r.instr == instr,
            r.line == line,
    {
        InstrLine { instr, line }
    }

    /// The instruction payload.
    pub fn inner(&self) -> (r: &T)
        ensures
            r == &self.instr,
    {
        &self.instr
    }
}

/// One parsed instruction.
#[derive(Debug)]
pub enum Instruction {
    /// `ADD rX rY`.
    Add(InstrLine<Arg2<R8, R8>>),
    /// `ADDI rX imm8`.
    AddI(InstrLine<Arg2<R8, I8>>),
    /// `SYSCALL`.
    Syscall(InstrLine<Arg0>),
    /// `SV <name>`.
    Sv(InstrLine<Vec<u8>>),
    /// `UV`.
    Uv(InstrLine<Arg0>),
}

/// The abstract value of an [`Instruction`].
#[verifier::ext_equal]
pub enum InstructionModel {
    /// `ADD rX rY`.
    Add { line: usize, dst: R8Regs, src: R8Regs },
    /// `ADDI rX imm8`.
    AddI { line: usize, dst: R8Regs, imm: u8 },
    /// `SYSCALL`.
    Syscall { line: usize },
    /// `SV <name>`.
    Sv { line: usize, name: Seq<u8> },
    /// `UV`.
    Uv { line: usize },
}

impl View for Instruction {
    type V = InstructionModel;

    open spec fn view(&self) -> InstructionModel {
        match self {
            Instruction::Add(il) => InstructionModel::Add {
                line: il.line,
                dst: il.instr.arg1.register,
                src: il.instr.arg2.register,
            },
            Instruction::AddI(il) => InstructionModel::AddI {
                line: il.line,
                dst: il.instr.arg1.register,
                imm: il.instr.arg2.value,
            },
            Instruction::Syscall(il) => InstructionModel::Syscall { line: il.line },
            Instruction::Sv(il) => InstructionModel::Sv { line: il.line, name: il.instr@ },
            Instruction::Uv(il) => InstructionModel::Uv { line: il.line },
        }
    }
}

/// A declared variable: its name, its reserved size in bytes, and the
/// bytes it starts out holding, if any.
#[derive(Debug)]
pub struct Variable {
    /// The variable's name.
    pub name: Vec<u8>,
    /// The reserved size in bytes.
    pub size: u16,
    /// The initial bytes, if the declaration carries a value.
    pub bytes: Option<Vec<u8>>,
}

/// The abstract value of a [`Variable`].
#[verifier::ext_equal]
pub struct VariableModel {
    /// The variable's name.
    pub name: Seq<u8>,
    /// The reserved size in bytes.
    pub size: u16,
    /// The initial bytes, if any.
    pub bytes: Option<Seq<u8>>,
}

impl View for Variable {
    type V = VariableModel;

    open spec fn view(&self) -> VariableModel {
        VariableModel {
            name: self.name@,
            size: self.size,
            bytes: match self.bytes {
                Some(ref b) => Some(b@),
                None => None,
            },
        }
    }
}

/// The parsed form of a whole source file.
#[derive(Debug)]
pub struct ASTTree {
    /// The declared variables, in declaration order.
    pub variables: Vec<Variable>,
    /// The instructions, in source order.
    pub instructions: Vec<Instruction>,
}

/// The abstract value of an [`ASTTree`].
#[verifier::ext_equal]
pub struct ASTModel {
    /// The declared variables, in declaration order.
    pub variables: Seq<VariableModel>,
    /// The instructions, in source order.
    pub instructions: Seq<InstructionModel>,
}

impl View for ASTTree {
    type V = ASTModel;

    open spec fn view(&self) -> ASTModel {
        ASTModel {
            variables: Seq::new(self.variables@.len(), |i: int| self.variables@[i]@),
            instructions: Seq::new(self.instructions@.len(), |i: int| self.instructions@[i]@),
        }
    }
}

/// Fold a token to lower case.
fn lower_token(t: &[u8]) -> (r: Vec<u8>)
    ensures
        r@ == spec_lower(t@),
{
    let mut out: Vec<u8> = Vec::new();
    let n = t.len();
    let mut i: usize = 0;
    while i < n
        invariant
            i <= n,
            n == t@.len(),
            out@ =~= spec_lower(t@).take(i as int),
        decreases n - i,
    {
        let b = t[i];
        let low = if b >= 65 && b <= 90 {
            b + 32
        } else {
            b
        };
        out.push(low);
        proof {
            assert(out@ =~= spec_lower(t@).take(i + 1));
        }
        i = i + 1;
    }
    proof {
        assert(spec_lower(t@).take(n as int) =~= spec_lower(t@));
    }
    out
}

// ---------------------------------------------------------------------------
// Variable lines
// ---------------------------------------------------------------------------
/// The bytes of a string literal from index `i` up to its closing quote.
/// `\n` stands for a newline; a backslash before anything else stands for
/// itself. A literal that never closes is an error.
pub open spec fn spec_scan_string(v: Seq<u8>, i: int) -> Result<Seq<u8>, ParseErrorKind>
    decreases v.len() - i,
{
    if i < 0 || i >= v.len() {
        Err(ParseErrorKind::UnterminatedString)
    } else if v[i] == 34 {
        Ok(Seq::empty())
    } else if v[i] == 92 && i + 1 < v.len() && v[i + 1] == 110 {
        match spec_scan_string(v, i + 2) {
            Ok(rest) => Ok(seq![10u8] + rest),
            Err(e) => Err(e),
        }
    } else {
        match spec_scan_string(v, i + 1) {
            Ok(rest) => Ok(seq![v[i]] + rest),
            Err(e) => Err(e),
        }
    }
}

/// The bytes a variable value stands for: a double-quoted string literal;
/// anything else is rejected. Text after the closing quote is ignored.
pub open spec fn spec_parse_variable_value(value: Seq<u8>) -> Result<Seq<u8>, ParseErrorKind> {
    if value.len() == 0 || value[0] != 34 {
        Err(ParseErrorKind::NotAString)
    } else {
        spec_scan_string(value, 1)
    }
}

/// Parse a variable value: a double-quoted string literal in which `\n`
/// stands for a newline.
#[verifier::loop_isolation(false)]
pub fn parse_variable_value(value: &[u8]) -> (r: Result<Vec<u8>, ParseErrorKind>)
    ensures
        match r {
            Ok(b) => spec_parse_variable_value(value@) == Ok::<Seq<u8>, ParseErrorKind>(b@),
            Err(e) => spec_parse_variable_value(value@) == Err::<Seq<u8>, ParseErrorKind>(e),
        },
{
    if value.len() == 0 || value[0] != 34 {
        return Err(ParseErrorKind::NotAString);
    }
    let mut out: Vec<u8> = Vec::new();
    let mut idx: usize = 1;
    loop
        invariant
            1 <= idx,
            match spec_scan_string(value@, idx as int) {
                Ok(rest) => spec_scan_string(value@, 1) == Ok::<Seq<u8>, ParseErrorKind>(
                    out@ + rest,
                ),
                Err(e) => spec_scan_string(value@, 1) == Err::<Seq<u8>, ParseErrorKind>(e),
            },
        decreases value@.len() - idx,
    {
        if idx >= value.len() {
            return Err(ParseErrorKind::UnterminatedString);
        }
        let b = value[idx];
        if b == 34 {
            proof {
                assert(out@ + Seq::<u8>::empty() =~= out@);
            }
            return Ok(out);
        }
        if b == 92 && idx + 1 < value.len() && value[idx + 1] == 110 {
            let ghost out0 = out@;
            out.push(10);
            idx = idx + 2;
            proof {
                if let Ok(rest) = spec_scan_string(value@, idx as int) {
                    assert(out0 + (seq![10u8] + rest) =~= out@ + rest);
                }
            }
        } else {
            let ghost out0 = out@;
            out.push(b);
            idx = idx + 1;
            proof {
                if let Ok(rest) = spec_scan_string(value@, idx as int) {
                    assert(out0 + (seq![b] + rest) =~= out@ + rest);
                }
            }
        }
    }
}

/// The parse of a variable line `<name> <size> [<value>]`: the name and
/// size tokens must be present, the size must be a decimal `u16`, and the
/// value, when present, must be a string literal of exactly `size` bytes.
pub open spec fn spec_parse_variable_line(line: Seq<u8>) -> Result<VariableModel, ParseErrorKind> {
    let j0 = spec_ws_end(line, 0);
    let k0 = spec_tok_end(line, j0);
    let j1 = spec_ws_end(line, k0);
    let k1 = spec_tok_end(line, j1);
    if j0 >= line.len() || j1 >= line.len() {
        Err(ParseErrorKind::MissingVariableSize)
    } else {
        match spec_parse_u16(line.subrange(j1, k1)) {
            None => Err(ParseErrorKind::BadVariableSize),
            Some(size) => {
                let j2 = spec_ws_end(line, k1);
                if j2 >= line.len() {
                    Ok(VariableModel { name: line.subrange(j0, k0), size, bytes: None })
                } else {
                    match spec_parse_variable_value(line.subrange(j2, line.len() as int)) {
                        Ok(b) => if b.len() == size {
                            Ok(VariableModel { name: line.subrange(j0, k0), size, bytes: Some(b) })
                        } else {
                            Err(ParseErrorKind::InitSizeMismatch)
                        },
                        Err(e) => Err(e),
                    }
                }
            },
        }
    }
}

/// Parse one variable line.
pub fn parse_variable_line(line: &[u8]) -> (r: Result<Variable, ParseErrorKind>)
    ensures
        match r {
            Ok(v) => spec_parse_variable_line(line@) == Ok::<VariableModel, ParseErrorKind>(v@),
            Err(e) => spec_parse_variable_line(line@) == Err::<VariableModel, ParseErrorKind>(e),
        },
{
    let j0 = scan_ws_end(line, 0);
    let k0 = scan_tok_end(line, j0);
    let j1 = scan_ws_end(line, k0);
    let k1 = scan_tok_end(line, j1);
    if j0 >= line.len() || j1 >= line.len() {
        return Err(ParseErrorKind::MissingVariableSize);
    }
    let size = match parse_u16_token(slice_subrange(line, j1, k1)) {
        Some(v) => v,
        None => {
            return Err(ParseErrorKind::BadVariableSize);
        },
    };
    let name = slice_to_vec(slice_subrange(line, j0, k0));
    let j2 = scan_ws_end(line, k1);
    if j2 >= line.len() {
        return Ok(Variable { name, size, bytes: None });
    }
    let bytes = match parse_variable_value(slice_subrange(line, j2, line.len())) {
        Ok(b) => b,
        Err(e) => {
            return Err(e);
        },
    };
    if bytes.len() != size as usize {
        return Err(ParseErrorKind::InitSizeMismatch);
    }
    Ok(Variable { name, size, bytes: Some(bytes) })
}

// ---------------------------------------------------------------------------
// Instruction lines
// ---------------------------------------------------------------------------
/// Whether a folded mnemonic reads `add`.
pub open spec fn spec_is_add(t: Seq<u8>) -> bool {
    t.len() == 3 && t[0] == 97 && t[1] == 100 && t[2] == 100
}

/// Whether a folded mnemonic reads `addi`.
pub open spec fn spec_is_addi(t: Seq<u8>) -> bool {
    t.len() == 4 && t[0] == 97 && t[1] == 100 && t[2] == 100 && t[3] == 105
}

/// Whether a folded mnemonic reads `syscall`.
pub open spec fn spec_is_syscall(t: Seq<u8>) -> bool {
    t.len() == 7 && t[0] == 115 && t[1] == 121 && t[2] == 115 && t[3] == 99 && t[4] == 97 && t[5]
        == 108 && t[6] == 108
}

/// Whether a folded mnemonic reads `sv`.
pub open spec fn spec_is_sv(t: Seq<u8>) -> bool {
    t.len() == 2 && t[0] == 115 && t[1] == 118
}

/// Whether a folded mnemonic reads `uv`.
pub open spec fn spec_is_uv(t: Seq<u8>) -> bool {
    t.len() == 2 && t[0] == 117 && t[1] == 118
}

/// The parse of one instruction line at 1-based source line `idx`: a
/// case-insensitive mnemonic, then its operands.
pub open spec fn spec_parse_instruction_line(idx: usize, line: Seq<u8>) -> Result<
    InstructionModel,
    SourceError,
> {
    let j0 = spec_ws_end(line, 0);
    let k0 = spec_tok_end(line, j0);
    let mn = spec_lower(line.subrange(j0, k0));
    if j0 >= line.len() {
        Err(SourceError { line: idx, kind: ParseErrorKind::UnknownInstruction })
    } else if spec_is_add(mn) {
        match Arg2::<R8, R8>::spec_parse_line(line) {
            Ok(a) => Ok(
                InstructionModel::Add {
                    line: idx,
                    dst: a.arg1.register,
                    src: a.arg2.register,
                },
            ),
            Err(k) => Err(SourceError { line: idx, kind: k }),
        }
    } else if spec_is_addi(mn) {
        match Arg2::<R8, I8>::spec_parse_line(line) {
            Ok(a) => Ok(
                InstructionModel::AddI { line: idx, dst: a.arg1.register, imm: a.arg2.value },
            ),
            Err(k) => Err(SourceError { line: idx, kind: k }),
        }
    } else if spec_is_syscall(mn) {
        Ok(InstructionModel::Syscall { line: idx })
    } else if spec_is_uv(mn) {
        Ok(InstructionModel::Uv { line: idx })
    } else if spec_is_sv(mn) {
        let j1 = spec_ws_end(line, k0);
        let k1 = spec_tok_end(line, j1);
        if j1 >= line.len() {
            Err(SourceError { line: idx, kind: ParseErrorKind::MissingVariableName })
        } else {
            Ok(InstructionModel::Sv { line: idx, name: line.subrange(j1, k1) })
        }
    } else {
        Err(SourceError { line: idx, kind: ParseErrorKind::UnknownInstruction })
    }
}

/// Parse one instruction line at 1-based source line `idx`.
pub fn parse_instruction_line(idx: usize, line: &[u8]) -> (r: Result<Instruction, SourceError>)
    ensures
        match r {
            Ok(instr) => spec_parse_instruction_line(idx, line@) == Ok::<
                InstructionModel,
                SourceError,
            >(instr@),
            Err(e) => spec_parse_instruction_line(idx, line@) == Err::<
                InstructionModel,
                SourceError,
            >(e),
        },
{
    let j0 = scan_ws_end(line, 0);
    let k0 = scan_tok_end(line, j0);
    if j0 >= line.len() {
        return Err(SourceError { line: idx, kind: ParseErrorKind::UnknownInstruction });
    }
    let mn = lower_token(slice_subrange(line, j0, k0));
    if mn.len() == 3 && mn[0] == 97 && mn[1] == 100 && mn[2] == 100 {
        match Arg2::<R8, R8>::try_parse(line) {
            Ok(a) => Ok(Instruction::Add(InstrLine::new(a, idx))),
            Err(k) => Err(SourceError { line: idx, kind: k }),
        }
    } else if mn.len() == 4 && mn[0] == 97 && mn[1] == 100 && mn[2] == 100 && mn[3] == 105 {
        match Arg2::<R8, I8>::try_parse(line) {
            Ok(a) => Ok(Instruction::AddI(InstrLine::new(a, idx))),
            Err(k) => Err(SourceError { line: idx, kind: k }),
        }
    } else if mn.len() == 7 && mn[0] == 115 && mn[1] == 121 && mn[2] == 115 && mn[3] == 99
        && mn[4] == 97 && mn[5] == 108 && mn[6] == 108 {
        Ok(Instruction::Syscall(InstrLine::new(Arg0 {  }, idx)))
    } else if mn.len() == 2 && mn[0] == 117 && mn[1] == 118 {
        Ok(Instruction::Uv(InstrLine::new(Arg0 {  }, idx)))
    } else if mn.len() == 2 && mn[0] == 115 && mn[1] == 118 {
        let j1 = scan_ws_end(line, k0);
        let k1 = scan_tok_end(line, j1);
        if j1 >= line.len() {
            return Err(SourceError { line: idx, kind: ParseErrorKind::MissingVariableName });
        }
        let name = slice_to_vec(slice_subrange(line, j1, k1));
        Ok(Instruction::Sv(InstrLine::new(name, idx)))
    } else {
        Err(SourceError { line: idx, kind: ParseErrorKind::UnknownInstruction })
    }
}

// ---------------------------------------------------------------------------
// Whole-source parsing
// ---------------------------------------------------------------------------
/// Whether a line is a region marker: its first three characters are `---`.
pub open spec fn spec_line_marker(line: Seq<u8>) -> bool {
    line.len() >= 3 && line[0] == 45 && line[1] == 45 && line[2] == 45
}

/// Whether a line is skipped in both regions: blank, or its first
/// non-blank character is `#`.
pub open spec fn spec_line_skipped(line: Seq<u8>) -> bool {
    let j = spec_ws_end(line, 0);
    j >= line.len() || line[j] == 35
}

/// Whether any line at or after byte index `i` is a region marker.
pub open spec fn spec_has_marker(src: Seq<u8>, i: int) -> bool
    decreases src.len() + 1 - i,
        via spec_has_marker_decreases
{
    if i < 0 || i >= src.len() {
        false
    } else {
        let e = spec_line_end(src, i);
        spec_line_marker(src.subrange(i, e)) || spec_has_marker(src, e + 1)
    }
}

#[via_fn]
proof fn spec_has_marker_decreases(src: Seq<u8>, i: int) {
    if 0 <= i < src.len() {
        lemma_scan_ranges(src, i);
    }
}

/// The variable declarations of the source from byte index `i` on:
/// nothing before the first marker line, the declarations between the
/// first and the second, nothing after. `lineno` is the 1-based number of
/// the line starting at `i`; `region` is 0 before the first marker and 1
/// inside the variable region.
pub open spec fn spec_parse_variables_from(
    src: Seq<u8>,
    i: int,
    lineno: usize,
    region: u8,
    acc: Seq<VariableModel>,
) -> Result<Seq<VariableModel>, SourceError>
    decreases src.len() + 1 - i,
        via spec_parse_variables_decreases
{
    if i < 0 || i >= src.len() || lineno == usize::MAX {
        Ok(acc)
    } else {
        let e = spec_line_end(src, i);
        let line = src.subrange(i, e);
        let next = (lineno + 1) as usize;
        if spec_line_marker(line) {
            if region == 0 {
                spec_parse_variables_from(src, e + 1, next, 1, acc)
            } else {
                Ok(acc)
            }
        } else if region == 0 || spec_line_skipped(line) {
            spec_parse_variables_from(src, e + 1, next, region, acc)
        } else {
            match spec_parse_variable_line(line) {
                Ok(v) => spec_parse_variables_from(src, e + 1, next, region, acc.push(v)),
                Err(k) => Err(SourceError { line: lineno, kind: k }),
            }
        }
    }
}

#[via_fn]
proof fn spec_parse_variables_decreases(
    src: Seq<u8>,
    i: int,
    lineno: usize,
    region: u8,
    acc: Seq<VariableModel>,
) {
    if 0 <= i < src.len() {
        lemma_scan_ranges(src, i);
    }
}

/// The instructions of the source from byte index `i` on. `region` is 2
/// inside the instruction region; a source without any marker line starts
/// there, one with markers reaches it at the second marker. A marker line
/// inside the instruction region is parsed as an instruction and rejected.
pub open spec fn spec_parse_instructions_from(
    src: Seq<u8>,
    i: int,
    lineno: usize,
    region: u8,
    acc: Seq<InstructionModel>,
) -> Result<Seq<InstructionModel>, SourceError>
    decreases src.len() + 1 - i,
        via spec_parse_instructions_decreases
{
    if i < 0 || i >= src.len() || lineno == usize::MAX {
        Ok(acc)
    } else {
        let e = spec_line_end(src, i);
        let line = src.subrange(i, e);
        let next = (lineno + 1) as usize;
        if region != 2 && spec_line_marker(line) {
            let region2: u8 = if region == 0 {
                1
            } else {
                2
            };
            spec_parse_instructions_from(src, e + 1, next, region2, acc)
        } else if region != 2 {
            spec_parse_instructions_from(src, e + 1, next, region, acc)
        } else if spec_line_skipped(line) {
            spec_parse_instructions_from(src, e + 1, next, region, acc)
        } else {
            match spec_parse_instruction_line(lineno, line) {
                Ok(instr) => spec_parse_instructions_from(src, e + 1, next, region, acc.push(instr)),
                Err(err) => Err(err),
            }
        }
    }
}

#[via_fn]
proof fn spec_parse_instructions_decreases(
    src: Seq<u8>,
    i: int,
    lineno: usize,
    region: u8,
    acc: Seq<InstructionModel>,
) {
    if 0 <= i < src.len() {
        lemma_scan_ranges(src, i);
    }
}

/// The parse of a whole source file: its variable declarations, then its
/// instructions. Without any marker line the whole file is instructions;
/// a variable error is reported before any instruction error.
pub open spec fn spec_parse_source(src: Seq<u8>) -> Result<ASTModel, SourceError> {
    match spec_parse_variables_from(src, 0, 1, 0, Seq::empty()) {
        Err(e) => Err(e),
        Ok(variables) => {
            let start_region: u8 = if spec_has_marker(src, 0) {
                0
            } else {
                2
            };
            match spec_parse_instructions_from(src, 0, 1, start_region, Seq::empty()) {
                Err(e) => Err(e),
                Ok(instructions) => Ok(ASTModel { variables, instructions }),
            }
        },
    }
}

/// Parse the variable region: the declarations between the first and the
/// second marker line.
#[verifier::loop_isolation(false)]
pub fn parse_variables(src: &[u8]) -> (r: Result<Vec<Variable>, SourceError>)
    requires
        src@.len() < usize::MAX,
    ensures
        match r {
            Ok(vars) => spec_parse_variables_from(src@, 0, 1, 0, Seq::empty()) == Ok::<
                Seq<VariableModel>,
                SourceError,
            >(Seq::new(vars@.len(), |i: int| vars@[i]@)),
            Err(e) => spec_parse_variables_from(src@, 0, 1, 0, Seq::empty()) == Err::<
                Seq<VariableModel>,
                SourceError,
            >(e),
        },
{
    let mut vars: Vec<Variable> = Vec::new();
    let mut i: usize = 0;
    let mut lineno: usize = 1;
    let mut region: u8 = 0;
    proof {
        assert(Seq::new(vars@.len(), |k: int| vars@[k]@) =~= Seq::<VariableModel>::empty());
    }
    loop
        invariant
            i <= src@.len() + 1,
            region == 0 || region == 1,
            spec_parse_variables_from(src@, 0, 1, 0, Seq::empty()) == spec_parse_variables_from(
                src@,
                i as int,
                lineno,
                region,
                Seq::new(vars@.len(), |k: int| vars@[k]@),
            ),
        decreases src@.len() + 1 - i,
    {
        let ghost acc = Seq::new(vars@.len(), |k: int| vars@[k]@);
        if i >= src.len() || lineno == usize::MAX {
            return Ok(vars);
        }
        let e = scan_line_end(src, i);
        let line = slice_subrange(src, i, e);
        let marker = line.len() >= 3 && line[0] == 45 && line[1] == 45 && line[2] == 45;
        if marker {
            if region == 0 {
                region = 1;
            } else {
                return Ok(vars);
            }
        } else if region == 1 {
            let j = scan_ws_end(line, 0);
            let skipped = j >= line.len() || line[j] == 35;
            if !skipped {
                match parse_variable_line(line) {
                    Ok(v) => {
                        vars.push(v);
                        proof {
                            assert(Seq::new(vars@.len(), |k: int| vars@[k]@) =~= acc.push(v@));
                        }
                    },
                    Err(k) => {
                        return Err(SourceError { line: lineno, kind: k });
                    },
                }
            }
        }
        i = e + 1;
        lineno = lineno + 1;
    }
}

/// Parse a whole source file, given as bytes: the variable declarations,
/// then the instructions.
#[verifier::loop_isolation(false)]
pub fn parse_source_bytes(src: &[u8]) -> (r: Result<ASTTree, SourceError>)
    requires
        src@.len() < usize::MAX,
    ensures
        match r {
            Ok(tree) => spec_parse_source(src@) == Ok::<ASTModel, SourceError>(tree@),
            Err(e) => spec_parse_source(src@) == Err::<ASTModel, SourceError>(e),
        },
{
    let variables = match parse_variables(src) {
        Ok(vars) => vars,
        Err(e) => {
            return Err(e);
        },
    };
    // Find out whether any marker line exists: without one, the whole
    // file is the instruction region.
    let mut has_marker = false;
    let mut i: usize = 0;
    while i < src.len()
        invariant
            i <= src@.len() + 1,
            has_marker ==> spec_has_marker(src@, 0),
            !has_marker ==> spec_has_marker(src@, 0) == spec_has_marker(src@, i as int),
        decreases src@.len() + 1 - i,
    {
        let e = scan_line_end(src, i);
        let line = slice_subrange(src, i, e);
        if line.len() >= 3 && line[0] == 45 && line[1] == 45 && line[2] == 45 {
            has_marker = true;
            break;
        }
        i = e + 1;
    }
    let start_region: u8 = if has_marker {
        0
    } else {
        2
    };
    let mut instructions: Vec<Instruction> = Vec::new();
    let mut j: usize = 0;
    let mut lineno: usize = 1;
    let mut region: u8 = start_region;
    proof {
        assert(Seq::new(instructions@.len(), |k: int| instructions@[k]@)
            =~= Seq::<InstructionModel>::empty());
    }
    loop
        invariant
            j <= src@.len() + 1,
            region == 0 || region == 1 || region == 2,
            spec_parse_instructions_from(src@, 0, 1, start_region, Seq::empty())
                == spec_parse_instructions_from(
                src@,
                j as int,
                lineno,
                region,
                Seq::new(instructions@.len(), |k: int| instructions@[k]@),
            ),
        decreases src@.len() + 1 - j,
    {
        let ghost acc = Seq::new(instructions@.len(), |k: int| instructions@[k]@);
        if j >= src.len() || lineno == usize::MAX {
            break;
        }
        let e = scan_line_end(src, j);
        let line = slice_subrange(src, j, e);
        let marker = line.len() >= 3 && line[0] == 45 && line[1] == 45 && line[2] == 45;
        if region != 2 {
            if marker {
                region = if region == 0 {
                    1
                } else {
                    2
                };
            }
        } else {
            let k = scan_ws_end(line, 0);
            let skipped = k >= line.len() || line[k] == 35;
            if !skipped {
                match parse_instruction_line(lineno, line) {
                    Ok(instr) => {
                        instructions.push(instr);
                        proof {
                            assert(Seq::new(instructions@.len(), |k: int| instructions@[k]@)
                                =~= acc.push(instr@));
                        }
                    },
                    Err(err) => {
                        return Err(err);
                    },
                }
            }
        }
        j = e + 1;
        lineno = lineno + 1;
    }
    Ok(ASTTree { variables, instructions })
}

/// Parse a whole source file: the variable declarations, then the
/// instructions.
pub fn parse_source(source: &str) -> (r: Result<ASTTree, SourceError>)
    requires
        source.spec_bytes().len() < usize::MAX,
    ensures
        match r {
            Ok(tree) => spec_parse_source(source.spec_bytes()) == Ok::<ASTModel, SourceError>(
                tree@,
            ),
            Err(e) => spec_parse_source(source.spec_bytes()) == Err::<ASTModel, SourceError>(e),
        },
{
    parse_source_bytes(source.as_bytes())
}

} // verus!
