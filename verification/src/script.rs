//! The script primitives that the redeem script codec is written in: data
//! pushes, number pushes and single opcodes, as the `bitcoin` crate encodes and
//! decodes them.

use bitcoin::blockdata::script::{Builder, PushBytes, Script, ScriptBuf};
use vstd::prelude::*;
use vstd::slice::slice_subrange;

verus! {

/// The opcode that checks a quorum of signatures against a list of public keys.
pub const OP_CHECKMULTISIG: u8 = 0xae;

/// One element of a script, as a mathematical value.
pub enum Token {
    /// A data push with its payload.
    Push(Seq<u8>),
    /// Any opcode that is not a data push.
    Op(u8),
    /// A data push that runs past the end of the script.
    Invalid,
}

/// One element of a script.
#[derive(Debug, Clone, PartialEq, Eq)]
pub enum Instruction {
    /// A data push with its payload.
    PushBytes(Vec<u8>),
    /// Any opcode that is not a data push.
    Op(u8),
    /// A data push that runs past the end of the script.
    Invalid,
}

impl View for Instruction {
    type V = Token;

    open spec fn view(&self) -> Token {
        match self {
            Instruction::PushBytes(data) => Token::Push(data@),
            Instruction::Op(op) => Token::Op(*op),
            Instruction::Invalid => Token::Invalid,
        }
    }
}

/// The tokens that a sequence of instructions stands for.
pub open spec fn tokens_of(instructions: Seq<Instruction>) -> Seq<Token> {
    instructions.map_values(|i: Instruction| i@)
}

/// The value of `bytes` read as a little-endian unsigned number.
pub open spec fn le_value(bytes: Seq<u8>) -> nat
    decreases bytes.len(),
{
    if bytes.len() == 0 {
        0
    } else {
        bytes[0] as nat + 256 * le_value(bytes.skip(1))
    }
}

/// The bytes of a data push of at most 75 bytes: the length in one byte, then the payload.
pub open spec fn push_slice_bytes(data: Seq<u8>) -> Seq<u8>
    recommends
        data.len() < 0x4c,
{
    seq![data.len() as u8] + data
}

/// The shortest little-endian sign-and-magnitude form of a positive number: a
/// zero byte follows where the top bit of the last magnitude byte is set.
pub open spec fn script_num_bytes(n: nat) -> Seq<u8>
    decreases n,
{
    if n == 0 {
        seq![]
    } else if n < 0x80 {
        seq![n as u8]
    } else if n < 0x100 {
        seq![n as u8, 0u8]
    } else {
        seq![(n % 0x100) as u8] + script_num_bytes(n / 0x100)
    }
}

/// The bytes that push the number `n`: a dedicated opcode for 0 to 16, a data
/// push of the number's shortest form above that.
pub open spec fn push_int_bytes(n: nat) -> Seq<u8> {
    if n == 0 {
        seq![0u8]
    } else if n <= 16 {
        seq![(0x50 + n) as u8]
    } else {
        push_slice_bytes(script_num_bytes(n))
    }
}

/// The data push whose payload of `len` bytes starts at `start`, with the
/// position behind it; `Invalid` and the script's end where the payload does not fit.
pub open spec fn push_at(script: Seq<u8>, start: int, len: nat) -> (Token, nat) {
    if start + len <= script.len() {
        (Token::Push(script.subrange(start, start + len)), (start + len) as nat)
    } else {
        (Token::Invalid, script.len())
    }
}

/// The first element of a script that is not empty, and the number of bytes
/// that it takes. A first byte up to `0x4b` pushes that many bytes. The bytes
/// `0x4c`, `0x4d` and `0x4e` push as many bytes as the next one, two or four
/// bytes say, read as a little-endian number. Any other byte is an opcode of
/// its own.
pub open spec fn first_instruction(script: Seq<u8>) -> (Token, nat)
    recommends
        script.len() > 0,
{
    let op = script[0];
    if op <= 0x4b {
        push_at(script, 1, op as nat)
    } else if op <= 0x4e {
        let width: int = if op == 0x4c { 1 } else if op == 0x4d { 2 } else { 4 };
        if script.len() < 1 + width {
            (Token::Invalid, script.len())
        } else {
            push_at(script, 1 + width, le_value(script.subrange(1, 1 + width)))
        }
    } else {
        (Token::Op(op), 1)
    }
}

/// All the elements of a script, in order. Nothing follows an `Invalid` element.
pub open spec fn script_instructions(script: Seq<u8>) -> Seq<Token>
    decreases script.len(),
{
    if script.len() == 0 {
        seq![]
    } else {
        let (token, used) = first_instruction(script);
        if 0 < used <= script.len() {
            seq![token] + script_instructions(script.skip(used as int))
        } else {
            seq![token]
        }
    }
}

/// The number that a number opcode pushes: -1, or 1 to 16.
pub open spec fn push_num_of(op: u8) -> Option<i32> {
    if op == 0x4f {
        Some(-1i32)
    } else if 0x51 <= op <= 0x60 {
        Some((op - 0x50) as i32)
    } else {
        None
    }
}

/// The number that a data push of at most eight bytes holds, read as little-endian and unsigned.
pub open spec fn uint_of(data: Seq<u8>) -> Option<nat> {
    if data.len() <= 8 {
        Some(le_value(data))
    } else {
        None
    }
}

/// Calls `Builder::push_int` on the script. For a number from 0 up the
/// builder appends `push_int_bytes`: one opcode for 0 to 16, else a data push
/// of the number in its shortest form, which takes at most eight bytes.
#[verifier::external_body]
pub(crate) fn push_int(script: &mut Vec<u8>, n: i64)
    requires
        n >= 0,
    ensures
        final(script)@ == old(script)@ + push_int_bytes(n as nat),
{
    *script = Builder::from(std::mem::take(script)).push_int(n).into_bytes();
}

/// Calls `ScriptBuf::push_slice` on the script. For a payload of at most 75
/// bytes it appends the length in one byte and the payload.
#[verifier::external_body]
pub(crate) fn push_slice(script: &mut Vec<u8>, data: &[u8])
    requires
        data@.len() < 0x4c,
    ensures
        final(script)@ == old(script)@ + push_slice_bytes(data@),
{
    let mut buf = ScriptBuf::from_bytes(std::mem::take(script));
    buf.push_slice(<&PushBytes>::try_from(data).unwrap());
    *script = buf.into_bytes();
}

/// Appends a single opcode to the script.
pub fn push_opcode(script: &mut Vec<u8>, op: u8)
    ensures
        final(script)@ == old(script)@.push(op),
{
    script.push(op);
}

/// Calls `Instructions::next` on the script's instruction iterator (the one
/// that accepts pushes that are not minimal). It returns the first element
/// with the number of bytes left behind it, nothing for an empty script, and
/// `Invalid` with nothing left for a push that runs past the end.
#[verifier::external_body]
pub(crate) fn next_instruction(script: &[u8]) -> (r: Option<(Instruction, usize)>)
    ensures
        r is None <==> script@.len() == 0,
        r matches Some((instruction, left)) ==> {
            &&& instruction@ == first_instruction(script@).0
            &&& left + first_instruction(script@).1 == script@.len()
        },
{
    let mut rest = Script::from_bytes(script).instructions();
    match rest.next() {
        None => None,
        Some(Ok(bitcoin::blockdata::script::Instruction::PushBytes(data))) => {
            Some((Instruction::PushBytes(data.as_bytes().to_vec()), rest.as_script().len()))
        },
        Some(Ok(bitcoin::blockdata::script::Instruction::Op(op))) => {
            Some((Instruction::Op(op.to_u8()), rest.as_script().len()))
        },
        Some(Err(_)) => Some((Instruction::Invalid, rest.as_script().len())),
    }
}

/// The number that a number opcode pushes: -1 for `0x4f`, 1 to 16 for `0x51`
/// to `0x60`, nothing for any other opcode.
pub fn opcode_push_num(op: u8) -> (r: Option<i32>)
    ensures
        r == push_num_of(op),
{
    if op == 0x4f {
        Some(-1)
    } else if 0x51 <= op && op <= 0x60 {
        Some((op - 0x50) as i32)
    } else {
        None
    }
}

/// Every element takes at least one byte and none reaches past the script's end.
proof fn lemma_first_instruction_bounds(script: Seq<u8>)
    requires
        script.len() > 0,
    ensures
        0 < first_instruction(script).1 <= script.len(),
{
}

/// Splits a script into its elements.
pub fn instructions(script: &[u8]) -> (r: Vec<Instruction>)
    ensures
        tokens_of(r@) == script_instructions(script@),
{
    let mut result: Vec<Instruction> = Vec::new();
    let mut pos: usize = 0;
    proof {
        assert(script@.skip(0) == script@);
        assert(tokens_of(result@) + script_instructions(script@) == script_instructions(script@));
    }
    while pos < script.len()
        invariant
            pos <= script@.len(),
            script_instructions(script@) == tokens_of(result@) + script_instructions(
                script@.skip(pos as int),
            ),
        decreases script@.len() - pos,
    {
        let rest = slice_subrange(script, pos, script.len());
        proof {
            assert(rest@ == script@.skip(pos as int));
            lemma_first_instruction_bounds(rest@);
        }
        match next_instruction(rest) {
            Some((instruction, left)) => {
                let ghost used = first_instruction(rest@).1;
                let ghost before = result@;
                proof {
                    assert(script@.skip(pos as int).skip(used as int) == script@.skip(
                        pos + used,
                    ));
                }
                result.push(instruction);
                proof {
                    assert(tokens_of(result@) == tokens_of(before) + seq![instruction@]);
                }
                pos = script.len() - left;
            },
            None => {
                pos = script.len();
            },
        }
    }
    proof {
        assert(script@.skip(pos as int).len() == 0);
        assert(tokens_of(result@) + Seq::<Token>::empty() == tokens_of(result@));
    }
    result
}

/// A short data push at the head of a script is read back as that push, and
/// the rest of the script is read behind it.
pub(crate) proof fn lemma_instructions_after_push(data: Seq<u8>, rest: Seq<u8>)
    requires
        data.len() < 0x4c,
    ensures
        script_instructions(push_slice_bytes(data) + rest) == seq![Token::Push(data)]
            + script_instructions(rest),
{
    let script = push_slice_bytes(data) + rest;
    assert(script[0] == data.len() as u8);
    assert(script.subrange(1, 1 + data.len() as int) =~= data);
    assert(script.skip(1 + data.len() as int) =~= rest);
}

/// An opcode above the data pushes at the head of a script is read back as
/// that opcode, and the rest of the script is read behind it.
pub(crate) proof fn lemma_instructions_after_opcode(op: u8, rest: Seq<u8>)
    requires
        op > 0x4e,
    ensures
        script_instructions(seq![op] + rest) == seq![Token::Op(op)] + script_instructions(rest),
{
    let script = seq![op] + rest;
    assert(script[0] == op);
    assert(script.skip(1) =~= rest);
}

/// The element that a count from 1 to 127 is pushed as: a number opcode up to
/// 16, a data push of one byte above.
pub open spec fn count_token(n: nat) -> Token {
    if n <= 16 {
        Token::Op((0x50 + n) as u8)
    } else {
        Token::Push(seq![n as u8])
    }
}

/// A count from 1 to 127 at the head of a script is read back as one element,
/// and the rest of the script is read behind it.
pub(crate) proof fn lemma_instructions_after_count(n: nat, rest: Seq<u8>)
    requires
        1 <= n <= 127,
    ensures
        script_instructions(push_int_bytes(n) + rest) == seq![count_token(n)] + script_instructions(
            rest,
        ),
{
    if n <= 16 {
        lemma_instructions_after_opcode((0x50 + n) as u8, rest);
    } else {
        assert(script_num_bytes(n) == seq![n as u8]);
        lemma_instructions_after_push(seq![n as u8], rest);
    }
}

/// 256 to the power of `k`.
spec fn pow256(k: nat) -> nat
    decreases k,
{
    if k == 0 {
        1
    } else {
        256 * pow256((k - 1) as nat)
    }
}

/// Reads a data push of at most eight bytes as a little-endian unsigned number.
pub fn read_uint(data: &[u8]) -> (r: Option<u64>)
    ensures
        match r {
            Some(value) => uint_of(data@) == Some(value as nat),
            None => uint_of(data@) is None,
        },
{
    if data.len() > 8 {
        return None;
    }
    let mut value: u64 = 0;
    let mut i: usize = data.len();
    proof {
        assert(data@.skip(i as int).len() == 0);
    }
    while i > 0
        invariant
            i <= data@.len() <= 8,
            value == le_value(data@.skip(i as int)),
            value < pow256((data@.len() - i) as nat),
        decreases i,
    {
        i = i - 1;
        proof {
            let tail = data@.skip(i as int);
            assert(tail.skip(1) == data@.skip(i + 1));
            assert(tail[0] == data@[i as int]);
            assert(pow256((data@.len() - i) as nat) == 256 * pow256((data@.len() - i - 1) as nat));
            lemma_pow256_monotonic((data@.len() - i) as nat, 8);
            lemma_pow256_8();
        }
        value = value * 256 + data[i] as u64;
    }
    proof {
        assert(data@.skip(0) == data@);
    }
    Some(value)
}

/// 256 to the power of 8 is 2 to the power of 64.
proof fn lemma_pow256_8()
    ensures
        pow256(8) == 0x1_0000_0000_0000_0000,
{
    reveal_with_fuel(pow256, 9);
}

/// `pow256` grows with its argument.
proof fn lemma_pow256_monotonic(a: nat, b: nat)
    requires
        a <= b,
    ensures
        pow256(a) <= pow256(b),
        pow256(a) > 0,
    decreases b,
{
    if a < b {
        lemma_pow256_monotonic(a, (b - 1) as nat);
    } else if a > 0 {
        lemma_pow256_monotonic((a - 1) as nat, (a - 1) as nat);
    }
}

} // verus!
