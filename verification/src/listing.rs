//! Decoding a whole program, instruction after instruction.

use vstd::prelude::*;
use crate::decode::{decode_at, decode_next};
use crate::error::DecodeError;
use crate::instruction::DecodedInstruction;
use crate::render::instruction_text;
use crate::stream::InstructionByteStream;

verus! {

/// What decoding a program gave: the instructions up to the end of the
/// buffer or to the first one that failed, each with its line of text,
/// and the failure if there was one.
pub struct Disassembly {
    pub instructions: Vec<DecodedInstruction>,
    pub lines: Vec<String>,
    pub error: Option<DecodeError>,
}

/// The instructions of `bytes` from index `start` on, in order, up to the
/// end of the buffer or to the first one that cannot be decoded, and the
/// error of that one.
pub open spec fn decode_all(bytes: Seq<u8>, start: int) -> (Seq<DecodedInstruction>, Option<
    DecodeError,
>)
    decreases bytes.len() - start,
{
    if start >= bytes.len() {
        (Seq::empty(), None)
    } else {
        match decode_at(bytes, start) {
            Err(error) => (Seq::empty(), Some(error)),
            Ok((instruction, next)) => {
                let rest = decode_all(bytes, next);
                (seq![instruction] + rest.0, rest.1)
            },
        }
    }
}

/// The two lines that open a listing: a comment that names the input,
/// and the directive that declares 16-bit code.
pub fn header_lines(input: &str) -> (lines: Vec<String>)
    ensures
        lines@.len() == 2,
        lines@[0]@ == "; "@ + input@,
        lines@[1]@ == "bits 16"@,
{
    let mut comment: String = String::from_str("; ");
    comment.append(input);
    let mut lines: Vec<String> = Vec::new();
    lines.push(comment);
    lines.push(String::from_str("bits 16"));
    lines
}

/// Decodes `bytes` from the first byte to the last, or to the first
/// instruction that fails. Nothing of a failed instruction is rendered;
/// the lines before it stand.
pub fn disassemble(bytes: Vec<u8>) -> (result: Disassembly)
    ensures
        result.instructions@ == decode_all(bytes@, 0).0,
        result.error == decode_all(bytes@, 0).1,
        result.lines@.len() == result.instructions@.len(),
        forall|i: int|
            0 <= i < result.lines@.len() ==> (#[trigger] result.lines@[i])@ == instruction_text(
                result.instructions@[i],
            ),
{
    let ghost content: Seq<u8> = bytes@;
    let mut stream: InstructionByteStream = InstructionByteStream::new(bytes);
    let mut instructions: Vec<DecodedInstruction> = Vec::new();
    let mut lines: Vec<String> = Vec::new();
    let mut error: Option<DecodeError> = None;
    while error.is_none() && stream.has_more()
        invariant
            stream.content() == content,
            0 <= stream.cursor() <= content.len(),
            lines@.len() == instructions@.len(),
            forall|i: int|
                0 <= i < lines@.len() ==> (#[trigger] lines@[i])@ == instruction_text(
                    instructions@[i],
                ),
            error is None ==> decode_all(content, 0).0 == instructions@ + decode_all(
                content,
                stream.cursor(),
            ).0,
            error is None ==> decode_all(content, 0).1 == decode_all(content, stream.cursor()).1,
            error is Some ==> decode_all(content, 0) == (instructions@, error),
        decreases
            (if error is None { 1int } else { 0int }),
            content.len() - stream.cursor(),
    {
        let ghost before: Seq<DecodedInstruction> = instructions@;
        let ghost start: int = stream.cursor();
        match decode_next(&mut stream) {
            Ok(instruction) => {
                lines.push(instruction.render());
                instructions.push(instruction);
                proof {
                    let rest = decode_all(content, stream.cursor());
                    assert(decode_all(content, start).0 == seq![instruction] + rest.0);
                    assert(before + (seq![instruction] + rest.0) =~= instructions@ + rest.0);
                }
            },
            Err(failure) => {
                error = Some(failure);
                proof {
                    assert(before + Seq::<DecodedInstruction>::empty() =~= before);
                }
            },
        }
    }
    proof {
        if error is None {
            assert(instructions@ + Seq::<DecodedInstruction>::empty() =~= instructions@);
        }
    }
    Disassembly { instructions, lines, error }
}

} // verus!
