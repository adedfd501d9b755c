//! Commands of the device protocol and their printed wire forms.
//!
//! A structured command goes out as one CRLF-terminated JSON line
//! `{"COMMAND":"<verb>","PARAMETERS":[<p0>,...]}`; a text command goes out as
//! the bare verb followed by a newline.

use vstd::prelude::*;

use crate::wire::spec_decimal;

verus! {

/// Verbs of the structured (JSON lines) command protocol.
#[derive(Clone, Copy, Debug, PartialEq, Eq, Structural)]
pub enum CommandVerb {
    Nop,
    Wreg,
    Rdatac,
    Sdatac,
    Start,
    Stop,
    Messagepack,
    BoardLedOn,
    BoardLedOff,
}

/// ASCII bytes of a verb as the firmware expects it.
pub open spec fn verb_bytes(v: CommandVerb) -> Seq<u8> {
    match v {
        CommandVerb::Nop => seq![110u8, 111u8, 112u8],  // nop
        CommandVerb::Wreg => seq![119u8, 114u8, 101u8, 103u8],  // wreg
        CommandVerb::Rdatac => seq![114u8, 100u8, 97u8, 116u8, 97u8, 99u8],  // rdatac
        CommandVerb::Sdatac => seq![115u8, 100u8, 97u8, 116u8, 97u8, 99u8],  // sdatac
        CommandVerb::Start => seq![115u8, 116u8, 97u8, 114u8, 116u8],  // start
        CommandVerb::Stop => seq![115u8, 116u8, 111u8, 112u8],  // stop
        CommandVerb::Messagepack => seq![
            109u8, 101u8, 115u8, 115u8, 97u8, 103u8, 101u8, 112u8, 97u8, 99u8, 107u8,
        ],  // messagepack
        CommandVerb::BoardLedOn => seq![
            98u8, 111u8, 97u8, 114u8, 100u8, 108u8, 101u8, 100u8, 111u8, 110u8,
        ],  // boardledon
        CommandVerb::BoardLedOff => seq![
            98u8, 111u8, 97u8, 114u8, 100u8, 108u8, 101u8, 100u8, 111u8, 102u8, 102u8,
        ],  // boardledoff
    }
}

/// Bare text lines understood by the firmware in any mode.
#[derive(Clone, Copy, Debug, PartialEq, Eq, Structural)]
pub enum TextWord {
    Jsonlines,
    Messagepack,
}

/// ASCII bytes of a text word.
pub open spec fn word_bytes(w: TextWord) -> Seq<u8> {
    match w {
        TextWord::Jsonlines => seq![
            106u8, 115u8, 111u8, 110u8, 108u8, 105u8, 110u8, 101u8, 115u8,
        ],  // jsonlines
        TextWord::Messagepack => seq![
            109u8, 101u8, 115u8, 115u8, 97u8, 103u8, 101u8, 112u8, 97u8, 99u8, 107u8,
        ],  // messagepack
    }
}

// ---------------------------------------------------------------------------
// Printed command forms
// ---------------------------------------------------------------------------

pub open spec fn cmd_pre() -> Seq<u8> {
    // {"COMMAND":"
    seq![123u8, 34u8, 67u8, 79u8, 77u8, 77u8, 65u8, 78u8, 68u8, 34u8, 58u8, 34u8]
}

pub open spec fn cmd_mid() -> Seq<u8> {
    // ","PARAMETERS":[
    seq![
        34u8, 44u8, 34u8, 80u8, 65u8, 82u8, 65u8, 77u8, 69u8, 84u8, 69u8, 82u8, 83u8, 34u8, 58u8,
        91u8,
    ]
}

/// Comma-separated canonical decimals of the parameters.
pub open spec fn spec_params_bytes(ps: Seq<u8>) -> Seq<u8>
    decreases ps.len(),
{
    if ps.len() == 0 {
        Seq::empty()
    } else if ps.len() == 1 {
        spec_decimal(ps[0] as int)
    } else {
        spec_params_bytes(ps.drop_last()) + seq![44u8] + spec_decimal(ps.last() as int)
    }
}

/// The JSON command object, without the line terminator.
pub open spec fn spec_json_cmd(verb: Seq<u8>, ps: Seq<u8>) -> Seq<u8> {
    cmd_pre() + verb + cmd_mid() + spec_params_bytes(ps) + seq![93u8, 125u8]
}

/// The JSON command object followed by CRLF, as written to the wire.
pub open spec fn spec_json_cmd_line(verb: Seq<u8>, ps: Seq<u8>) -> Seq<u8> {
    spec_json_cmd(verb, ps) + seq![13u8, 10u8]
}

/// The printed wire line of a structured command.
pub open spec fn spec_cmd_line_of(v: CommandVerb, ps: Seq<u8>) -> Seq<u8> {
    spec_json_cmd_line(verb_bytes(v), ps)
}

/// The printed wire line of a text command: the bare word plus newline.
pub open spec fn spec_text_line_of(w: TextWord) -> Seq<u8> {
    word_bytes(w) + seq![10u8]
}

// ---------------------------------------------------------------------------
// Executable printers
// ---------------------------------------------------------------------------

/// Appends the canonical decimal digits of `n`.
pub fn push_decimal(out: &mut Vec<u8>, n: u32)
    ensures
        final(out)@ == old(out)@ + spec_decimal(n as int),
    decreases n,
{
    if n < 10 {
        out.push(48 + (n as u8));
        assert(out@ =~= old(out)@ + spec_decimal(n as int));
    } else {
        push_decimal(out, n / 10);
        out.push(48 + ((n % 10) as u8));
        assert(out@ =~= old(out)@ + spec_decimal(n as int));
    }
}

/// Appends the ASCII bytes of a verb.
fn push_verb(out: &mut Vec<u8>, v: CommandVerb)
    ensures
        final(out)@ == old(out)@ + verb_bytes(v),
{
    match v {
        CommandVerb::Nop => {
            out.push(110);
            out.push(111);
            out.push(112);
        },
        CommandVerb::Wreg => {
            out.push(119);
            out.push(114);
            out.push(101);
            out.push(103);
        },
        CommandVerb::Rdatac => {
            out.push(114);
            out.push(100);
            out.push(97);
            out.push(116);
            out.push(97);
            out.push(99);
        },
        CommandVerb::Sdatac => {
            out.push(115);
            out.push(100);
            out.push(97);
            out.push(116);
            out.push(97);
            out.push(99);
        },
        CommandVerb::Start => {
            out.push(115);
            out.push(116);
            out.push(97);
            out.push(114);
            out.push(116);
        },
        CommandVerb::Stop => {
            out.push(115);
            out.push(116);
            out.push(111);
            out.push(112);
        },
        CommandVerb::Messagepack => {
            out.push(109);
            out.push(101);
            out.push(115);
            out.push(115);
            out.push(97);
            out.push(103);
            out.push(101);
            out.push(112);
            out.push(97);
            out.push(99);
            out.push(107);
        },
        CommandVerb::BoardLedOn => {
            out.push(98);
            out.push(111);
            out.push(97);
            out.push(114);
            out.push(100);
            out.push(108);
            out.push(101);
            out.push(100);
            out.push(111);
            out.push(110);
        },
        CommandVerb::BoardLedOff => {
            out.push(98);
            out.push(111);
            out.push(97);
            out.push(114);
            out.push(100);
            out.push(108);
            out.push(101);
            out.push(100);
            out.push(111);
            out.push(102);
            out.push(102);
        },
    }
    assert(out@ =~= old(out)@ + verb_bytes(v));
}

/// The JSON command object `{"COMMAND":"<verb>","PARAMETERS":[...]}` for a
/// verb and its small-integer parameters.
#[verifier::loop_isolation(false)]
pub fn json_cmd(v: CommandVerb, params: &Vec<u8>) -> (r: Vec<u8>)
    ensures
        r@ == spec_json_cmd(verb_bytes(v), params@),
{
    let mut out: Vec<u8> = Vec::new();
    // {"COMMAND":"
    out.push(123);
    out.push(34);
    out.push(67);
    out.push(79);
    out.push(77);
    out.push(77);
    out.push(65);
    out.push(78);
    out.push(68);
    out.push(34);
    out.push(58);
    out.push(34);
    assert(out@ =~= cmd_pre());
    push_verb(&mut out, v);
    // ","PARAMETERS":[
    out.push(34);
    out.push(44);
    out.push(34);
    out.push(80);
    out.push(65);
    out.push(82);
    out.push(65);
    out.push(77);
    out.push(69);
    out.push(84);
    out.push(69);
    out.push(82);
    out.push(83);
    out.push(34);
    out.push(58);
    out.push(91);
    assert(out@ =~= cmd_pre() + verb_bytes(v) + cmd_mid());
    let ghost head = out@;
    let mut i: usize = 0;
    while i < params.len()
        invariant
            0 <= i <= params@.len(),
            out@ == head + spec_params_bytes(params@.subrange(0, i as int)),
        decreases params@.len() - i,
    {
        if i > 0 {
            out.push(44);
        }
        push_decimal(&mut out, params[i] as u32);
        proof {
            let taken = params@.subrange(0, i as int + 1);
            assert(taken.drop_last() =~= params@.subrange(0, i as int));
            assert(taken.last() == params@[i as int]);
            if i == 0 {
                assert(out@ =~= head + spec_params_bytes(taken));
            } else {
                assert(out@ =~= head + spec_params_bytes(taken));
            }
        }
        i += 1;
    }
    assert(params@.subrange(0, params@.len() as int) =~= params@);
    out.push(93);
    out.push(125);
    assert(out@ =~= spec_json_cmd(verb_bytes(v), params@));
    out
}

/// The full wire line of a structured command, CRLF-terminated.
pub fn json_cmd_line(v: CommandVerb, params: &Vec<u8>) -> (r: Vec<u8>)
    ensures
        r@ == spec_cmd_line_of(v, params@),
{
    let mut out = json_cmd(v, params);
    out.push(13);
    out.push(10);
    assert(out@ =~= spec_cmd_line_of(v, params@));
    out
}

/// The full wire line of a text command: the bare word plus newline.
pub fn text_cmd_line(w: TextWord) -> (r: Vec<u8>)
    ensures
        r@ == spec_text_line_of(w),
{
    let mut out: Vec<u8> = Vec::new();
    match w {
        TextWord::Jsonlines => {
            out.push(106);
            out.push(115);
            out.push(111);
            out.push(110);
            out.push(108);
            out.push(105);
            out.push(110);
            out.push(101);
            out.push(115);
        },
        TextWord::Messagepack => {
            out.push(109);
            out.push(101);
            out.push(115);
            out.push(115);
            out.push(97);
            out.push(103);
            out.push(101);
            out.push(112);
            out.push(97);
            out.push(99);
            out.push(107);
        },
    }
    out.push(10);
    assert(out@ =~= spec_text_line_of(w));
    out
}

} // verus!
