use vstd::prelude::*;
use vstd::bytes::*;
use vstd::slice::slice_subrange;
use crate::horn_requests::{
    ActivateHornRequest, ActivateHornResponse, DeactivateHornRequest, HornCycle, HornMode,
    HornSequence,
};

verus! {

// The payload boundary frames a request as bytes and reads a response back
// out of bytes. The frame is length-prefixed and little-endian:
//   activation:   [mode byte] [sequence count: u32]
//                 then, per sequence: [cycle count: u32]
//                 then, per cycle:    [on time: u32] [off time: u32]
//   deactivation: the empty frame (the request carries no parameters)
//   activation response: the empty frame (its content is logged only and
//                 never interpreted, so the frame carries nothing)
/// A payload that does not parse as the expected frame.
#[derive(Clone, Copy, PartialEq, Eq, Structural, Debug)]
pub enum DecodeError {
    MalformedPayload,
}

/// The byte announcing a request's mode.
pub open spec fn spec_mode_byte(m: HornMode) -> u8 {
    match m {
        HornMode::Sequenced => 0,
        HornMode::Continuous => 1,
    }
}

/// The mode a leading byte announces, if any.
pub open spec fn spec_byte_mode(b: u8) -> Option<HornMode> {
    if b == 0 {
        Some(HornMode::Sequenced)
    } else if b == 1 {
        Some(HornMode::Continuous)
    } else {
        None
    }
}

/// The bytes of a run of cycles, each cycle as its two durations.
pub open spec fn spec_encode_cycles(cs: Seq<HornCycle>) -> Seq<u8>
    decreases cs.len(),
{
    if cs.len() == 0 {
        Seq::empty()
    } else {
        spec_u32_to_le_bytes(cs[0].on_time) + spec_u32_to_le_bytes(cs[0].off_time)
            + spec_encode_cycles(cs.drop_first())
    }
}

/// The bytes of one sequence: its cycle count, then its cycles.
pub open spec fn spec_encode_sequence(s: Seq<HornCycle>) -> Seq<u8> {
    spec_u32_to_le_bytes(s.len() as u32) + spec_encode_cycles(s)
}

/// The bytes of a command list: each sequence's frame in order.
pub open spec fn spec_encode_command(cmd: Seq<Seq<HornCycle>>) -> Seq<u8>
    decreases cmd.len(),
{
    if cmd.len() == 0 {
        Seq::empty()
    } else {
        spec_encode_sequence(cmd[0]) + spec_encode_command(cmd.drop_first())
    }
}

/// The activation frame: mode byte, sequence count, then the sequences.
pub open spec fn spec_encode_activation(mode: HornMode, cmd: Seq<Seq<HornCycle>>) -> Seq<u8> {
    seq![spec_mode_byte(mode)] + spec_u32_to_le_bytes(cmd.len() as u32) + spec_encode_command(cmd)
}

/// The frame's counts are 32-bit, so a request is encodable only while its
/// list lengths fit one.
pub open spec fn spec_encodable(cmd: Seq<Seq<HornCycle>>) -> bool {
    &&& cmd.len() <= u32::MAX
    &&& forall|i: int| 0 <= i < cmd.len() ==> (#[trigger] cmd[i]).len() <= u32::MAX
}

/// Reads `n` cycles off the front of `b`; yields the cycles and the rest of
/// the bytes, or nothing when `b` runs short.
pub open spec fn spec_decode_cycles(b: Seq<u8>, n: nat) -> Option<(Seq<HornCycle>, Seq<u8>)>
    decreases n,
{
    if n == 0 {
        Some((Seq::empty(), b))
    } else if b.len() < 8 {
        None
    } else {
        let c = HornCycle {
            on_time: spec_u32_from_le_bytes(b.take(4)),
            off_time: spec_u32_from_le_bytes(b.subrange(4, 8)),
        };
        match spec_decode_cycles(b.skip(8), (n - 1) as nat) {
            Some(parsed) => Some((seq![c] + parsed.0, parsed.1)),
            None => None,
        }
    }
}

/// Reads `n` sequences (each a cycle count and its cycles) off the front of
/// `b`.
pub open spec fn spec_decode_sequences(b: Seq<u8>, n: nat) -> Option<(Seq<Seq<HornCycle>>, Seq<u8>)>
    decreases n,
{
    if n == 0 {
        Some((Seq::empty(), b))
    } else if b.len() < 4 {
        None
    } else {
        let k = spec_u32_from_le_bytes(b.take(4));
        match spec_decode_cycles(b.skip(4), k as nat) {
            Some(parsed) => match spec_decode_sequences(parsed.1, (n - 1) as nat) {
                Some(tail) => Some((seq![parsed.0] + tail.0, tail.1)),
                None => None,
            },
            None => None,
        }
    }
}

/// What an activation frame denotes: the mode and the cycle lists, or
/// nothing when the bytes are not exactly one well-formed frame.
pub open spec fn spec_decode_activation(b: Seq<u8>) -> Option<(HornMode, Seq<Seq<HornCycle>>)> {
    if b.len() < 5 {
        None
    } else {
        match spec_byte_mode(b[0]) {
            Some(mode) => {
                let n = spec_u32_from_le_bytes(b.subrange(1, 5));
                match spec_decode_sequences(b.skip(5), n as nat) {
                    Some(parsed) => if parsed.1.len() == 0 {
                        Some((mode, parsed.0))
                    } else {
                        None
                    },
                    None => None,
                }
            },
            None => None,
        }
    }
}

/// A run of cycles takes eight bytes per cycle.
proof fn lemma_encode_cycles_len(cs: Seq<HornCycle>)
    ensures
        spec_encode_cycles(cs).len() == 8 * cs.len(),
    decreases cs.len(),
{
    lemma_auto_spec_u32_to_from_le_bytes();
    if cs.len() > 0 {
        lemma_encode_cycles_len(cs.drop_first());
    }
}

/// Reading back the cycles just written yields them and leaves the rest of
/// the bytes untouched.
proof fn lemma_cycles_round_trip(cs: Seq<HornCycle>, rest: Seq<u8>)
    ensures
        spec_decode_cycles(spec_encode_cycles(cs) + rest, cs.len()) == Some((cs, rest)),
    decreases cs.len(),
{
    lemma_auto_spec_u32_to_from_le_bytes();
    if cs.len() == 0 {
        assert(spec_encode_cycles(cs) + rest =~= rest);
    } else {
        let b = spec_encode_cycles(cs) + rest;
        lemma_encode_cycles_len(cs.drop_first());
        assert(b.take(4) =~= spec_u32_to_le_bytes(cs[0].on_time));
        assert(b.subrange(4, 8) =~= spec_u32_to_le_bytes(cs[0].off_time));
        assert(b.skip(8) =~= spec_encode_cycles(cs.drop_first()) + rest);
        lemma_cycles_round_trip(cs.drop_first(), rest);
        assert(seq![cs[0]] + cs.drop_first() =~= cs);
    }
}

/// Reading back the sequences just written yields them and leaves the rest
/// of the bytes untouched.
proof fn lemma_sequences_round_trip(cmd: Seq<Seq<HornCycle>>, rest: Seq<u8>)
    requires
        forall|i: int| 0 <= i < cmd.len() ==> (#[trigger] cmd[i]).len() <= u32::MAX,
    ensures
        spec_decode_sequences(spec_encode_command(cmd) + rest, cmd.len()) == Some((cmd, rest)),
    decreases cmd.len(),
{
    lemma_auto_spec_u32_to_from_le_bytes();
    if cmd.len() == 0 {
        assert(spec_encode_command(cmd) + rest =~= rest);
    } else {
        let b = spec_encode_command(cmd) + rest;
        let head = cmd[0];
        let tail_bytes = spec_encode_command(cmd.drop_first()) + rest;
        lemma_encode_cycles_len(head);
        assert(b =~= spec_u32_to_le_bytes(head.len() as u32) + (spec_encode_cycles(head)
            + tail_bytes));
        assert(b.take(4) =~= spec_u32_to_le_bytes(head.len() as u32));
        assert(b.skip(4) =~= spec_encode_cycles(head) + tail_bytes);
        lemma_cycles_round_trip(head, tail_bytes);
        lemma_sequences_round_trip(cmd.drop_first(), rest);
        assert(seq![head] + cmd.drop_first() =~= cmd);
    }
}

/// Decoding an encoded activation request yields the request back: the
/// payload boundary loses nothing, for every encodable mode and cycle
/// pattern.
pub proof fn lemma_activation_round_trip(mode: HornMode, cmd: Seq<Seq<HornCycle>>)
    requires
        spec_encodable(cmd),
    ensures
        spec_decode_activation(spec_encode_activation(mode, cmd)) == Some((mode, cmd)),
{
    lemma_auto_spec_u32_to_from_le_bytes();
    let b = spec_encode_activation(mode, cmd);
    assert(b[0] == spec_mode_byte(mode));
    assert(spec_byte_mode(spec_mode_byte(mode)) == Some(mode));
    assert(b.subrange(1, 5) =~= spec_u32_to_le_bytes(cmd.len() as u32));
    assert(b.skip(5) =~= spec_encode_command(cmd) + Seq::<u8>::empty());
    lemma_sequences_round_trip(cmd, Seq::empty());
    assert(b.len() >= 5);
}

/// Appends the four little-endian bytes of `x` to `out`.
fn push_u32_le(out: &mut Vec<u8>, x: u32)
    ensures
        final(out)@ == old(out)@ + spec_u32_to_le_bytes(x),
{
    let mut bytes = u32_to_le_bytes(x);
    out.append(&mut bytes);
}

/// One more cycle at the end of a run extends its bytes at the end.
proof fn lemma_encode_cycles_snoc(cs: Seq<HornCycle>, c: HornCycle)
    ensures
        spec_encode_cycles(cs.push(c)) == spec_encode_cycles(cs) + spec_u32_to_le_bytes(c.on_time)
            + spec_u32_to_le_bytes(c.off_time),
    decreases cs.len(),
{
    reveal_with_fuel(spec_encode_cycles, 2);
    if cs.len() == 0 {
        assert(cs.push(c).drop_first() =~= Seq::<HornCycle>::empty());
        assert(spec_encode_cycles(cs.push(c)) =~= spec_encode_cycles(cs) + spec_u32_to_le_bytes(
            c.on_time,
        ) + spec_u32_to_le_bytes(c.off_time));
    } else {
        assert(cs.push(c).drop_first() =~= cs.drop_first().push(c));
        lemma_encode_cycles_snoc(cs.drop_first(), c);
        assert(spec_encode_cycles(cs.push(c)) =~= spec_encode_cycles(cs) + spec_u32_to_le_bytes(
            c.on_time,
        ) + spec_u32_to_le_bytes(c.off_time));
    }
}

/// One more sequence at the end of a command list extends its bytes at the
/// end.
proof fn lemma_encode_command_snoc(cmd: Seq<Seq<HornCycle>>, s: Seq<HornCycle>)
    ensures
        spec_encode_command(cmd.push(s)) == spec_encode_command(cmd) + spec_encode_sequence(s),
    decreases cmd.len(),
{
    reveal_with_fuel(spec_encode_command, 2);
    if cmd.len() == 0 {
        assert(cmd.push(s).drop_first() =~= Seq::<Seq<HornCycle>>::empty());
        assert(spec_encode_command(cmd.push(s)) =~= spec_encode_command(cmd)
            + spec_encode_sequence(s));
    } else {
        assert(cmd.push(s).drop_first() =~= cmd.drop_first().push(s));
        lemma_encode_command_snoc(cmd.drop_first(), s);
        assert(spec_encode_command(cmd.push(s)) =~= spec_encode_command(cmd)
            + spec_encode_sequence(s));
    }
}

/// Frames an activation request as payload bytes.
pub fn encode_activation(r: &ActivateHornRequest) -> (b: Vec<u8>)
    requires
        spec_encodable(r.cycles()),
    ensures
        b@ == spec_encode_activation(r.mode, r.cycles()),
{
    let ghost cmd = r.cycles();
    let mut out: Vec<u8> = Vec::new();
    let mode_byte: u8 = match r.mode {
        HornMode::Sequenced => 0,
        HornMode::Continuous => 1,
    };
    out.push(mode_byte);
    push_u32_le(&mut out, r.command.len() as u32);
    assert(out@ =~= seq![spec_mode_byte(r.mode)] + spec_u32_to_le_bytes(cmd.len() as u32)
        + spec_encode_command(cmd.take(0)));
    let mut i: usize = 0;
    while i < r.command.len()
        invariant
            i <= r.command.len(),
            cmd == r.cycles(),
            spec_encodable(cmd),
            cmd.len() == r.command.len(),
            out@ == seq![spec_mode_byte(r.mode)] + spec_u32_to_le_bytes(cmd.len() as u32)
                + spec_encode_command(cmd.take(i as int)),
        decreases r.command.len() - i,
    {
        let s = &r.command[i];
        let ghost cs = s.horn_cycles@;
        assert(cs == cmd[i as int]);
        push_u32_le(&mut out, s.horn_cycles.len() as u32);
        let ghost out_seq_start = out@;
        let mut j: usize = 0;
        while j < s.horn_cycles.len()
            invariant
                j <= s.horn_cycles.len(),
                cs == s.horn_cycles@,
                out@ == out_seq_start + spec_encode_cycles(cs.take(j as int)),
            decreases s.horn_cycles.len() - j,
        {
            let c = s.horn_cycles[j];
            push_u32_le(&mut out, c.on_time);
            push_u32_le(&mut out, c.off_time);
            proof {
                lemma_encode_cycles_snoc(cs.take(j as int), c);
                assert(cs.take(j as int).push(c) =~= cs.take(j as int + 1));
            }
            j = j + 1;
        }
        proof {
            assert(cs.take(cs.len() as int) =~= cs);
            lemma_encode_command_snoc(cmd.take(i as int), cs);
            assert(cmd.take(i as int).push(cs) =~= cmd.take(i as int + 1));
        }
        i = i + 1;
    }
    proof {
        assert(cmd.take(cmd.len() as int) =~= cmd);
    }
    out
}

/// Reads `n` cycles out of `b` starting at `pos`; yields the cycles and the
/// position after them, as the frame defines them.
fn read_cycles(b: &Vec<u8>, pos: usize, n: u32) -> (r: Result<(Vec<HornCycle>, usize), DecodeError>)
    requires
        pos <= b@.len(),
    ensures
        match r {
            Ok(parsed) => {
                &&& parsed.1 <= b@.len()
                &&& spec_decode_cycles(b@.skip(pos as int), n as nat) == Some(
                    (parsed.0@, b@.skip(parsed.1 as int)),
                )
            },
            Err(e) => spec_decode_cycles(b@.skip(pos as int), n as nat) is None && e
                == DecodeError::MalformedPayload,
        },
    decreases n,
{
    if n == 0 {
        return Ok((Vec::new(), pos));
    }
    if b.len() - pos < 8 {
        return Err(DecodeError::MalformedPayload);
    }
    let on_time = u32_from_le_bytes(slice_subrange(b.as_slice(), pos, pos + 4));
    let off_time = u32_from_le_bytes(slice_subrange(b.as_slice(), pos + 4, pos + 8));
    proof {
        assert(b@.subrange(pos as int, pos as int + 4) =~= b@.skip(pos as int).take(4));
        assert(b@.subrange(pos as int + 4, pos as int + 8) =~= b@.skip(pos as int).subrange(4, 8));
        assert(b@.skip(pos as int + 8) =~= b@.skip(pos as int).skip(8));
    }
    match read_cycles(b, pos + 8, n - 1) {
        Ok(mut parsed) => {
            let c = HornCycle { on_time, off_time };
            parsed.0.insert(0, c);
            Ok((parsed.0, parsed.1))
        },
        Err(e) => Err(e),
    }
}

/// Reads `n` sequences out of `b` starting at `pos`.
fn read_sequences(b: &Vec<u8>, pos: usize, n: u32) -> (r: Result<
    (Vec<HornSequence>, usize),
    DecodeError,
>)
    requires
        pos <= b@.len(),
    ensures
        match r {
            Ok(parsed) => {
                &&& parsed.1 <= b@.len()
                &&& spec_decode_sequences(b@.skip(pos as int), n as nat) == Some(
                    (parsed.0@.map_values(|s: HornSequence| s.horn_cycles@), b@.skip(
                        parsed.1 as int,
                    )),
                )
            },
            Err(e) => spec_decode_sequences(b@.skip(pos as int), n as nat) is None && e
                == DecodeError::MalformedPayload,
        },
    decreases n,
{
    if n == 0 {
        let empty: Vec<HornSequence> = Vec::new();
        proof {
            assert(empty@.map_values(|s: HornSequence| s.horn_cycles@) =~= Seq::<
                Seq<HornCycle>,
            >::empty());
        }
        return Ok((empty, pos));
    }
    if b.len() - pos < 4 {
        return Err(DecodeError::MalformedPayload);
    }
    let k = u32_from_le_bytes(slice_subrange(b.as_slice(), pos, pos + 4));
    proof {
        assert(b@.subrange(pos as int, pos as int + 4) =~= b@.skip(pos as int).take(4));
        assert(b@.skip(pos as int + 4) =~= b@.skip(pos as int).skip(4));
    }
    match read_cycles(b, pos + 4, k) {
        Ok(cycles_parsed) => match read_sequences(b, cycles_parsed.1, n - 1) {
            Ok(mut tail) => {
                let s = HornSequence { horn_cycles: cycles_parsed.0 };
                tail.0.insert(0, s);
                proof {
                    assert(tail.0@.map_values(|s: HornSequence| s.horn_cycles@) =~= seq![
                        cycles_parsed.0@,
                    ] + tail.0@.drop_first().map_values(|s: HornSequence| s.horn_cycles@));
                }
                Ok((tail.0, tail.1))
            },
            Err(e) => Err(e),
        },
        Err(e) => Err(e),
    }
}

/// Reads an activation request back out of payload bytes; a payload that is
/// not exactly one well-formed activation frame is malformed.
pub fn decode_activation(b: &Vec<u8>) -> (r: Result<ActivateHornRequest, DecodeError>)
    ensures
        match r {
            Ok(req) => spec_decode_activation(b@) == Some((req.mode, req.cycles())),
            Err(e) => spec_decode_activation(b@) is None && e == DecodeError::MalformedPayload,
        },
{
    if b.len() < 5 {
        return Err(DecodeError::MalformedPayload);
    }
    let mode = match b[0] {
        0u8 => HornMode::Sequenced,
        1u8 => HornMode::Continuous,
        _ => {
            return Err(DecodeError::MalformedPayload);
        },
    };
    let n = u32_from_le_bytes(slice_subrange(b.as_slice(), 1, 5));
    match read_sequences(b, 5, n) {
        Ok(parsed) => {
            if parsed.1 == b.len() {
                proof {
                    assert(b@.skip(parsed.1 as int).len() == 0);
                }
                Ok(ActivateHornRequest { mode, command: parsed.0 })
            } else {
                proof {
                    assert(b@.skip(parsed.1 as int).len() > 0);
                }
                Err(DecodeError::MalformedPayload)
            }
        },
        Err(e) => Err(e),
    }
}

/// Frames a deactivation request: it carries no parameters, so its frame is
/// empty.
pub fn encode_deactivation(_r: &DeactivateHornRequest) -> (b: Vec<u8>)
    ensures
        b@ == Seq::<u8>::empty(),
{
    Vec::new()
}

/// Reads a deactivation request back out of payload bytes: only the empty
/// frame is well-formed.
pub fn decode_deactivation(b: &Vec<u8>) -> (r: Result<DeactivateHornRequest, DecodeError>)
    ensures
        b@.len() == 0 ==> r == Ok::<DeactivateHornRequest, DecodeError>(DeactivateHornRequest {  }),
        b@.len() != 0 ==> r == Err::<DeactivateHornRequest, DecodeError>(
            DecodeError::MalformedPayload,
        ),
{
    if b.len() == 0 {
        Ok(DeactivateHornRequest {  })
    } else {
        Err(DecodeError::MalformedPayload)
    }
}

/// Reads an activation response out of payload bytes. The response schema
/// carries nothing this library interprets, so only the empty frame is
/// well-formed; anything else is a malformed response.
pub fn decode_activation_response(b: &Vec<u8>) -> (r: Result<ActivateHornResponse, DecodeError>)
    ensures
        b@.len() == 0 ==> r == Ok::<ActivateHornResponse, DecodeError>(ActivateHornResponse {  }),
        b@.len() != 0 ==> r == Err::<ActivateHornResponse, DecodeError>(
            DecodeError::MalformedPayload,
        ),
{
    if b.len() == 0 {
        Ok(ActivateHornResponse {  })
    } else {
        Err(DecodeError::MalformedPayload)
    }
}

} // verus!
