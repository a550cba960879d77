use vstd::prelude::*;

use crate::error::SynthError;
use vstd::arithmetic::div_mod::{
    lemma_div_denominator, lemma_div_is_ordered, lemma_fundamental_div_mod, lemma_small_mod,
};

verus! {

/// A framed control message, as bytes.
pub type Message = Vec<u8>;

/// Types that can be sent to the controls board as a framed message.
pub trait ToMessage {
    fn to_message(&self) -> Result<Message, SynthError>;
}

/// The synth parameters the controls board can set or ask for.
#[derive(Debug, Clone, Copy, PartialEq, Eq, Structural, PartialOrd)]
pub enum Param {
    Vol,
    EnvAtk,
    EnvDelay,
    EnvSus,
    Cutoff,
    Res,
    ChorusSpeed,
    ChorusVol,
    LfoSpeed,
    LfoVol,
}

/// The wire number of a parameter: 1 for `Vol` up to 10 for `LfoVol`.
pub open spec fn param_number(p: Param) -> u8 {
    match p {
        Param::Vol => 1,
        Param::EnvAtk => 2,
        Param::EnvDelay => 3,
        Param::EnvSus => 4,
        Param::Cutoff => 5,
        Param::Res => 6,
        Param::ChorusSpeed => 7,
        Param::ChorusVol => 8,
        Param::LfoSpeed => 9,
        Param::LfoVol => 10,
    }
}

/// The parameter with wire number `n`, for `1 <= n <= 10`.
pub open spec fn param_with_number(n: u8) -> Param {
    if n == 1 {
        Param::Vol
    } else if n == 2 {
        Param::EnvAtk
    } else if n == 3 {
        Param::EnvDelay
    } else if n == 4 {
        Param::EnvSus
    } else if n == 5 {
        Param::Cutoff
    } else if n == 6 {
        Param::Res
    } else if n == 7 {
        Param::ChorusSpeed
    } else if n == 8 {
        Param::ChorusVol
    } else if n == 9 {
        Param::LfoSpeed
    } else {
        Param::LfoVol
    }
}

/// A byte can be read as a parameter: taking it down by one does not
/// underflow.
pub open spec fn param_byte_ok(b: u8) -> bool {
    b >= 1
}

/// The parameter a byte is read as: the byte is taken down by one and
/// reduced modulo the ten parameters; the result is a wire number, where 0
/// stands for 10, the number of `LfoVol`.
pub open spec fn param_of_byte(b: u8) -> Param {
    let n = ((b - 1) % 10) as u8;
    if n == 0 {
        Param::LfoVol
    } else {
        param_with_number(n)
    }
}

proof fn lemma_param_number_names(p: Param)
    ensures
        param_with_number(param_number(p)) == p,
{
}

impl From<Param> for u8 {
    fn from(p: Param) -> (n: u8) {
        match p {
            Param::Vol => 1,
            Param::EnvAtk => 2,
            Param::EnvDelay => 3,
            Param::EnvSus => 4,
            Param::Cutoff => 5,
            Param::Res => 6,
            Param::ChorusSpeed => 7,
            Param::ChorusVol => 8,
            Param::LfoSpeed => 9,
            Param::LfoVol => 10,
        }
    }
}

impl vstd::std_specs::convert::FromSpecImpl<Param> for u8 {
    open spec fn obeys_from_spec() -> bool {
        true
    }

    open spec fn from_spec(v: Param) -> u8 {
        param_number(v)
    }
}

impl Param {
    /// The wire number of this parameter.
    pub fn number(self) -> (n: u8)
        ensures
            n == param_number(self),
    {
        u8::from(self)
    }

    /// Reads a parameter from a byte: the byte is taken down by one and
    /// reduced modulo the number of parameters, and the parameter with that
    /// wire number is returned, `LfoVol` for 0 (see `param_of_byte`).
    pub fn from(value: u8) -> (p: Param)
        requires
            param_byte_ok(value),
        ensures
            p == param_of_byte(value),
    {
        let params = [
            Param::Vol,
            Param::EnvAtk,
            Param::EnvDelay,
            Param::EnvSus,
            Param::Cutoff,
            Param::Res,
            Param::ChorusSpeed,
            Param::ChorusVol,
            Param::LfoSpeed,
            Param::LfoVol,
        ];
        let wanted = (value - 1) % 10;
        let mut i: usize = 0;
        while i < 10
            invariant
                param_byte_ok(value),
                wanted == ((value - 1) % 10) as u8,
                wanted < 10,
                i <= 10,
                params@ == seq![
                    Param::Vol,
                    Param::EnvAtk,
                    Param::EnvDelay,
                    Param::EnvSus,
                    Param::Cutoff,
                    Param::Res,
                    Param::ChorusSpeed,
                    Param::ChorusVol,
                    Param::LfoSpeed,
                    Param::LfoVol,
                ],
                forall|j: int| 0 <= j < i ==> param_number(#[trigger] params@[j]) != wanted,
            decreases 10 - i,
        {
            let param = params[i];
            if param.number() == wanted {
                proof {
                    lemma_param_number_names(param);
                }
                return param;
            }
            i = i + 1;
        }
        if wanted != 0 {
            assert(param_number(params@[wanted - 1]) == wanted);
        }
        Param::LfoVol
    }
}

/// The bytes of the message type "SetParam".
pub open spec fn set_param_tag() -> Seq<u8> {
    seq![83u8, 101, 116, 80, 97, 114, 97, 109]
}

/// The bytes of the message type "Mute".
pub open spec fn mute_tag() -> Seq<u8> {
    seq![77u8, 117, 116, 101]
}

/// The bytes of the message type "GetParam".
pub open spec fn get_param_tag() -> Seq<u8> {
    seq![71u8, 101, 116, 80, 97, 114, 97, 109]
}

/// The bytes of the message type "SetSuccess".
pub open spec fn set_success_tag() -> Seq<u8> {
    seq![83u8, 101, 116, 83, 117, 99, 99, 101, 115, 115]
}

/// The bytes of the message type "Muted".
pub open spec fn muted_tag() -> Seq<u8> {
    seq![77u8, 117, 116, 101, 100]
}

/// The bytes of the message type "ParamVal".
pub open spec fn param_val_tag() -> Seq<u8> {
    seq![80u8, 97, 114, 97, 109, 86, 97, 108]
}

/// The byte that ends a message.
pub const NEWLINE: u8 = 10;

/// `s` begins with `p`.
pub open spec fn has_prefix(s: Seq<u8>, p: Seq<u8>) -> bool {
    p.len() <= s.len() && s.take(p.len() as int) == p
}

/// The first position of a byte that ends a message type (a zero byte or a
/// newline), or `-1` when there is none.
pub open spec fn type_end(raw: Seq<u8>) -> int
    decreases raw.len(),
{
    if raw.len() == 0 {
        -1
    } else {
        let p = type_end(raw.drop_last());
        if p >= 0 {
            p
        } else if raw.last() == 0 || raw.last() == NEWLINE {
            raw.len() - 1
        } else {
            -1
        }
    }
}

/// The little-endian number of four bytes.
pub open spec fn le_u32(b0: u8, b1: u8, b2: u8, b3: u8) -> u32 {
    (b0 + b1 * 256 + b2 * 65536 + b3 * 16777216) as u32
}

/// The four little-endian bytes of a number.
pub open spec fn le_bytes(v: u32) -> Seq<u8> {
    seq![
        (v % 256) as u8,
        ((v / 256) % 256) as u8,
        ((v / 65536) % 256) as u8,
        ((v / 16777216) % 256) as u8,
    ]
}

/// A message from the controls board.
#[derive(Debug, Clone, Copy, PartialEq, Eq, Structural)]
pub enum CtrlInputMesg {
    /// sets a parameter; the value is the bit pattern of a 32-bit float
    SetParam(Param, u32),
    /// mutes (`true`) or unmutes the synth
    Mute(bool),
    /// asks for the value of a parameter
    GetParam(Param),
}

/// Reading `raw` as a control message does not run past its end or read a
/// zero parameter byte, which cannot be taken down by one.
pub open spec fn input_decodable(raw: Seq<u8>) -> bool {
    let t = type_end(raw);
    let ty = raw.take(t);
    let i = t + 1;
    if t < 0 {
        true
    } else if has_prefix(ty, set_param_tag()) {
        i + 1 < raw.len() && 4 < raw.len() && param_byte_ok(raw[i])
    } else if has_prefix(ty, mute_tag()) {
        i < raw.len()
    } else if has_prefix(ty, get_param_tag()) {
        i < raw.len() && param_byte_ok(raw[i])
    } else {
        true
    }
}

/// The control message `raw` reads as. The message type runs up to the
/// first zero byte or newline. A "SetParam" takes the parameter from the
/// byte after the type and the float from the byte after that and bytes 2,
/// 3 and 4 of the message; a "Mute" is on when the byte after the type is
/// not zero; a "GetParam" takes the parameter from the byte after the type.
pub open spec fn decode_spec(raw: Seq<u8>) -> Result<CtrlInputMesg, SynthError> {
    let t = type_end(raw);
    let ty = raw.take(t);
    let i = t + 1;
    if t < 0 {
        Err(SynthError::MalformedMessage)
    } else if has_prefix(ty, set_param_tag()) {
        Ok(CtrlInputMesg::SetParam(param_of_byte(raw[i]), le_u32(raw[i + 1], raw[2], raw[3], raw[4])))
    } else if has_prefix(ty, mute_tag()) {
        Ok(CtrlInputMesg::Mute(raw[i] > 0))
    } else if has_prefix(ty, get_param_tag()) {
        Ok(CtrlInputMesg::GetParam(param_of_byte(raw[i])))
    } else {
        Err(SynthError::UnknownMessage)
    }
}

proof fn lemma_type_end(raw: Seq<u8>)
    ensures
        ({
            let p = type_end(raw);
            ||| p == -1 && forall|j: int| 0 <= j < raw.len() ==> raw[j] != 0 && raw[j] != NEWLINE
            ||| 0 <= p < raw.len() && (raw[p] == 0 || raw[p] == NEWLINE) && forall|j: int|
                0 <= j < p ==> raw[j] != 0 && raw[j] != NEWLINE
        }),
    decreases raw.len(),
{
    if raw.len() > 0 {
        let prev = raw.drop_last();
        lemma_type_end(prev);
        assert forall|j: int| 0 <= j < prev.len() implies raw[j] == prev[j] by {}
    }
}

/// Whether `s` begins with `p`.
fn starts_with(s: &Vec<u8>, p: &Vec<u8>) -> (r: bool)
    ensures
        r == has_prefix(s@, p@),
{
    if p.len() > s.len() {
        return false;
    }
    let mut i: usize = 0;
    while i < p.len()
        invariant
            p@.len() <= s@.len(),
            i <= p@.len(),
            forall|j: int| 0 <= j < i ==> s@[j] == p@[j],
        decreases p.len() - i,
    {
        if s[i] != p[i] {
            assert(s@.take(p@.len() as int)[i as int] != p@[i as int]);
            return false;
        }
        i = i + 1;
    }
    assert(s@.take(p@.len() as int) =~= p@);
    true
}

fn set_param_bytes() -> (v: Vec<u8>)
    ensures
        v@ == set_param_tag(),
{
    let v = vec![83u8, 101, 116, 80, 97, 114, 97, 109];
    assert(v@ =~= set_param_tag());
    v
}

fn mute_bytes() -> (v: Vec<u8>)
    ensures
        v@ == mute_tag(),
{
    let v = vec![77u8, 117, 116, 101];
    assert(v@ =~= mute_tag());
    v
}

fn get_param_bytes() -> (v: Vec<u8>)
    ensures
        v@ == get_param_tag(),
{
    let v = vec![71u8, 101, 116, 80, 97, 114, 97, 109];
    assert(v@ =~= get_param_tag());
    v
}

impl CtrlInputMesg {
    /// Splits off the message type: the bytes before the first zero byte
    /// or newline, and the position just after that byte.
    fn build_type(raw_msg: &Vec<u8>) -> (r: Result<(Vec<u8>, usize), SynthError>)
        ensures
            type_end(raw_msg@) < 0 ==> r == Err::<(Vec<u8>, usize), SynthError>(
                SynthError::MalformedMessage,
            ),
            type_end(raw_msg@) >= 0 ==> (r matches Ok((ty, i)) && ty@ == raw_msg@.take(
                type_end(raw_msg@),
            ) && i == type_end(raw_msg@) + 1),
    {
        proof {
            lemma_type_end(raw_msg@);
        }
        let mut mesg_type: Vec<u8> = Vec::new();
        let mut i: usize = 0;
        while i < raw_msg.len()
            invariant
                i <= raw_msg@.len(),
                mesg_type@ == raw_msg@.take(i as int),
                forall|j: int| 0 <= j < i ==> raw_msg@[j] != 0 && raw_msg@[j] != NEWLINE,
            decreases raw_msg.len() - i,
        {
            let b = raw_msg[i];
            if b == 0 || b == NEWLINE {
                proof {
                    lemma_type_end(raw_msg@);
                }
                return Ok((mesg_type, i + 1));
            }
            mesg_type.push(b);
            i = i + 1;
            assert(mesg_type@ =~= raw_msg@.take(i as int));
        }
        proof {
            lemma_type_end(raw_msg@);
        }
        Err(SynthError::MalformedMessage)
    }

    /// Whether `value` can be read as a control message without running
    /// past its end or meeting a zero parameter byte.
    pub fn decodable(value: &Vec<u8>) -> (r: bool)
        ensures
            r == input_decodable(value@),
    {
        match Self::build_type(value) {
            Err(_) => true,
            Ok((mesg_type, i)) => {
                if starts_with(&mesg_type, &set_param_bytes()) {
                    i < value.len() - 1 && 4 < value.len() && value[i] >= 1
                } else if starts_with(&mesg_type, &mute_bytes()) {
                    i < value.len()
                } else if starts_with(&mesg_type, &get_param_bytes()) {
                    i < value.len() && value[i] >= 1
                } else {
                    true
                }
            },
        }
    }

    /// Reads a control message (see `decode_spec`).
    pub fn try_from(value: Vec<u8>) -> (r: Result<CtrlInputMesg, SynthError>)
        requires
            input_decodable(value@),
        ensures
            r == decode_spec(value@),
    {
        match Self::build_type(&value) {
            Ok((mesg_type, i)) => {
                if starts_with(&mesg_type, &set_param_bytes()) {
                    assert(has_prefix(value@.take(type_end(value@)), set_param_tag()));
                    let param = Param::from(value[i]);
                    let n = value.len();
                    assert(i + 1 < n);
                    let next = i + 1;
                    let bits = (value[next] as u32) + (value[2] as u32) * 256 + (value[3] as u32)
                        * 65536 + (value[4] as u32) * 16777216;
                    Ok(CtrlInputMesg::SetParam(param, bits))
                } else if starts_with(&mesg_type, &mute_bytes()) {
                    Ok(CtrlInputMesg::Mute(value[i] > 0))
                } else if starts_with(&mesg_type, &get_param_bytes()) {
                    Ok(CtrlInputMesg::GetParam(Param::from(value[i])))
                } else {
                    Err(SynthError::UnknownMessage)
                }
            },
            Err(_) => Err(SynthError::MalformedMessage),
        }
    }
}

/// A message from the synth to the controls board.
#[derive(Debug, Clone, Copy, PartialEq, Eq, Structural)]
pub enum CtrlResponseMesg {
    /// what param was set
    SetSuccess(Param),
    /// if the synth is muted
    Muted(bool),
    /// a parameter's value; the bit pattern of a 32-bit float
    ParamVal(Param, u32),
}

/// The name of a response, which is also its message type.
pub open spec fn response_name(r: CtrlResponseMesg) -> Seq<char> {
    match r {
        CtrlResponseMesg::SetSuccess(_) => "SetSuccess"@,
        CtrlResponseMesg::Muted(_) => "Muted"@,
        CtrlResponseMesg::ParamVal(_, _) => "ParamVal"@,
    }
}

/// The type bytes of a response's message.
pub open spec fn response_tag(r: CtrlResponseMesg) -> Seq<u8> {
    match r {
        CtrlResponseMesg::SetSuccess(_) => set_success_tag(),
        CtrlResponseMesg::Muted(_) => muted_tag(),
        CtrlResponseMesg::ParamVal(_, _) => param_val_tag(),
    }
}

/// The framed message of a response: its type, a zero byte, then the
/// parameter number (or 1/0 for muted/unmuted); a value also gets a zero
/// byte and its four little-endian bytes; a newline ends the message.
pub open spec fn response_bytes(r: CtrlResponseMesg) -> Seq<u8> {
    match r {
        CtrlResponseMesg::SetSuccess(p) => set_success_tag() + seq![0u8, param_number(p), NEWLINE],
        CtrlResponseMesg::Muted(b) => muted_tag() + seq![
            0u8,
            if b {
                1u8
            } else {
                0u8
            },
            NEWLINE,
        ],
        CtrlResponseMesg::ParamVal(p, v) => param_val_tag() + seq![0u8, param_number(p), 0u8]
            + le_bytes(v) + seq![NEWLINE],
    }
}

impl CtrlResponseMesg {
    /// The name of this response ("SetSuccess", "Muted" or "ParamVal").
    pub fn name(&self) -> (s: String)
        ensures
            s@ == response_name(*self),
    {
        match self {
            CtrlResponseMesg::SetSuccess(_) => String::from_str("SetSuccess"),
            CtrlResponseMesg::Muted(_) => String::from_str("Muted"),
            CtrlResponseMesg::ParamVal(_, _) => String::from_str("ParamVal"),
        }
    }
}

impl ToMessage for CtrlResponseMesg {
    /// Frames this response as a message (see `response_bytes`); never fails.
    fn to_message(&self) -> (r: Result<Message, SynthError>)
        ensures
            r matches Ok(v) && v@ == response_bytes(*self),
    {
        let mut f: Vec<u8> = Vec::new();
        match self {
            CtrlResponseMesg::SetSuccess(param) => {
                f = vec![83u8, 101, 116, 83, 117, 99, 99, 101, 115, 115];
                f.push(0);
                f.push(param.number());
                f.push(NEWLINE);
            },
            CtrlResponseMesg::Muted(muted) => {
                f = vec![77u8, 117, 116, 101, 100];
                f.push(0);
                f.push(if *muted { 1u8 } else { 0u8 });
                f.push(NEWLINE);
            },
            CtrlResponseMesg::ParamVal(param, val) => {
                f = vec![80u8, 97, 114, 97, 109, 86, 97, 108];
                f.push(0);
                f.push(param.number());
                f.push(0);
                f.push((*val % 256) as u8);
                f.push(((*val / 256) % 256) as u8);
                f.push(((*val / 65536) % 256) as u8);
                f.push(((*val / 16777216) % 256) as u8);
                f.push(NEWLINE);
            },
        }
        assert(f@ =~= response_bytes(*self));
        Ok(f)
    }
}

/// The message type a reader splits off a framed response is the
/// response's own type, and the payload starts right after it.
pub proof fn law_response_type_reads_back(r: CtrlResponseMesg)
    ensures
        type_end(response_bytes(r)) == response_tag(r).len(),
        response_bytes(r).take(type_end(response_bytes(r))) == response_tag(r),
{
    let b = response_bytes(r);
    let tag = response_tag(r);
    lemma_type_end(b);
    assert(b[tag.len() as int] == 0);
    assert forall|j: int| 0 <= j < tag.len() implies b[j] != 0 && b[j] != NEWLINE by {
        assert(b[j] == tag[j]);
    }
    let p = type_end(b);
    if p != tag.len() {
        if p < tag.len() {
            assert(b[p] == tag[p]);
        }
    }
    assert(b.take(tag.len() as int) =~= tag);
}

proof fn lemma_le_bytes_read_back(v: u32)
    ensures
        le_u32(le_bytes(v)[0], le_bytes(v)[1], le_bytes(v)[2], le_bytes(v)[3]) == v,
{
    let x = v as int;
    let b = le_bytes(v);
    lemma_fundamental_div_mod(x, 256);
    lemma_fundamental_div_mod(x / 256, 256);
    lemma_fundamental_div_mod(x / 65536, 256);
    lemma_div_denominator(x, 256, 256);
    lemma_div_denominator(x, 65536, 256);
    assert(x / 16777216 < 256) by {
        lemma_div_is_ordered(x, 4294967295, 16777216);
    }
    lemma_small_mod((x / 16777216) as nat, 256);
    assert(b[0] == x % 256);
    assert(b[1] == (x / 256) % 256);
    assert(b[2] == (x / 65536) % 256);
    assert(b[3] == x / 16777216);
    assert(b[0] + b[1] * 256 + b[2] * 65536 + b[3] * 16777216 == x) by (nonlinear_arith)
        requires
            x == 256 * (x / 256) + x % 256,
            x / 256 == 256 * (x / 256 / 256) + (x / 256) % 256,
            x / 256 / 256 == x / 65536,
            x / 65536 == 256 * (x / 65536 / 256) + (x / 65536) % 256,
            x / 65536 / 256 == x / 16777216,
            b[0] == x % 256,
            b[1] == (x / 256) % 256,
            b[2] == (x / 65536) % 256,
            b[3] == x / 16777216,
    ;
}

/// A framed parameter value is the message type "ParamVal", a zero byte,
/// the parameter's number, a zero byte, the four bytes of the value, least
/// significant first, and a newline: those four bytes read back as the value.
pub proof fn law_param_val_frame_reads_back(p: Param, v: u32)
    ensures
        response_bytes(CtrlResponseMesg::ParamVal(p, v)).len() == 16,
        has_prefix(response_bytes(CtrlResponseMesg::ParamVal(p, v)), param_val_tag()),
        response_bytes(CtrlResponseMesg::ParamVal(p, v))[8] == 0,
        response_bytes(CtrlResponseMesg::ParamVal(p, v))[9] == param_number(p),
        response_bytes(CtrlResponseMesg::ParamVal(p, v))[10] == 0,
        le_u32(
            response_bytes(CtrlResponseMesg::ParamVal(p, v))[11],
            response_bytes(CtrlResponseMesg::ParamVal(p, v))[12],
            response_bytes(CtrlResponseMesg::ParamVal(p, v))[13],
            response_bytes(CtrlResponseMesg::ParamVal(p, v))[14],
        ) == v,
        response_bytes(CtrlResponseMesg::ParamVal(p, v))[15] == NEWLINE,
{
    let b = response_bytes(CtrlResponseMesg::ParamVal(p, v));
    let l = le_bytes(v);
    lemma_le_bytes_read_back(v);
    assert(b[11] == l[0] && b[12] == l[1] && b[13] == l[2] && b[14] == l[3]);
    assert(b.take(8) =~= param_val_tag());
}

/// The wire numbers tell the parameters apart and run from 1 to 10; a byte
/// one above a parameter's number reads back as that parameter, and bytes
/// ten apart read as the same parameter.
pub proof fn law_param_numbers_read_back(p: Param, q: Param, b: u8)
    ensures
        1 <= param_number(p) <= 10,
        param_number(p) == param_number(q) <==> p == q,
        param_of_byte((param_number(p) + 1) as u8) == p,
        1 <= b <= 245 ==> param_of_byte((b + 10) as u8) == param_of_byte(b),
{
}

/// Every framed response is its type, a zero byte, the wire number of the
/// response's parameter (or 1 when muted and 0 when not), and ends in a
/// newline; only a value frame carries more bytes.
pub proof fn law_response_payload_reads_back(r: CtrlResponseMesg)
    ensures
        has_prefix(response_bytes(r), response_tag(r)),
        response_bytes(r)[response_tag(r).len() as int] == 0,
        response_bytes(r).last() == NEWLINE,
        r matches CtrlResponseMesg::SetSuccess(p) ==> response_bytes(r).len() == response_tag(
            r,
        ).len() + 3 && response_bytes(r)[response_tag(r).len() + 1int] == param_number(p),
        r matches CtrlResponseMesg::ParamVal(p, _) ==> response_bytes(r)[response_tag(r).len()
            + 1int] == param_number(p),
        r matches CtrlResponseMesg::Muted(m) ==> response_bytes(r).len() == response_tag(r).len()
            + 3 && response_bytes(r)[response_tag(r).len() + 1int] == (if m {
            1u8
        } else {
            0u8
        }),
{
    let b = response_bytes(r);
    let t = response_tag(r);
    assert(b.take(t.len() as int) =~= t);
    match r {
        CtrlResponseMesg::SetSuccess(p) => {
            assert(b[t.len() + 1int] == param_number(p));
        },
        CtrlResponseMesg::ParamVal(p, _) => {
            assert(b[t.len() + 1int] == param_number(p));
        },
        CtrlResponseMesg::Muted(_) => {},
    }
}

} // verus!
