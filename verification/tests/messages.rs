use synth_8080::communications::{CtrlInputMesg, CtrlResponseMesg, Param, ToMessage};
use synth_8080::error::SynthError;

#[test]
fn responce_message_ser() {
    let msg = CtrlResponseMesg::SetSuccess(Param::Cutoff).to_message().unwrap();
    let mut expected = b"SetSuccess".to_vec();
    expected.extend_from_slice(&[0, 5, b'\n']);
    assert_eq!(msg, expected);

    let msg = CtrlResponseMesg::Muted(true).to_message().unwrap();
    let mut expected = b"Muted".to_vec();
    expected.extend_from_slice(&[0, 1, b'\n']);
    assert_eq!(msg, expected);

    let bits = 0.5f32.to_bits();
    let msg = CtrlResponseMesg::ParamVal(Param::LfoVol, bits).to_message().unwrap();
    let mut expected = b"ParamVal".to_vec();
    expected.extend_from_slice(&[0, 10, 0]);
    expected.extend_from_slice(&0.5f32.to_le_bytes());
    expected.push(b'\n');
    assert_eq!(msg, expected);
}

#[test]
fn input_message_deser() {
    let mut raw = b"GetParam".to_vec();
    raw.extend_from_slice(&[0, 3]);
    assert_eq!(CtrlInputMesg::try_from(raw), Ok(CtrlInputMesg::GetParam(Param::EnvAtk)));

    let mut raw = b"Mute".to_vec();
    raw.extend_from_slice(&[b'\n', 1]);
    assert_eq!(CtrlInputMesg::try_from(raw), Ok(CtrlInputMesg::Mute(true)));

    let mut raw = b"Mute".to_vec();
    raw.extend_from_slice(&[0, 0]);
    assert_eq!(CtrlInputMesg::try_from(raw), Ok(CtrlInputMesg::Mute(false)));
}

#[test]
fn set_param_reads_value_bytes_as_sent() {
    // the value is taken from the byte after the parameter and from bytes 2, 3 and 4
    let raw = vec![b'S', b'e', b't', b'P', b'a', b'r', b'a', b'm', 0, 4, 0xAA];
    assert!(CtrlInputMesg::decodable(&raw));
    let expected = u32::from_le_bytes([0xAA, b't', b'P', b'a']);
    assert_eq!(CtrlInputMesg::try_from(raw), Ok(CtrlInputMesg::SetParam(Param::EnvDelay, expected)));
}

#[test]
fn unknown_and_malformed_messages() {
    assert_eq!(CtrlInputMesg::try_from(b"Hello".to_vec()), Err(SynthError::MalformedMessage));
    let mut raw = b"Hello".to_vec();
    raw.extend_from_slice(&[0, 1]);
    assert_eq!(CtrlInputMesg::try_from(raw), Err(SynthError::UnknownMessage));
    assert_eq!(CtrlInputMesg::try_from(Vec::new()), Err(SynthError::MalformedMessage));
}

#[test]
fn undecodable_messages_are_flagged() {
    // a "Mute" with nothing after its type
    let mut raw = b"Mute".to_vec();
    raw.push(0);
    assert!(!CtrlInputMesg::decodable(&raw));
    // a "GetParam" whose parameter byte is 0, which cannot be taken down by one
    let mut raw = b"GetParam".to_vec();
    raw.extend_from_slice(&[0, 0]);
    assert!(!CtrlInputMesg::decodable(&raw));
    // a parameter byte of 1 reduces to 0, which stands for `LfoVol`
    let mut raw = b"GetParam".to_vec();
    raw.extend_from_slice(&[0, 1]);
    assert!(CtrlInputMesg::decodable(&raw));
    assert_eq!(CtrlInputMesg::try_from(raw), Ok(CtrlInputMesg::GetParam(Param::LfoVol)));
    let mut raw = b"GetParam".to_vec();
    raw.extend_from_slice(&[0, 2]);
    assert!(CtrlInputMesg::decodable(&raw));
}

#[test]
fn param_numbers() {
    assert_eq!(u8::from(Param::Vol), 1);
    assert_eq!(u8::from(Param::LfoVol), 10);
    let n: u8 = Param::Res.into();
    assert_eq!(n, 6);
    assert_eq!(Param::Res.number(), 6);
    // a byte is taken down by one and reduced modulo ten
    assert_eq!(Param::from(2), Param::Vol);
    assert_eq!(Param::from(10), Param::LfoSpeed);
    assert_eq!(Param::from(13), Param::EnvAtk);
    assert_eq!(Param::from(255), Param::EnvSus);
    assert_eq!(Param::from(1), Param::LfoVol);
    assert_eq!(Param::from(11), Param::LfoVol);
    assert_eq!(Param::from(21), Param::LfoVol);
}

#[test]
fn response_names() {
    assert_eq!(CtrlResponseMesg::SetSuccess(Param::Vol).name(), "SetSuccess");
    assert_eq!(CtrlResponseMesg::Muted(false).name(), "Muted");
    assert_eq!(CtrlResponseMesg::ParamVal(Param::Vol, 0).name(), "ParamVal");
}

#[test]
fn response_type_reads_back() {
    // law: the type split off a response's frame is its own name
    for r in [
        CtrlResponseMesg::SetSuccess(Param::Cutoff),
        CtrlResponseMesg::Muted(true),
        CtrlResponseMesg::ParamVal(Param::Vol, 0x0A00_0A00),
    ] {
        let msg = r.to_message().unwrap();
        let end = msg.iter().position(|b| *b == 0 || *b == b'\n').unwrap();
        assert_eq!(&msg[..end], r.name().as_bytes());
        assert_eq!(*msg.last().unwrap(), b'\n');
    }
}
