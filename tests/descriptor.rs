use oblivc::{protocol_desc, ConnectionError, Installed, MemoryStream, PreconditionFailure, ProtocolDesc};

#[test]
fn party_accepts_one_and_two() {
    for id in [1, 2] {
        let pd = protocol_desc().party(id).unwrap();
        assert_eq!(pd.party_id(), id);
        assert_eq!(pd.installed(), Installed::Nothing);
    }
}

#[test]
fn party_rejects_other_ids() {
    for id in [0, 3, -1, 100, i32::MIN, i32::MAX] {
        match protocol_desc().party(id) {
            Err(e) => assert_eq!(e, ConnectionError::Configuration),
            Ok(_) => panic!("party {} was accepted", id),
        }
    }
}

#[test]
fn party_may_change_before_a_transport() {
    let pd = ProtocolDesc::new().party(1).unwrap().party(2).unwrap();
    assert_eq!(pd.party_id(), 2);
}

#[test]
fn party_change_refused_after_install() {
    let pd = protocol_desc().party(1).unwrap();
    let (pd, _t) = pd.use_stream(MemoryStream::new()).unwrap();
    let pd = pd.party(1).unwrap();
    assert_eq!(pd.party_id(), 1);
    assert_eq!(pd.party(2).err(), Some(ConnectionError::Configuration));
}

#[test]
fn party_after_stream() {
    let (pd, _t) = protocol_desc().use_stream(MemoryStream::new()).unwrap();
    let pd = pd.party(2).unwrap();
    assert_eq!(pd.party_id(), 2);
    assert_eq!(pd.installed(), Installed::Stream);
}

#[test]
fn second_stream_refused() {
    let (pd, _t) = protocol_desc().use_stream(MemoryStream::new()).unwrap();
    match pd.use_stream(MemoryStream::with_chunk(7)) {
        Err((pd, stream)) => {
            assert_eq!(pd.installed(), Installed::Stream);
            assert_eq!(stream.unread(), 0);
        }
        Ok(_) => panic!("a second transport was installed"),
    }
}

#[test]
fn exec_without_party_fails() {
    let (pd, _t) = protocol_desc().use_stream(MemoryStream::new()).unwrap();
    assert_eq!(pd.exec_yao_protocol().err(), Some(PreconditionFailure::PartyUnset));
    assert_eq!(protocol_desc().exec_yao_protocol().err(), Some(PreconditionFailure::PartyUnset));
}

#[test]
fn exec_without_transport_fails() {
    let pd = protocol_desc().party(1).unwrap();
    assert_eq!(pd.exec_yao_protocol().err(), Some(PreconditionFailure::NotConnected));
}

#[test]
fn exec_ready() {
    let (pd, _t) = protocol_desc().party(2).unwrap().use_stream(MemoryStream::new()).unwrap();
    let pd = pd.exec_yao_protocol().unwrap();
    assert_eq!(pd.party_id(), 2);
    assert_eq!(pd.installed(), Installed::Stream);
}

#[test]
fn release_happens_once() {
    let (mut pd, _t) = protocol_desc().party(1).unwrap().use_stream(MemoryStream::new()).unwrap();
    assert_eq!(pd.release(), Installed::Stream);
    assert_eq!(pd.release(), Installed::Nothing);
    assert_eq!(pd.installed(), Installed::Nothing);
    assert_eq!(pd.party_id(), 1);
}

#[test]
fn release_without_transport_is_noop() {
    let mut pd = protocol_desc();
    assert_eq!(pd.release(), Installed::Nothing);
}

#[test]
fn stream_can_be_installed_after_release() {
    let (mut pd, _t) = protocol_desc().use_stream(MemoryStream::new()).unwrap();
    pd.release();
    assert!(pd.use_stream(MemoryStream::new()).is_ok());
}
