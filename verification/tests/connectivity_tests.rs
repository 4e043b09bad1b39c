use quiche_mp::connectivity::{
    ConnectionClosed, ConnectionClosedTrigger, ConnectionState, ConnectionStateUpdated,
    ServerListening, TransportOwner,
};

#[test]
fn server_listening_keeps_its_fields() {
    let e = ServerListening::new(Some("127.0.0.1".to_string()), None, Some(443), None, Some(true));
    assert_eq!(e.ip_v4, Some("127.0.0.1".to_string()));
    assert_eq!(e.ip_v6, None);
    assert_eq!(e.port_v4, Some(443));
    assert_eq!(e.port_v6, None);
    assert_eq!(e.retry_required(), Some(true));
    assert_eq!(e.clone(), e);
}

#[test]
fn events_compare_by_fields() {
    let closed = ConnectionClosed {
        owner: Some(TransportOwner::Local),
        connection_code: Some(0x0a),
        application_code: None,
        internal_code: None,
        reason: Some("protocol violation".to_string()),
        trigger: Some(ConnectionClosedTrigger::Error),
    };
    assert_eq!(closed.clone(), closed);
    let upd = ConnectionStateUpdated { old: Some(ConnectionState::HandshakeCompleted), new: ConnectionState::HandshakeConfirmed };
    assert_ne!(upd.old, Some(upd.new.clone()));
}
