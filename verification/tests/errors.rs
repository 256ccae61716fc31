use mortise::error::{error_message, u32_decimal, MortiseError};

#[test]
fn decimal_rendering_is_exact() {
    assert_eq!(u32_decimal(0), "0");
    assert_eq!(u32_decimal(1), "1");
    assert_eq!(u32_decimal(10), "10");
    assert_eq!(u32_decimal(42), "42");
    assert_eq!(u32_decimal(100000), "100000");
    assert_eq!(u32_decimal(u32::MAX), "4294967295");
}

#[test]
fn object_not_found_message() {
    assert_eq!(
        error_message(&MortiseError::ObjectNotFound(1)),
        "Object of id 1 not found"
    );
}

#[test]
fn map_not_found_message() {
    assert_eq!(
        error_message(&MortiseError::MapNotFound("rb".to_string())),
        "Map of name rb not found"
    );
}

#[test]
fn elem_not_found_message() {
    assert_eq!(
        error_message(&MortiseError::ElemNotFound("sk_stg_map".to_string())),
        "Element of Map sk_stg_map not found"
    );
}

#[test]
fn flow_not_found_message() {
    assert_eq!(
        error_message(&MortiseError::FlowNotFound(42)),
        "Flow of id 42 not found"
    );
}

#[test]
fn flow_connected_message() {
    assert_eq!(
        error_message(&MortiseError::FlowConnected(7)),
        "Flow of id 7 already connected"
    );
}

#[test]
fn fixed_messages() {
    assert_eq!(
        error_message(&MortiseError::InvalidBpfFlags),
        "Invalid bpf flags"
    );
    assert_eq!(error_message(&MortiseError::JoinError), "Fail to join thread");
    assert_eq!(
        error_message(&MortiseError::ChannelSend),
        "Manager IPC channel send error"
    );
    assert_eq!(
        error_message(&MortiseError::ChannelRecv),
        "Manager IPC channel recv error"
    );
}

#[test]
fn wrapped_messages_carry_their_text() {
    assert_eq!(
        error_message(&MortiseError::Io("broken pipe".to_string())),
        "IO error: broken pipe"
    );
    assert_eq!(
        error_message(&MortiseError::KernelObject("bad object".to_string())),
        "Libbpf error: bad object"
    );
    assert_eq!(
        error_message(&MortiseError::Custom("exceed max_entries".to_string())),
        "exceed max_entries"
    );
}
