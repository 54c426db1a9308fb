use websocket_bridge::config::{ConnectionConfig, Max, ProtocolLimits};

fn silent() -> ConnectionConfig {
    ConnectionConfig {
        read_buffer_size: None,
        write_buffer_size: None,
        max_write_buffer_size: None,
        max_message_size: None,
        max_frame_size: None,
        accept_unmasked_frames: false,
        headers: None,
    }
}

#[test]
fn silent_configuration_keeps_the_defaults() {
    let limits = silent().limits();
    assert_eq!(limits.read_buffer_size, 128 * 1024);
    assert_eq!(limits.write_buffer_size, 128 * 1024);
    assert_eq!(limits.max_write_buffer_size, usize::MAX);
    assert_eq!(limits.max_message_size, Some(64 << 20));
    assert_eq!(limits.max_frame_size, Some(16 << 20));
    assert!(!limits.accept_unmasked_frames);
}

#[test]
fn configured_sizes_replace_the_defaults() {
    let mut config = silent();
    config.read_buffer_size = Some(4096);
    config.write_buffer_size = Some(0);
    config.max_write_buffer_size = Some(1 << 20);
    config.accept_unmasked_frames = true;
    let limits = config.limits();
    assert_eq!(limits.read_buffer_size, 4096);
    assert_eq!(limits.write_buffer_size, 0);
    assert_eq!(limits.max_write_buffer_size, 1 << 20);
    assert_eq!(limits.max_message_size, Some(64 << 20));
    assert_eq!(limits.max_frame_size, Some(16 << 20));
    assert!(limits.accept_unmasked_frames);
}

#[test]
fn a_limit_can_be_lifted_or_set() {
    let mut config = silent();
    config.max_message_size = Some(Max::Unlimited);
    config.max_frame_size = Some(Max::Number(1024));
    let limits = config.limits();
    assert_eq!(limits.max_message_size, None);
    assert_eq!(limits.max_frame_size, Some(1024));

    let mut config = silent();
    config.max_message_size = Some(Max::Number(0));
    config.max_frame_size = Some(Max::Unlimited);
    let limits = config.limits();
    assert_eq!(limits.max_message_size, Some(0));
    assert_eq!(limits.max_frame_size, None);
}

#[test]
fn headers_do_not_touch_the_limits() {
    let mut config = silent();
    config.headers = Some(vec![(String::from("x-a"), String::from("1"))]);
    let limits = config.limits();
    assert_eq!(limits.read_buffer_size, 128 * 1024);
    assert_eq!(limits.max_frame_size, Some(16 << 20));
}

#[test]
fn limits_come_from_a_configuration() {
    let mut config = silent();
    config.read_buffer_size = Some(1);
    let limits = ProtocolLimits::from(config);
    assert_eq!(limits.read_buffer_size, 1);
    assert_eq!(limits.write_buffer_size, 128 * 1024);
}
