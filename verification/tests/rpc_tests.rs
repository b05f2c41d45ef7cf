use method_export::rpc::RpcMode;

#[test]
fn parse_recognizes_all_seven_tokens() {
    assert_eq!(RpcMode::parse("remote"), Some(RpcMode::Remote));
    assert_eq!(RpcMode::parse("remote_sync"), Some(RpcMode::RemoteSync));
    assert_eq!(RpcMode::parse("master"), Some(RpcMode::Master));
    assert_eq!(RpcMode::parse("puppet"), Some(RpcMode::Puppet));
    assert_eq!(RpcMode::parse("disabled"), Some(RpcMode::Disabled));
    assert_eq!(RpcMode::parse("master_sync"), Some(RpcMode::MasterSync));
    assert_eq!(RpcMode::parse("puppet_sync"), Some(RpcMode::PuppetSync));
}

#[test]
fn parse_refuses_everything_else() {
    assert_eq!(RpcMode::parse(""), None);
    assert_eq!(RpcMode::parse("Remote"), None);
    assert_eq!(RpcMode::parse("remote "), None);
    assert_eq!(RpcMode::parse("sync"), None);
    assert_eq!(RpcMode::parse("remote_async"), None);
}

#[test]
fn default_mode_is_disabled() {
    assert_eq!(RpcMode::default(), RpcMode::Disabled);
}
