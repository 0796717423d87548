use namimado::ipc::{IpcBridge, IpcMessage, JS_INIT_SCRIPT};

#[test]
fn drain_clears_queue() {
    let mut bridge = IpcBridge::new();
    bridge.push_incoming(IpcMessage::LoadStart);
    bridge.push_incoming(IpcMessage::LoadEnd);
    let drained = bridge.drain_incoming();
    assert_eq!(drained.len(), 2);
    assert!(bridge.drain_incoming().is_empty());
}

#[test]
fn js_init_script_is_nonempty() {
    let script = IpcBridge::js_init_script();
    assert!(!script.is_empty());
    assert!(script.contains("__namimado"));
    assert_eq!(script, JS_INIT_SCRIPT);
}

#[test]
fn drain_keeps_arrival_order() {
    let mut bridge = IpcBridge::default();
    bridge.push_incoming(IpcMessage::TitleChanged { title: "A".into() });
    bridge.push_incoming(IpcMessage::Navigate { url: "https://b.com".into() });
    let drained = bridge.drain_incoming();
    assert!(matches!(&drained[0], IpcMessage::TitleChanged { title } if title == "A"));
    assert!(matches!(&drained[1], IpcMessage::Navigate { url } if url == "https://b.com"));
}
