use roboapp::camera::config::parse_configpath;
use roboapp::camera::config::CameraConfig;
use roboapp::camera::config::CameraDevice;
use roboapp::camera::config::Config;
use roboapp::camera::config::GlobalConfig;
use roboapp::camera::messages::CameraSwitchMessage;
use roboapp::paths::choose_default;
use roboapp::paths::choose_destination;
use roboapp::paths::default_config_path;
use roboapp::paths::follow_link;

fn s(text: &str) -> Option<String> {
    Some(text.to_string())
}

#[test]
fn global_defaults() {
    assert_eq!(GlobalConfig::default_websocket_port(), 8080);
    assert_eq!(GlobalConfig::default_zenoh_prefix(), "");
    let g = GlobalConfig::default();
    assert_eq!(g.websocket_port, 8080);
    assert_eq!(g.zenoh_prefix, "");
}

#[test]
fn camera_device_defaults() {
    assert_eq!(CameraDevice::default_width(), 1280);
    assert_eq!(CameraDevice::default_height(), 720);
    let d = CameraDevice {
        device: "/dev/video0".to_string(),
        width: CameraDevice::default_width(),
        height: CameraDevice::default_height(),
    };
    assert_eq!(d.device, "/dev/video0");
    assert_eq!((d.width, d.height), (1280, 720));
}

#[test]
fn camera_config_defaults() {
    assert!(CameraConfig::default_websocket());
    assert!(!CameraConfig::default_zenoh());
    let slot = CameraDevice { device: "/dev/video0".to_string(), width: 640, height: 480 };
    let c = CameraConfig {
        websocket: CameraConfig::default_websocket(),
        zenoh: CameraConfig::default_zenoh(),
        devices: vec![slot],
    };
    assert!(c.websocket);
    assert!(!c.zenoh);
    assert_eq!(c.devices.len(), 1);
    let whole = Config { global: GlobalConfig::default(), camera: Some(c) };
    assert_eq!(whole.global.websocket_port, 8080);
    assert_eq!(whole.camera.unwrap().devices[0].device, "/dev/video0");
}

#[test]
fn switch_message_defaults() {
    assert_eq!(CameraSwitchMessage::default_camera_id(), 0);
    assert_eq!(CameraSwitchMessage::DEFAULT_CAMERA_ID, 0);
    assert_eq!(CameraSwitchMessage::default().camera_id, 0);
}

#[test]
fn topics_without_prefix() {
    let g = GlobalConfig::default();
    assert_eq!(g.topic_root(), "cam");
    assert_eq!(g.frame_topic(), "cam/jpg");
    assert_eq!(g.control_topic(), "cam/switch");
}

#[test]
fn topics_below_a_prefix() {
    let g = GlobalConfig { websocket_port: 9090, zenoh_prefix: "roboapp".to_string() };
    assert_eq!(g.topic_root(), "roboapp/cam");
    assert_eq!(g.frame_topic(), "roboapp/cam/jpg");
    assert_eq!(g.control_topic(), "roboapp/cam/switch");
}

#[test]
fn asked_for_file_is_used_in_canonical_form() {
    assert_eq!(
        parse_configpath(s("conf/../cam.toml"), s("/etc/cam.toml"), s("/xdg"), s("/home/u")),
        "/etc/cam.toml"
    );
}

#[test]
fn asked_for_file_without_canonical_form_is_used_as_given() {
    assert_eq!(parse_configpath(s("missing.toml"), None, None, None), "missing.toml");
    assert_eq!(parse_configpath(s("missing.toml"), None, s("/xdg"), s("/home/u")), "missing.toml");
}

#[test]
fn default_file_is_below_xdg_config_home() {
    assert_eq!(parse_configpath(None, None, s("/xdg"), s("/home/u")), "/xdg/roboapp/config.toml");
    assert_eq!(parse_configpath(None, None, s("/xdg/"), None), "/xdg/roboapp/config.toml");
    assert_eq!(default_config_path(s("/xdg"), None), "/xdg/roboapp/config.toml");
}

#[test]
fn default_file_is_below_home_without_xdg() {
    assert_eq!(
        parse_configpath(None, None, None, s("/home/u")),
        "/home/u/.config/roboapp/config.toml"
    );
    assert_eq!(default_config_path(None, s("/root")), "/root/.config/roboapp/config.toml");
}

#[test]
fn default_candidates_are_picked_in_order() {
    assert_eq!(choose_default(s("a"), s("b")), "a");
    assert_eq!(choose_default(s("a"), None), "a");
    assert_eq!(choose_default(None, s("b")), "b");
}

#[test]
fn destination_of_a_link() {
    assert_eq!(choose_destination("/abs".to_string(), true, None), "/abs");
    assert_eq!(choose_destination("/abs".to_string(), true, s("/dir/abs")), "/abs");
    assert_eq!(choose_destination("rel".to_string(), false, s("/dir/rel")), "/dir/rel");
    assert_eq!(choose_destination("rel".to_string(), false, None), "rel");
}

#[test]
fn links_are_followed_through_the_path_rules() {
    assert_eq!(follow_link("/dev/cam", "/dev/video0".to_string()), "/dev/video0");
    assert_eq!(follow_link("/dev/cam", "video0".to_string()), "/dev/video0");
    assert_eq!(follow_link("/dev/by-id/cam", "../video0".to_string()), "/dev/by-id/../video0");
    assert_eq!(follow_link("cam", "video0".to_string()), "video0");
    assert_eq!(follow_link("/", "video0".to_string()), "video0");
    assert_eq!(follow_link("", "video0".to_string()), "video0");
    assert_eq!(follow_link("/cam", "video0".to_string()), "/video0");
}
