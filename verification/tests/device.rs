use roboapp::camera::config::CameraDevice;
use roboapp::camera::device::request_format;
use roboapp::camera::device::CaptureFormat;
use roboapp::camera::device::OpenStage;
use roboapp::camera::device::PathResolutionError;
use roboapp::camera::device::PathResolver;
use roboapp::camera::device::Probe;
use roboapp::camera::device::Resolution;
use roboapp::camera::device::BUFFER_COUNT;
use roboapp::camera::device::MAX_SYMLINK_HOPS;
use roboapp::camera::device::PIXEL_FORMAT;
use roboapp::camera::distribution::CaptureError;

/// Resolves `path` against a made-up file system: `links` maps a link to
/// its target, `missing` cannot be examined, everything else is plain.
/// Returns the outcome and the number of probes made.
fn resolve(path: &str, links: &[(&str, &str)], missing: &[&str]) -> (Result<String, (PathResolutionError, String)>, usize) {
    let mut resolver = PathResolver::start(path.to_string());
    let mut probes = 0usize;
    loop {
        let here = resolver.path().to_string();
        let probe = if missing.contains(&here.as_str()) {
            Probe::Unreadable
        } else {
            match links.iter().find(|(from, _)| *from == here) {
                Some((_, to)) => Probe::Link(to.to_string()),
                None => Probe::Plain,
            }
        };
        probes += 1;
        assert!(probes <= MAX_SYMLINK_HOPS + 1);
        match resolver.step(probe) {
            Resolution::Probing(next) => resolver = next,
            Resolution::Resolved(p) => return (Ok(p), probes),
            Resolution::Failed(e, p) => return (Err((e, p)), probes),
        }
    }
}

#[test]
fn constants_of_the_device_handle() {
    assert_eq!(MAX_SYMLINK_HOPS, 10);
    assert_eq!(BUFFER_COUNT, 4);
    assert_eq!(&PIXEL_FORMAT, b"MJPG");
}

#[test]
fn direct_path_resolves_to_itself() {
    assert_eq!(resolve("/dev/video0", &[], &[]), (Ok("/dev/video0".to_string()), 1));
    assert_eq!(resolve("video0", &[], &[]), (Ok("video0".to_string()), 1));
    assert_eq!(resolve("", &[], &[]), (Ok(String::new()), 1));
}

#[test]
fn absolute_link_is_followed() {
    let links = [("/dev/cam", "/dev/video2")];
    assert_eq!(resolve("/dev/cam", &links, &[]), (Ok("/dev/video2".to_string()), 2));
}

#[test]
fn relative_link_is_taken_from_the_links_directory() {
    let links = [("/dev/v4l/by-id/usb-cam", "../../video0")];
    assert_eq!(
        resolve("/dev/v4l/by-id/usb-cam", &links, &[]),
        (Ok("/dev/v4l/by-id/../../video0".to_string()), 2)
    );
    let links = [("/dev/cam", "video1")];
    assert_eq!(resolve("/dev/cam", &links, &[]), (Ok("/dev/video1".to_string()), 2));
    let links = [("cam", "video1")];
    assert_eq!(resolve("cam", &links, &[]), (Ok("video1".to_string()), 2));
}

#[test]
fn unreadable_path_fails() {
    assert_eq!(
        resolve("/dev/video9", &[], &["/dev/video9"]),
        (Err((PathResolutionError::Unreadable, "/dev/video9".to_string())), 1)
    );
    let links = [("/dev/cam", "/dev/gone")];
    assert_eq!(
        resolve("/dev/cam", &links, &["/dev/gone"]),
        (Err((PathResolutionError::Unreadable, "/dev/gone".to_string())), 2)
    );
}

#[test]
fn unreadable_link_fails() {
    let resolver = PathResolver::start("/dev/cam".to_string());
    match resolver.step(Probe::LinkUnreadable) {
        Resolution::Failed(e, p) => {
            assert_eq!(e, PathResolutionError::LinkUnreadable);
            assert_eq!(p, "/dev/cam");
        }
        _ => panic!("a link that cannot be read ends resolution"),
    }
}

#[test]
fn chain_of_ten_links_resolves() {
    let names: Vec<String> = (0..11).map(|i| format!("/l/{}", i)).collect();
    let links: Vec<(&str, &str)> = (0..10).map(|i| (names[i].as_str(), names[i + 1].as_str())).collect();
    assert_eq!(resolve("/l/0", &links, &[]), (Ok("/l/10".to_string()), 11));
}

#[test]
fn chain_of_eleven_links_is_too_deep() {
    let names: Vec<String> = (0..12).map(|i| format!("/l/{}", i)).collect();
    let links: Vec<(&str, &str)> = (0..11).map(|i| (names[i].as_str(), names[i + 1].as_str())).collect();
    assert_eq!(
        resolve("/l/0", &links, &[]),
        (Err((PathResolutionError::TooManyHops, "/l/10".to_string())), 11)
    );
}

#[test]
fn link_loop_is_too_deep() {
    let links = [("/a", "/b"), ("/b", "/a")];
    let (outcome, probes) = resolve("/a", &links, &[]);
    assert_eq!(outcome, Err((PathResolutionError::TooManyHops, "/a".to_string())));
    assert_eq!(probes, 11);
    let links = [("/self", "self")];
    let (outcome, _) = resolve("/self", &links, &[]);
    assert_eq!(outcome, Err((PathResolutionError::TooManyHops, "/self".to_string())));
}

#[test]
fn resolver_counts_the_links_followed() {
    let resolver = PathResolver::start("/dev/cam".to_string());
    assert_eq!(resolver.followed(), 0);
    assert_eq!(resolver.path(), "/dev/cam");
    match resolver.step(Probe::Link("video3".to_string())) {
        Resolution::Probing(next) => {
            assert_eq!(next.followed(), 1);
            assert_eq!(next.path(), "/dev/video3");
        }
        _ => panic!("the first link is followed"),
    }
}

#[test]
fn requested_format_overwrites_size_and_pixel_format() {
    let slot = CameraDevice { device: "/dev/video0".to_string(), width: 640, height: 480 };
    let reported = CaptureFormat { width: 1920, height: 1080, fourcc: *b"YUYV", stride: 3840, size: 4_147_200 };
    let format = request_format(reported, &slot);
    assert_eq!(format.width, 640);
    assert_eq!(format.height, 480);
    assert_eq!(&format.fourcc, b"MJPG");
    assert_eq!(format.stride, 3840);
    assert_eq!(format.size, 4_147_200);
}

#[test]
fn each_stage_has_its_error() {
    assert_eq!(OpenStage::ResolvePath.error(), CaptureError::PathResolution);
    assert_eq!(OpenStage::OpenDevice.error(), CaptureError::DeviceOpen);
    assert_eq!(OpenStage::ReadFormat.error(), CaptureError::FormatNegotiation);
    assert_eq!(OpenStage::WriteFormat.error(), CaptureError::FormatNegotiation);
    assert_eq!(OpenStage::MapBuffers.error(), CaptureError::DeviceOpen);
}
