use nicer::platform::Platform;
use nicer::wakelock::{
    assertion_name, assertion_type, unsupported_notice, wakelock_description, wakelock_request,
    WakelockRequest,
};

#[test]
fn description_of_a_plain_program() {
    assert_eq!(
        wakelock_description("make", 4242),
        "Hi from Rust! We're keeping your Mac awake on behalf of \"make\" (pid 4242)"
    );
}

#[test]
fn description_matches_debug_formatting_of_plain_names() {
    for (program, pid) in [("cargo", 1u32), ("/usr/bin/rsync", 65535), ("a b", 0)] {
        assert_eq!(
            wakelock_description(program, pid),
            format!(
                "Hi from Rust! We're keeping your Mac awake on behalf of {:?} (pid {})",
                program, pid
            )
        );
    }
}

#[test]
fn description_contains_name_and_pid() {
    for program in ["tar", "./build.sh", "say \"hi\"", "back\\slash", "", "ünïcode"] {
        for pid in [0u32, 9, 10, 31337, u32::MAX] {
            let details = wakelock_description(program, pid);
            assert!(details.contains(program));
            assert!(details.contains(&format!("(pid {})", pid)));
        }
    }
}

#[test]
fn description_keeps_the_name_verbatim() {
    assert_eq!(
        wakelock_description("say \"hi\"", 5),
        "Hi from Rust! We're keeping your Mac awake on behalf of \"say \"hi\"\" (pid 5)"
    );
}

#[test]
fn request_of_each_platform() {
    assert_eq!(
        wakelock_request(Platform::MacOs, "ffmpeg", 812),
        WakelockRequest::Assertion {
            details: String::from(
                "Hi from Rust! We're keeping your Mac awake on behalf of \"ffmpeg\" (pid 812)"
            ),
        }
    );
    assert_eq!(wakelock_request(Platform::Windows, "ffmpeg", 812), WakelockRequest::ExecutionState);
    assert_eq!(wakelock_request(Platform::Linux, "ffmpeg", 812), WakelockRequest::Notice);
}

#[test]
fn assertion_identity() {
    assert_eq!(assertion_type(), "PreventUserIdleSystemSleep");
    assert_eq!(assertion_name(), "nicer");
}

#[test]
fn notice_for_unsupported_platform() {
    assert_eq!(unsupported_notice(), "Linux has no caffeine, sadly.");
}
