use device_shutdown::{
    complete_shutdown, generate_android_metadata, generate_device, generate_ios_metadata, get_device_browser,
    get_device_metadata, get_import_name, import_candidates, initialize_emulation, CatalogError, DeviceManager, EmulatedBrowser,
    PlatformType, ScreenMetrics, ShutdownState, SystemConfig,
};

const IOS_UA: &str = "Mozilla/5.0 (iPhone; CPU iPhone OS 16_0 like Mac OS X) AppleWebKit/605.1.15 (KHTML, like Gecko) Version/16.0 Mobile/15E148 Safari/604.1";
const ANDROID_UA: &str = "Mozilla/5.0 (Linux; Android 13; SM-G998B) AppleWebKit/537.36 (KHTML, like Gecko) Chrome/97.0.4692.98 Mobile Safari/537.36";

#[test]
fn user_agent_matches_profile_for_every_platform() {
    for platform in [PlatformType::IOS, PlatformType::Android] {
        let device = generate_device("d", platform);
        assert_eq!(device.metadata.user_agent, *device.browser.user_agent());
        assert_eq!(device.metadata.platform, platform);
    }
}

#[test]
fn profile_variant_follows_platform() {
    let ios = generate_device("a", PlatformType::IOS);
    assert!(matches!(ios.browser, EmulatedBrowser::Webkit(_)));
    let android = generate_device("b", PlatformType::Android);
    assert!(matches!(android.browser, EmulatedBrowser::ChromiumBased(_)));
}

#[test]
fn capability_flags_follow_platform() {
    let ios = generate_ios_metadata("x");
    assert!(ios.webview_data.webkit_flags.is_some());
    assert!(ios.webview_data.chrome_flags.is_none());
    let android = generate_android_metadata("y");
    assert!(android.webview_data.chrome_flags.is_some());
    assert!(android.webview_data.webkit_flags.is_none());
}

#[test]
fn ios_template_values() {
    let m = generate_ios_metadata("phone");
    assert_eq!(m.device_id, "phone");
    assert_eq!(m.user_agent, IOS_UA);
    assert_eq!(m.screen_metrics, ScreenMetrics { width: 390, height: 844, pixel_ratio_milli: 3000, touch_points: 5 });
    assert_eq!(m.webview_data.supported_apis, vec!["WebKit", "WebGL", "WebRTC"]);
    assert_eq!(m.hardware_info.model, "iPhone 14 Pro");
    assert_eq!(m.hardware_info.cpu_cores, 6);
    assert_eq!(m.connection_info.rtt, 50);
    assert_eq!(m.connection_info.network_type, "wifi");
}

#[test]
fn android_template_values() {
    let m = generate_android_metadata("tab");
    assert_eq!(m.user_agent, ANDROID_UA);
    assert_eq!(m.screen_metrics, ScreenMetrics { width: 412, height: 915, pixel_ratio_milli: 2625, touch_points: 5 });
    assert_eq!(m.webview_data.engine_version, "97.0.4692.98");
    assert_eq!(m.hardware_info.memory, "12GB");
    assert_eq!(m.connection_info.throughput, 2000);
}

#[test]
fn webkit_profile_values() {
    match generate_device("i", PlatformType::IOS).browser {
        EmulatedBrowser::Webkit(c) => {
            assert_eq!(c.webkit_version, "605.1.15");
            assert_eq!(c.platform_version, "iOS 11.3.1");
            assert_eq!(c.build_number, "15E148");
        },
        EmulatedBrowser::ChromiumBased(_) => panic!("expected a WebKit profile"),
    }
}

#[test]
fn chromium_profile_values() {
    match generate_device("a", PlatformType::Android).browser {
        EmulatedBrowser::ChromiumBased(c) => {
            assert_eq!(c.chrome_version, "97.0.4692.98");
            assert_eq!(c.webview_version, "97.0.4692.98");
            assert_eq!(c.build_version, "4692.98");
        },
        EmulatedBrowser::Webkit(_) => panic!("expected a Chromium profile"),
    }
}

#[test]
fn lookups_before_initialization_fail() {
    let manager = DeviceManager::new();
    assert_eq!(get_device_metadata(&manager, "ios_device").err(), Some(CatalogError::NotInitialized));
    assert_eq!(get_device_browser(&manager, "ios_device").err(), Some(CatalogError::NotInitialized));
}

#[test]
fn unknown_id_is_not_found() {
    let mut manager = DeviceManager::new();
    initialize_emulation(&mut manager).unwrap();
    assert_eq!(get_device_metadata(&manager, "missing").err(), Some(CatalogError::NotFound));
    assert_eq!(get_device_browser(&manager, "").err(), Some(CatalogError::NotFound));
}

#[test]
fn repeated_lookups_agree() {
    let mut manager = DeviceManager::new();
    initialize_emulation(&mut manager).unwrap();
    let a = get_device_metadata(&manager, "android_device").unwrap();
    let b = get_device_metadata(&manager, "android_device").unwrap();
    assert_eq!(format!("{:?}", a), format!("{:?}", b));
    assert_eq!(a.device_id, "android_device");
}

#[test]
fn second_initialization_is_refused() {
    let mut manager = DeviceManager::new();
    assert_eq!(initialize_emulation(&mut manager), Ok(()));
    assert_eq!(initialize_emulation(&mut manager), Err(CatalogError::AlreadyInitialized));
    assert_eq!(manager.create_ios_device("late"), Err(CatalogError::AlreadyInitialized));
    assert_eq!(get_device_metadata(&manager, "late").err(), Some(CatalogError::NotFound));
}

#[test]
fn extra_devices_before_initialization() {
    let mut manager = DeviceManager::new();
    manager.create_android_device("extra").unwrap();
    manager.create_ios_device("extra").unwrap();
    initialize_emulation(&mut manager).unwrap();
    let m = get_device_metadata(&manager, "extra").unwrap();
    assert_eq!(m.platform, PlatformType::IOS);
    assert!(matches!(get_device_browser(&manager, "extra").unwrap(), EmulatedBrowser::Webkit(_)));
}

#[test]
fn end_to_end_catalog_and_shutdown() {
    let mut manager = DeviceManager::new();
    initialize_emulation(&mut manager).unwrap();
    let ios = get_device_metadata(&manager, "ios_device").unwrap();
    assert_eq!(ios.platform, PlatformType::IOS);
    assert_eq!(ios.screen_metrics.width, 390);
    assert_eq!(ios.screen_metrics.height, 844);
    assert!(matches!(get_device_browser(&manager, "android_device").unwrap(), EmulatedBrowser::ChromiumBased(_)));

    let mut config = SystemConfig::new();
    assert_eq!(config.shutdown_state(), ShutdownState::Running);
    config.request_shutdown().unwrap();
    assert_eq!(config.shutdown_state(), ShutdownState::ShuttingDown);
    complete_shutdown(&mut config, Ok(0)).unwrap();
    assert_eq!(config.shutdown_state(), ShutdownState::Completed);
}

#[test]
fn launch_arguments_carry_user_agent_and_flags() {
    let device = generate_device("a", PlatformType::Android);
    let args = device.browser.launch_arguments();
    assert_eq!(args.len(), 15);
    assert_eq!(args[0], format!("--user-agent={}", ANDROID_UA));
    assert_eq!(args[1], "--disable-background-networking");
    assert_eq!(args[10], "--disable-features=AudioServiceOutOfProcess");
    assert_eq!(args[14], "--metrics-recording-only");
    let ios_args = generate_device("b", PlatformType::IOS).browser.launch_arguments();
    assert_eq!(ios_args[0], format!("--user-agent={}", IOS_UA));
    assert_eq!(ios_args[1..], args[1..]);
}

#[test]
fn import_names() {
    assert_eq!(get_import_name("python-dotenv"), "dotenv");
    assert_eq!(get_import_name("beautifulsoup4"), "bs4");
    assert_eq!(get_import_name("opentelemetry-semantic-conventions"), "opentelemetry.semantic_conventions");
    assert_eq!(get_import_name("opencv-python"), "cv2");
    assert_eq!(get_import_name("wrapt"), "wrapt");
    assert_eq!(get_import_name("requests"), "requests");
    assert_eq!(get_import_name(""), "");
}

#[test]
fn catalog_error_messages() {
    assert_eq!(CatalogError::NotFound.message(), "Device not found");
    assert_eq!(CatalogError::NotInitialized.message(), "Device manager not initialized");
}

#[test]
fn import_candidate_order() {
    assert_eq!(import_candidates("python-dotenv"), vec!["dotenv", "python-dotenv", "python_dotenv"]);
    assert_eq!(import_candidates("requests"), vec!["requests", "requests"]);
    assert_eq!(import_candidates("my-lib"), vec!["my-lib", "my-lib", "my_lib"]);
    assert_eq!(import_candidates("opencv-python"), vec!["cv2", "opencv-python", "opencv_python"]);
}

#[test]
fn builder_error_keeps_its_message() {
    let r = device_shutdown::launch_config_outcome(Err::<chromiumoxide::BrowserConfig, String>(
        "no browser here".to_string(),
    ));
    match r {
        Err(e) => assert_eq!(e.message, "no browser here"),
        Ok(_) => panic!("a refusal must stay a refusal"),
    }
}

#[test]
fn browser_config_fails_only_without_executable() {
    let device = generate_device("cfg", PlatformType::IOS);
    if let Err(e) = device.browser.get_browser_config(390, 844) {
        assert_eq!(e.message, "Could not auto detect a chrome executable");
    }
}
