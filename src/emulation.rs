use vstd::prelude::*;

use crate::errors::{CatalogError, ConfigBuildError};

verus! {

/// Mobile platform that a device identity imitates.
#[derive(Debug, Clone, Copy, PartialEq, Eq, Structural)]
pub enum PlatformType {
    IOS,
    Android,
}

/// Screen geometry; the pixel ratio is kept in thousandths (3.0 is 3000).
#[derive(Debug, Clone, Copy, PartialEq, Eq, Structural)]
pub struct ScreenMetrics {
    pub width: u32,
    pub height: u32,
    pub pixel_ratio_milli: u32,
    pub touch_points: u8,
}

/// Capability flags of a WebKit web view.
#[derive(Debug, Clone, Copy, PartialEq, Eq, Structural)]
pub struct WebKitFlags {
    pub enable_inspect: bool,
    pub enable_remote_debugging: bool,
    pub force_webkit_views: bool,
}

/// Capability flags of a Chrome web view.
#[derive(Debug, Clone, Copy, PartialEq, Eq, Structural)]
pub struct ChromeFlags {
    pub enable_automation: bool,
    pub disable_web_security: bool,
    pub ignore_certificate_errors: bool,
}

#[derive(Debug)]
pub struct WebViewData {
    pub engine_version: String,
    pub supported_apis: Vec<String>,
    pub webkit_flags: Option<WebKitFlags>,
    pub chrome_flags: Option<ChromeFlags>,
}

#[derive(Debug)]
pub struct HardwareInfo {
    pub model: String,
    pub platform_version: String,
    pub memory: String,
    pub cpu_cores: u8,
    pub gpu_renderer: String,
}

#[derive(Debug)]
pub struct ConnectionInfo {
    pub network_type: String,
    pub bandwidth: String,
    pub rtt: u32,
    pub throughput: u32,
}

/// Everything a device identity presents to a web page.
#[derive(Debug)]
pub struct DeviceMetadata {
    pub device_id: String,
    pub platform: PlatformType,
    pub user_agent: String,
    pub app_version: String,
    pub screen_metrics: ScreenMetrics,
    pub language: String,
    pub lang_code: String,
    pub timezone: String,
    pub webview_data: WebViewData,
    pub hardware_info: HardwareInfo,
    pub connection_info: ConnectionInfo,
}

#[derive(Debug)]
pub struct WebKitConfig {
    pub user_agent: String,
    pub webkit_version: String,
    pub platform_version: String,
    pub build_number: String,
}

#[derive(Debug)]
pub struct ChromiumConfig {
    pub user_agent: String,
    pub chrome_version: String,
    pub webview_version: String,
    pub build_version: String,
}

/// Browser launch profile of a device: WebKit for iOS, Chromium for Android.
#[derive(Debug)]
pub enum EmulatedBrowser {
    Webkit(WebKitConfig),
    ChromiumBased(ChromiumConfig),
}

/// A device identity together with its launch profile.
#[derive(Debug)]
pub struct EmulatedDevice {
    pub metadata: DeviceMetadata,
    pub browser: EmulatedBrowser,
}

impl DeviceMetadata {
    /// Exactly one kind of capability flags is present, the one of the platform.
    pub open spec fn flags_match_platform(&self) -> bool {
        &&& (self.platform == PlatformType::IOS) <==> (self.webview_data.webkit_flags is Some
            && self.webview_data.chrome_flags is None)
        &&& (self.platform == PlatformType::Android) <==> (self.webview_data.chrome_flags is Some
            && self.webview_data.webkit_flags is None)
    }
}

impl EmulatedBrowser {
    pub open spec fn spec_user_agent(&self) -> Seq<char> {
        match self {
            EmulatedBrowser::Webkit(c) => c.user_agent@,
            EmulatedBrowser::ChromiumBased(c) => c.user_agent@,
        }
    }

    /// The user agent the browser is launched with.
    pub fn user_agent(&self) -> (r: &String)
        ensures
            r@ == self.spec_user_agent(),
    {
        match self {
            EmulatedBrowser::Webkit(c) => &c.user_agent,
            EmulatedBrowser::ChromiumBased(c) => &c.user_agent,
        }
    }
}

impl EmulatedDevice {
    /// The identity and its profile agree: same user agent, flags and
    /// profile variant chosen by the platform.
    pub open spec fn consistent(&self) -> bool {
        &&& self.metadata.flags_match_platform()
        &&& self.browser.spec_user_agent() == self.metadata.user_agent@
        &&& (self.metadata.platform == PlatformType::IOS) <==> (self.browser is Webkit)
    }
}

pub open spec fn ios_user_agent() -> Seq<char> {
    "Mozilla/5.0 (iPhone; CPU iPhone OS 16_0 like Mac OS X) AppleWebKit/605.1.15 (KHTML, like Gecko) Version/16.0 Mobile/15E148 Safari/604.1"@
}

pub open spec fn android_user_agent() -> Seq<char> {
    "Mozilla/5.0 (Linux; Android 13; SM-G998B) AppleWebKit/537.36 (KHTML, like Gecko) Chrome/97.0.4692.98 Mobile Safari/537.36"@
}

/// The iOS template: an iPhone 14 Pro on Wi-Fi.
pub open spec fn is_ios_metadata(m: DeviceMetadata, device_id: Seq<char>) -> bool {
    &&& m.device_id@ == device_id
    &&& m.platform == PlatformType::IOS
    &&& m.app_version@ == "11.3.1"@
    &&& m.user_agent@ == ios_user_agent()
    &&& m.screen_metrics == ScreenMetrics {
        width: 390,
        height: 844,
        pixel_ratio_milli: 3000,
        touch_points: 5,
    }
    &&& m.language@ == "en-US"@
    &&& m.lang_code@ == "en"@
    &&& m.timezone@ == "UTC"@
    &&& m.webview_data.engine_version@ == "605.1.15"@
    &&& m.webview_data.supported_apis@.map_values(|s: String| s@) == seq![
        "WebKit"@,
        "WebGL"@,
        "WebRTC"@,
    ]
    &&& m.webview_data.webkit_flags == Some(
        WebKitFlags { enable_inspect: false, enable_remote_debugging: false, force_webkit_views: false },
    )
    &&& m.webview_data.chrome_flags is None
    &&& m.hardware_info.model@ == "iPhone 14 Pro"@
    &&& m.hardware_info.platform_version@ == "iOS 11.3.1"@
    &&& m.hardware_info.memory@ == "6GB"@
    &&& m.hardware_info.cpu_cores == 6
    &&& m.hardware_info.gpu_renderer@ == "Apple GPU"@
    &&& m.connection_info.network_type@ == "wifi"@
    &&& m.connection_info.bandwidth@ == "10mbps"@
    &&& m.connection_info.rtt == 50
    &&& m.connection_info.throughput == 1000
}

/// The Android template: a Samsung Galaxy S21 Ultra on 5G.
pub open spec fn is_android_metadata(m: DeviceMetadata, device_id: Seq<char>) -> bool {
    &&& m.device_id@ == device_id
    &&& m.platform == PlatformType::Android
    &&& m.app_version@ == "11.3.1"@
    &&& m.user_agent@ == android_user_agent()
    &&& m.screen_metrics == ScreenMetrics {
        width: 412,
        height: 915,
        pixel_ratio_milli: 2625,
        touch_points: 5,
    }
    &&& m.language@ == "en-US"@
    &&& m.lang_code@ == "en"@
    &&& m.timezone@ == "UTC"@
    &&& m.webview_data.engine_version@ == "97.0.4692.98"@
    &&& m.webview_data.supported_apis@.map_values(|s: String| s@) == seq![
        "WebView"@,
        "WebGL"@,
        "WebRTC"@,
    ]
    &&& m.webview_data.webkit_flags is None
    &&& m.webview_data.chrome_flags == Some(
        ChromeFlags { enable_automation: false, disable_web_security: false, ignore_certificate_errors: false },
    )
    &&& m.hardware_info.model@ == "Samsung Galaxy S21 Ultra"@
    &&& m.hardware_info.platform_version@ == "Android 13"@
    &&& m.hardware_info.memory@ == "12GB"@
    &&& m.hardware_info.cpu_cores == 8
    &&& m.hardware_info.gpu_renderer@ == "Adreno 660"@
    &&& m.connection_info.network_type@ == "5g"@
    &&& m.connection_info.bandwidth@ == "20mbps"@
    &&& m.connection_info.rtt == 30
    &&& m.connection_info.throughput == 2000
}

/// The device that the factory makes for `device_id` on `platform`.
pub open spec fn is_generated_device(d: EmulatedDevice, device_id: Seq<char>, platform: PlatformType) -> bool {
    match platform {
        PlatformType::IOS => {
            &&& is_ios_metadata(d.metadata, device_id)
            &&& d.browser matches EmulatedBrowser::Webkit(c)
            &&& c.user_agent@ == ios_user_agent()
            &&& c.webkit_version@ == "605.1.15"@
            &&& c.platform_version@ == "iOS 11.3.1"@
            &&& c.build_number@ == "15E148"@
        },
        PlatformType::Android => {
            &&& is_android_metadata(d.metadata, device_id)
            &&& d.browser matches EmulatedBrowser::ChromiumBased(c)
            &&& c.user_agent@ == android_user_agent()
            &&& c.chrome_version@ == "97.0.4692.98"@
            &&& c.webview_version@ == "97.0.4692.98"@
            &&& c.build_version@ == "4692.98"@
        },
    }
}

/// An owned copy of `s`.
pub(crate) fn text(s: &str) -> (r: String)
    ensures
        r@ == s@,
{
    String::from_str(s)
}

fn three_apis(a: &str, b: &str, c: &str) -> (r: Vec<String>)
    ensures
        r@.map_values(|s: String| s@) == seq![a@, b@, c@],
{
    let mut v: Vec<String> = Vec::new();
    v.push(text(a));
    v.push(text(b));
    v.push(text(c));
    assert(v@.map_values(|s: String| s@) =~= seq![a@, b@, c@]);
    v
}

/// Identity of an iPhone for `device_id`.
pub fn generate_ios_metadata(device_id: &str) -> (r: DeviceMetadata)
    ensures
        is_ios_metadata(r, device_id@),
        r.flags_match_platform(),
{
    DeviceMetadata {
        device_id: text(device_id),
        platform: PlatformType::IOS,
        app_version: text("11.3.1"),
        user_agent: text(
            "Mozilla/5.0 (iPhone; CPU iPhone OS 16_0 like Mac OS X) AppleWebKit/605.1.15 (KHTML, like Gecko) Version/16.0 Mobile/15E148 Safari/604.1",
        ),
        screen_metrics: ScreenMetrics { width: 390, height: 844, pixel_ratio_milli: 3000, touch_points: 5 },
        language: text("en-US"),
        lang_code: text("en"),
        timezone: text("UTC"),
        webview_data: WebViewData {
            engine_version: text("605.1.15"),
            supported_apis: three_apis("WebKit", "WebGL", "WebRTC"),
            webkit_flags: Some(
                WebKitFlags { enable_inspect: false, enable_remote_debugging: false, force_webkit_views: false },
            ),
            chrome_flags: None,
        },
        hardware_info: HardwareInfo {
            model: text("iPhone 14 Pro"),
            platform_version: text("iOS 11.3.1"),
            memory: text("6GB"),
            cpu_cores: 6,
            gpu_renderer: text("Apple GPU"),
        },
        connection_info: ConnectionInfo {
            network_type: text("wifi"),
            bandwidth: text("10mbps"),
            rtt: 50,
            throughput: 1000,
        },
    }
}

/// Identity of an Android phone for `device_id`.
pub fn generate_android_metadata(device_id: &str) -> (r: DeviceMetadata)
    ensures
        is_android_metadata(r, device_id@),
        r.flags_match_platform(),
{
    DeviceMetadata {
        device_id: text(device_id),
        platform: PlatformType::Android,
        app_version: text("11.3.1"),
        user_agent: text(
            "Mozilla/5.0 (Linux; Android 13; SM-G998B) AppleWebKit/537.36 (KHTML, like Gecko) Chrome/97.0.4692.98 Mobile Safari/537.36",
        ),
        screen_metrics: ScreenMetrics { width: 412, height: 915, pixel_ratio_milli: 2625, touch_points: 5 },
        language: text("en-US"),
        lang_code: text("en"),
        timezone: text("UTC"),
        webview_data: WebViewData {
            engine_version: text("97.0.4692.98"),
            supported_apis: three_apis("WebView", "WebGL", "WebRTC"),
            webkit_flags: None,
            chrome_flags: Some(
                ChromeFlags { enable_automation: false, disable_web_security: false, ignore_certificate_errors: false },
            ),
        },
        hardware_info: HardwareInfo {
            model: text("Samsung Galaxy S21 Ultra"),
            platform_version: text("Android 13"),
            memory: text("12GB"),
            cpu_cores: 8,
            gpu_renderer: text("Adreno 660"),
        },
        connection_info: ConnectionInfo {
            network_type: text("5g"),
            bandwidth: text("20mbps"),
            rtt: 30,
            throughput: 2000,
        },
    }
}

/// Identity and matching launch profile for `device_id` on `platform`.
pub fn generate_device(device_id: &str, platform: PlatformType) -> (r: EmulatedDevice)
    ensures
        is_generated_device(r, device_id@, platform),
        r.consistent(),
        r.metadata.device_id@ == device_id@,
        r.metadata.platform == platform,
{
    match platform {
        PlatformType::IOS => {
            let metadata = generate_ios_metadata(device_id);
            let browser = EmulatedBrowser::Webkit(
                WebKitConfig {
                    user_agent: metadata.user_agent.clone(),
                    webkit_version: text("605.1.15"),
                    platform_version: metadata.hardware_info.platform_version.clone(),
                    build_number: text("15E148"),
                },
            );
            EmulatedDevice { metadata, browser }
        },
        PlatformType::Android => {
            let metadata = generate_android_metadata(device_id);
            let browser = EmulatedBrowser::ChromiumBased(
                ChromiumConfig {
                    user_agent: metadata.user_agent.clone(),
                    chrome_version: text("97.0.4692.98"),
                    webview_version: metadata.webview_data.engine_version.clone(),
                    build_version: text("4692.98"),
                },
            );
            EmulatedDevice { metadata, browser }
        },
    }
}

/// The factory's user agent is the same in the identity and in its launch
/// profile, and the profile variant and capability flags follow the platform.
pub proof fn lemma_generated_device_consistent(d: EmulatedDevice, device_id: Seq<char>, platform: PlatformType)
    requires
        is_generated_device(d, device_id, platform),
    ensures
        d.consistent(),
        d.metadata.user_agent@ == d.browser.spec_user_agent(),
        (d.metadata.platform == PlatformType::IOS) <==> (d.metadata.webview_data.webkit_flags is Some
            && d.metadata.webview_data.chrome_flags is None),
        (d.metadata.platform == PlatformType::Android) <==> (d.metadata.webview_data.chrome_flags is Some
            && d.metadata.webview_data.webkit_flags is None),
{
}

/// The catalog of emulated devices, keyed by device id.
///
/// Devices are added while the catalog is being set up; once
/// `initialize_emulation` has run it is only read.
#[derive(Debug)]
pub struct DeviceManager {
    devices: Vec<EmulatedDevice>,
    initialized: bool,
}

impl DeviceManager {
    pub closed spec fn entries(&self) -> Seq<EmulatedDevice> {
        self.devices@
    }

    pub closed spec fn is_initialized(&self) -> bool {
        self.initialized
    }

    /// Device ids are unique and every device is consistent.
    pub open spec fn wf(&self) -> bool {
        &&& forall|i: int, j: int|
            0 <= i < self.entries().len() && 0 <= j < self.entries().len() && i != j
                ==> #[trigger] self.entries()[i].metadata.device_id@
                != #[trigger] self.entries()[j].metadata.device_id@
        &&& forall|i: int| 0 <= i < self.entries().len() ==> #[trigger] self.entries()[i].consistent()
    }

    pub open spec fn contains(&self, device_id: Seq<char>) -> bool {
        exists|i: int| 0 <= i < self.entries().len() && #[trigger] self.entries()[i].metadata.device_id@ == device_id
    }

    /// The device stored under `device_id`, if any.
    pub open spec fn device(&self, device_id: Seq<char>) -> EmulatedDevice
        recommends
            self.contains(device_id),
    {
        let i = choose|i: int| 0 <= i < self.entries().len() && #[trigger] self.entries()[i].metadata.device_id@ == device_id;
        self.entries()[i]
    }

    /// Apart from `device_id`, both catalogs hold the same devices.
    pub open spec fn agrees_except(&self, other: &Self, device_id: Seq<char>) -> bool {
        forall|id: Seq<char>| id != device_id ==> (#[trigger] self.contains(id) == other.contains(id)
            && (other.contains(id) ==> self.device(id) == other.device(id)))
    }

    /// What a lookup of `device_id` finds.
    pub open spec fn lookup(&self, device_id: Seq<char>) -> Result<EmulatedDevice, CatalogError> {
        if !self.is_initialized() {
            Err(CatalogError::NotInitialized)
        } else if !self.contains(device_id) {
            Err(CatalogError::NotFound)
        } else {
            Ok(self.device(device_id))
        }
    }

    pub fn new() -> (r: Self)
        ensures
            r.wf(),
            !r.is_initialized(),
            r.entries().len() == 0,
    {
        DeviceManager { devices: Vec::new(), initialized: false }
    }

    /// Position of `device_id` in the catalog, if it is there.
    fn position(&self, device_id: &str) -> (r: Option<usize>)
        requires
            self.wf(),
        ensures
            match r {
                Some(i) => i < self.entries().len() && self.entries()[i as int].metadata.device_id@ == device_id@,
                None => !self.contains(device_id@),
            },
    {
        let key = text(device_id);
        let mut i: usize = 0;
        while i < self.devices.len()
            invariant
                i <= self.devices@.len(),
                key@ == device_id@,
                forall|k: int| 0 <= k < i ==> #[trigger] self.devices@[k].metadata.device_id@ != device_id@,
            decreases self.devices@.len() - i,
        {
            if self.devices[i].metadata.device_id == key {
                return Some(i);
            }
            i = i + 1;
        }
        None
    }

    /// Stores `device`, replacing a device with the same id.
    fn store(&mut self, device: EmulatedDevice)
        requires
            old(self).wf(),
            device.consistent(),
        ensures
            final(self).wf(),
            final(self).is_initialized() == old(self).is_initialized(),
            final(self).contains(device.metadata.device_id@),
            final(self).device(device.metadata.device_id@) == device,
            final(self).agrees_except(old(self), device.metadata.device_id@),
    {
        let ghost id = device.metadata.device_id@;
        let found = self.position(device.metadata.device_id.as_str());
        match found {
            Some(i) => {
                self.devices.set(i, device);
            },
            None => {
                self.devices.push(device);
            },
        }
        let ghost k = match found { Some(i) => i as int, None => self.devices@.len() - 1 };
        assert(self.entries()[k].metadata.device_id@ == id);
        assert forall|id2: Seq<char>| id2 != id implies (#[trigger] self.contains(id2) == old(self).contains(id2)
            && (old(self).contains(id2) ==> self.device(id2) == old(self).device(id2))) by {
            if old(self).contains(id2) {
                let j = choose|j: int| 0 <= j < old(self).entries().len() && #[trigger] old(self).entries()[j].metadata.device_id@ == id2;
                assert(j != k);
                assert(self.entries()[j] == old(self).entries()[j]);
                assert(self.contains(id2));
                let j2 = choose|j: int| 0 <= j < self.entries().len() && #[trigger] self.entries()[j].metadata.device_id@ == id2;
                assert(j2 == j);
            }
            if self.contains(id2) {
                let j = choose|j: int| 0 <= j < self.entries().len() && #[trigger] self.entries()[j].metadata.device_id@ == id2;
                assert(j != k);
                assert(old(self).entries()[j] == self.entries()[j]);
            }
        }
        assert(self.agrees_except(old(self), id));
    }

    /// The device stored under `device_id`, or why there is none.
    fn find(&self, device_id: &str) -> (r: Result<&EmulatedDevice, CatalogError>)
        requires
            self.wf(),
        ensures
            match r {
                Ok(d) => self.lookup(device_id@) == Ok::<EmulatedDevice, CatalogError>(*d)
                    && self.device(device_id@) == *d && d.metadata.device_id@ == device_id@ && d.consistent(),
                Err(e) => self.lookup(device_id@) == Err::<EmulatedDevice, CatalogError>(e),
            },
    {
        if !self.initialized {
            return Err(CatalogError::NotInitialized);
        }
        match self.position(device_id) {
            Some(i) => {
                let d = &self.devices[i];
                proof {
                    let j = choose|j: int| 0 <= j < self.entries().len() && #[trigger] self.entries()[j].metadata.device_id@ == device_id@;
                    assert(j == i);
                }
                Ok(d)
            },
            None => Err(CatalogError::NotFound),
        }
    }

    /// Adds an iPhone identity under `device_id`; refused once the catalog
    /// has been initialized.
    pub fn create_ios_device(&mut self, device_id: &str) -> (r: Result<(), CatalogError>)
        requires
            old(self).wf(),
        ensures
            final(self).wf(),
            final(self).is_initialized() == old(self).is_initialized(),
            old(self).is_initialized() ==> r == Err::<(), CatalogError>(CatalogError::AlreadyInitialized)
                && *final(self) == *old(self),
            !old(self).is_initialized() ==> r is Ok && final(self).contains(device_id@)
                && is_generated_device(final(self).device(device_id@), device_id@, PlatformType::IOS),
            final(self).agrees_except(old(self), device_id@),
    {
        if self.initialized {
            return Err(CatalogError::AlreadyInitialized);
        }
        let device = generate_device(device_id, PlatformType::IOS);
        self.store(device);
        Ok(())
    }

    /// Adds an Android identity under `device_id`; refused once the catalog
    /// has been initialized.
    pub fn create_android_device(&mut self, device_id: &str) -> (r: Result<(), CatalogError>)
        requires
            old(self).wf(),
        ensures
            final(self).wf(),
            final(self).is_initialized() == old(self).is_initialized(),
            old(self).is_initialized() ==> r == Err::<(), CatalogError>(CatalogError::AlreadyInitialized)
                && *final(self) == *old(self),
            !old(self).is_initialized() ==> r is Ok && final(self).contains(device_id@)
                && is_generated_device(final(self).device(device_id@), device_id@, PlatformType::Android),
            final(self).agrees_except(old(self), device_id@),
    {
        if self.initialized {
            return Err(CatalogError::AlreadyInitialized);
        }
        let device = generate_device(device_id, PlatformType::Android);
        self.store(device);
        Ok(())
    }
}

/// Metadata of the device stored under `device_id`.
pub fn get_device_metadata<'a>(manager: &'a DeviceManager, device_id: &str) -> (r: Result<&'a DeviceMetadata, CatalogError>)
    requires
        manager.wf(),
    ensures
        match r {
            Ok(m) => manager.lookup(device_id@) == Ok::<EmulatedDevice, CatalogError>(manager.device(device_id@))
                && *m == manager.device(device_id@).metadata,
            Err(e) => manager.lookup(device_id@) == Err::<EmulatedDevice, CatalogError>(e),
        },
        r matches Ok(m) ==> m.device_id@ == device_id@ && m.flags_match_platform(),
{
    match manager.find(device_id) {
        Ok(d) => Ok(&d.metadata),
        Err(e) => Err(e),
    }
}

/// Launch profile of the device stored under `device_id`.
pub fn get_device_browser<'a>(manager: &'a DeviceManager, device_id: &str) -> (r: Result<&'a EmulatedBrowser, CatalogError>)
    requires
        manager.wf(),
    ensures
        match r {
            Ok(b) => manager.lookup(device_id@) == Ok::<EmulatedDevice, CatalogError>(manager.device(device_id@))
                && *b == manager.device(device_id@).browser,
            Err(e) => manager.lookup(device_id@) == Err::<EmulatedDevice, CatalogError>(e),
        },
{
    match manager.find(device_id) {
        Ok(d) => Ok(&d.browser),
        Err(e) => Err(e),
    }
}

/// Fills the catalog with an iPhone under `"ios_device"` and an Android
/// phone under `"android_device"`, then closes it to further additions.
pub fn initialize_emulation(manager: &mut DeviceManager) -> (r: Result<(), CatalogError>)
    requires
        old(manager).wf(),
    ensures
        final(manager).wf(),
        old(manager).is_initialized() ==> r == Err::<(), CatalogError>(CatalogError::AlreadyInitialized)
            && *final(manager) == *old(manager),
        !old(manager).is_initialized() ==> {
            &&& r is Ok
            &&& final(manager).is_initialized()
            &&& final(manager).contains("ios_device"@)
            &&& is_generated_device(final(manager).device("ios_device"@), "ios_device"@, PlatformType::IOS)
            &&& final(manager).contains("android_device"@)
            &&& is_generated_device(final(manager).device("android_device"@), "android_device"@, PlatformType::Android)
            &&& forall|id: Seq<char>| id != "ios_device"@ && id != "android_device"@ ==> (
                #[trigger] final(manager).contains(id) == old(manager).contains(id)
                && (old(manager).contains(id) ==> final(manager).device(id) == old(manager).device(id)))
        },
{
    if manager.initialized {
        return Err(CatalogError::AlreadyInitialized);
    }
    proof {
        reveal_strlit("ios_device");
        reveal_strlit("android_device");
    }
    let ghost m0 = *manager;
    let _ = manager.create_ios_device("ios_device");
    let ghost m1 = *manager;
    let _ = manager.create_android_device("android_device");
    assert("ios_device"@ != "android_device"@) by {
        assert("ios_device"@[0] != "android_device"@[0]);
    }
    assert forall|id: Seq<char>| id != "ios_device"@ && id != "android_device"@ implies (
        #[trigger] manager.contains(id) == m0.contains(id)
        && (m0.contains(id) ==> manager.device(id) == m0.device(id))) by {
        assert(m1.contains(id) == m0.contains(id));
        assert(manager.contains(id) == m1.contains(id));
    }
    let ghost m2 = *manager;
    assert(m2.contains("ios_device"@));
    manager.initialized = true;
    assert(manager.entries() == m2.entries());
    assert(manager.contains("ios_device"@) == m2.contains("ios_device"@));
    assert(manager.contains("android_device"@) == m2.contains("android_device"@));
    assert(manager.agrees_except(&m2, "android_device"@));
    Ok(())
}

/// Flags that every launch carries: no background throttling, extensions,
/// crash reporting or telemetry.
pub open spec fn hardening_flags() -> Seq<Seq<char>> {
    seq![
        "--disable-background-networking"@,
        "--disable-background-timer-throttling"@,
        "--disable-backgrounding-occluded-windows"@,
        "--disable-breakpad"@,
        "--disable-component-update"@,
        "--disable-default-apps"@,
        "--disable-dev-shm-usage"@,
        "--disable-domain-reliability"@,
        "--disable-extensions"@,
        "--disable-features=AudioServiceOutOfProcess"@,
        "--disable-hang-monitor"@,
        "--disable-ipc-flooding-protection"@,
        "--force-webview"@,
        "--metrics-recording-only"@,
    ]
}

/// Launch arguments for a browser with user agent `user_agent`.
pub open spec fn launch_args_of(user_agent: Seq<char>) -> Seq<Seq<char>> {
    seq!["--user-agent="@ + user_agent] + hardening_flags()
}

#[verifier::external_type_specification]
#[verifier::external_body]
pub struct ExBrowserConfig(chromiumoxide::BrowserConfig);

/// The message with which chromiumoxide's `build` reports that it found no
/// browser executable.
pub open spec fn no_executable_message() -> Seq<char> {
    "Could not auto detect a chrome executable"@
}

/// Relies on chromiumoxide's `BrowserConfig::builder()`, `window_size`, `args`
/// and `build`. `build` looks for a browser executable on this machine, so
/// success is not promised; its only failure is finding none, which it
/// reports with a fixed message.
#[verifier::external_body]
fn build_browser_config(width: u32, height: u32, args: &Vec<String>) -> (r: Result<chromiumoxide::BrowserConfig, String>)
    ensures
        r matches Err(m) ==> m@ == no_executable_message(),
{
    chromiumoxide::BrowserConfig::builder().window_size(width, height).args(args.iter().cloned()).build()
}

impl EmulatedBrowser {
    /// The command line arguments the browser is launched with: the user
    /// agent override followed by the hardening flags, the same for both
    /// profile variants.
    pub fn launch_arguments(&self) -> (r: Vec<String>)
        ensures
            r@.map_values(|a: String| a@) == launch_args_of(self.spec_user_agent()),
    {
        let mut user_agent_arg = text("--user-agent=");
        user_agent_arg.append(self.user_agent().as_str());
        let mut args: Vec<String> = Vec::new();
        args.push(user_agent_arg);
        args.push(text("--disable-background-networking"));
        args.push(text("--disable-background-timer-throttling"));
        args.push(text("--disable-backgrounding-occluded-windows"));
        args.push(text("--disable-breakpad"));
        args.push(text("--disable-component-update"));
        args.push(text("--disable-default-apps"));
        args.push(text("--disable-dev-shm-usage"));
        args.push(text("--disable-domain-reliability"));
        args.push(text("--disable-extensions"));
        args.push(text("--disable-features=AudioServiceOutOfProcess"));
        args.push(text("--disable-hang-monitor"));
        args.push(text("--disable-ipc-flooding-protection"));
        args.push(text("--force-webview"));
        args.push(text("--metrics-recording-only"));
        assert(args@.map_values(|a: String| a@) =~= launch_args_of(self.spec_user_agent()));
        args
    }

    /// A launch configuration with the given window size and the arguments
    /// of `launch_arguments`.
    /// It fails only when no browser executable can be found on this machine.
    pub fn get_browser_config(&self, width: u32, height: u32) -> (r: Result<chromiumoxide::BrowserConfig, ConfigBuildError>)
        ensures
            r matches Err(e) ==> e.message@ == no_executable_message(),
    {
        let args = self.launch_arguments();
        launch_config_outcome(build_browser_config(width, height, &args))
    }
}

/// Turns the builder's verdict into this library's result: a built
/// configuration is handed back as it is, a refusal keeps the builder's
/// message.
pub fn launch_config_outcome(built: Result<chromiumoxide::BrowserConfig, String>) -> (r: Result<chromiumoxide::BrowserConfig, ConfigBuildError>)
    ensures
        built is Ok <==> r is Ok,
        built matches Ok(c) ==> r matches Ok(c2) && c2 == c,
        built matches Err(m) ==> r matches Err(e) && e.message@ == m@,
{
    match built {
        Ok(config) => Ok(config),
        Err(message) => Err(ConfigBuildError { message }),
    }
}

/// Before initialization every lookup fails with `NotInitialized`; after it,
/// an unknown id fails with `NotFound` and a known id always yields the one
/// consistent device stored under it.
pub proof fn lemma_catalog_lookups(manager: DeviceManager, device_id: Seq<char>)
    requires
        manager.wf(),
    ensures
        !manager.is_initialized() ==> manager.lookup(device_id) == Err::<EmulatedDevice, CatalogError>(
            CatalogError::NotInitialized,
        ),
        manager.is_initialized() && !manager.contains(device_id) ==> manager.lookup(device_id) == Err::<
            EmulatedDevice,
            CatalogError,
        >(CatalogError::NotFound),
        manager.is_initialized() && manager.contains(device_id) ==> {
            &&& manager.lookup(device_id) == Ok::<EmulatedDevice, CatalogError>(manager.device(device_id))
            &&& manager.device(device_id).metadata.device_id@ == device_id
            &&& manager.device(device_id).consistent()
        },
{
    if manager.contains(device_id) {
        let i = choose|i: int| 0 <= i < manager.entries().len() && #[trigger] manager.entries()[i].metadata.device_id@ == device_id;
        assert(manager.entries()[i].consistent());
    }
}

} // verus!
