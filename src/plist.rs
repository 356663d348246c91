//! Property lists that describe a packaged framework bundle.

use vstd::prelude::*;

verus! {
pub const ARCH_HEAD: &'static str = r#"<?xml version="1.0" encoding="UTF-8"?>
<!DOCTYPE plist PUBLIC "-//Apple//DTD PLIST 1.0//EN" "http://www.apple.com/DTDs/PropertyList-1.0.dtd">
<plist version="1.0">
<dict>
    <key>CFBundleExecutable</key>
    <string>"#;

pub const ARCH_AFTER_EXECUTABLE: &'static str = r#"</string>
    <key>CFBundleIdentifier</key>
    <string>com.spacedrive.mdns-peer</string>
    <key>CFBundleName</key>
    <string>"#;

pub const ARCH_AFTER_NAME: &'static str = r#"</string>
    <key>CFBundlePackageType</key>
    <string>FMWK</string>
    <key>CFBundleShortVersionString</key>
    <string>1.0</string>
    <key>CFBundleVersion</key>
    <string>1</string>
    <key>CFBundleSupportedPlatforms</key>
    <array>
        <string>"#;

pub const ARCH_TAIL: &'static str = r#"</string>
    </array>
    <key>MinimumOSVersion</key>
    <string>14.0</string>
</dict>
</plist>
"#;

pub const BUNDLE_HEAD: &'static str = r#"<?xml version="1.0" encoding="UTF-8"?>
<!DOCTYPE plist PUBLIC "-//Apple//DTD PLIST 1.0//EN" "http://www.apple.com/DTDs/PropertyList-1.0.dtd">
<plist version="1.0">
<dict>
    <key>AvailableLibraries</key>
    <array>
        <dict>
            <key>LibraryIdentifier</key>
            <string>ios-arm64</string>
            <key>LibraryPath</key>
            <string>"#;

pub const BUNDLE_BETWEEN_PATHS: &'static str = r#".a</string>
            <key>SupportedArchitectures</key>
            <array>
                <string>arm64</string>
            </array>
            <key>SupportedPlatform</key>
            <string>ios</string>
        </dict>
        <dict>
            <key>LibraryIdentifier</key>
            <string>ios-arm64-simulator</string>
            <key>LibraryPath</key>
            <string>"#;

pub const BUNDLE_TAIL: &'static str = r#".a</string>
            <key>SupportedArchitectures</key>
            <array>
                <string>arm64</string>
            </array>
            <key>SupportedPlatform</key>
            <string>ios</string>
            <key>SupportedPlatformVariant</key>
            <string>simulator</string>
        </dict>
    </array>
    <key>CFBundlePackageType</key>
    <string>XFWK</string>
    <key>XCFrameworkFormatVersion</key>
    <string>1.0</string>
</dict>
</plist>
"#;

/// The per-architecture property list: the framework name stands as the
/// bundle's executable and name, the platform as its one supported platform.
pub open spec fn architecture_plist(framework_name: Seq<char>, platform: Seq<char>) -> Seq<char> {
    ARCH_HEAD@ + framework_name + ARCH_AFTER_EXECUTABLE@ + framework_name + ARCH_AFTER_NAME@
        + platform + ARCH_TAIL@
}

/// The top-level property list of the bundle: it lists the device and the
/// simulator library, each at `<framework_name>.a`.
pub open spec fn xcframework_plist(framework_name: Seq<char>) -> Seq<char> {
    BUNDLE_HEAD@ + framework_name + BUNDLE_BETWEEN_PATHS@ + framework_name + BUNDLE_TAIL@
}

/// Builds the property list of one architecture directory of the bundle.
pub fn create_architecture_info_plist(framework_name: &str, platform: &str) -> (r: String)
    ensures
        r@ == architecture_plist(framework_name@, platform@),
{
    let mut r = String::from_str(ARCH_HEAD);
    r.append(framework_name);
    r.append(ARCH_AFTER_EXECUTABLE);
    r.append(framework_name);
    r.append(ARCH_AFTER_NAME);
    r.append(platform);
    r.append(ARCH_TAIL);
    r
}

/// Builds the top-level property list of the bundle.
pub fn create_xcframework_info_plist(framework_name: &str) -> (r: String)
    ensures
        r@ == xcframework_plist(framework_name@),
{
    let mut r = String::from_str(BUNDLE_HEAD);
    r.append(framework_name);
    r.append(BUNDLE_BETWEEN_PATHS);
    r.append(framework_name);
    r.append(BUNDLE_TAIL);
    r
}

} // verus!
