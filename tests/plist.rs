use mdns_peer::plist::{create_architecture_info_plist, create_xcframework_info_plist};

#[test]
fn architecture_plist_names_framework_and_platform() {
    let expected = format!(
        r#"<?xml version="1.0" encoding="UTF-8"?>
<!DOCTYPE plist PUBLIC "-//Apple//DTD PLIST 1.0//EN" "http://www.apple.com/DTDs/PropertyList-1.0.dtd">
<plist version="1.0">
<dict>
    <key>CFBundleExecutable</key>
    <string>{}</string>
    <key>CFBundleIdentifier</key>
    <string>com.spacedrive.mdns-peer</string>
    <key>CFBundleName</key>
    <string>{}</string>
    <key>CFBundlePackageType</key>
    <string>FMWK</string>
    <key>CFBundleShortVersionString</key>
    <string>1.0</string>
    <key>CFBundleVersion</key>
    <string>1</string>
    <key>CFBundleSupportedPlatforms</key>
    <array>
        <string>{}</string>
    </array>
    <key>MinimumOSVersion</key>
    <string>14.0</string>
</dict>
</plist>
"#,
        "libmdns_peer", "libmdns_peer", "iPhoneSimulator"
    );
    assert_eq!(create_architecture_info_plist("libmdns_peer", "iPhoneSimulator"), expected);
}

#[test]
fn xcframework_plist_lists_both_libraries() {
    let r = create_xcframework_info_plist("libmdns_peer");
    assert_eq!(r.matches("<string>libmdns_peer.a</string>").count(), 2);
    assert!(r.starts_with("<?xml version=\"1.0\" encoding=\"UTF-8\"?>\n"));
    assert!(r.contains("<string>ios-arm64</string>"));
    assert!(r.contains("<string>ios-arm64-simulator</string>"));
    assert!(r.ends_with("</dict>\n</plist>\n"));
    assert!(r.contains("<string>XFWK</string>"));
}

#[test]
fn xcframework_plist_with_empty_name() {
    let r = create_xcframework_info_plist("");
    assert_eq!(r.matches("<string>.a</string>").count(), 2);
}
