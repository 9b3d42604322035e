use binge_watch_me::tray::{
    downloading_status, install_prompt, update_item_title, TrayState, TrayTick,
};
use binge_watch_me::updater::{
    asset_name, check_for_update, download_url, next_checker_step, offer_update,
    strip_leading_v, Arch, CheckOutcome, CheckerStep, ReleaseInfo, UpdateInfo,
    CHECK_INTERVAL_SECS, FIRST_CHECK_DELAY_SECS,
};

fn release(tag: &str, assets: &[&str]) -> ReleaseInfo {
    ReleaseInfo {
        version: tag.to_string(),
        asset_names: assets.iter().map(|a| a.to_string()).collect(),
    }
}

#[test]
fn asset_names_per_arch() {
    assert_eq!(asset_name(Arch::Arm64), "BingeWatchMe-macos-arm64.zip");
    assert_eq!(asset_name(Arch::X86_64), "BingeWatchMe-macos-x86.zip");
}

#[test]
fn leading_vs_are_stripped() {
    assert_eq!(strip_leading_v("v1.2.3"), "1.2.3");
    assert_eq!(strip_leading_v("vv1.2.3"), "1.2.3");
    assert_eq!(strip_leading_v("1.2.3"), "1.2.3");
    assert_eq!(strip_leading_v("1.2v"), "1.2v");
    assert_eq!(strip_leading_v("vvv"), "");
    assert_eq!(strip_leading_v(""), "");
}

#[test]
fn download_url_format() {
    assert_eq!(
        download_url("1.4.0", "BingeWatchMe-macos-arm64.zip"),
        "https://github.com/YYx00xZZ/binge-watch-me/releases/download/v1.4.0/BingeWatchMe-macos-arm64.zip"
    );
}

#[test]
fn newer_release_with_asset_is_offered() {
    let releases = vec![
        release("v0.2.0", &["BingeWatchMe-macos-x86.zip", "BingeWatchMe-macos-arm64.zip"]),
        release("v0.1.5", &["BingeWatchMe-macos-arm64.zip"]),
    ];
    let info = check_for_update("0.1.0", &releases, Arch::Arm64).expect("update expected");
    assert_eq!(info.version, "0.2.0");
    assert_eq!(
        info.download_url,
        "https://github.com/YYx00xZZ/binge-watch-me/releases/download/v0.2.0/BingeWatchMe-macos-arm64.zip"
    );
}

#[test]
fn only_the_newest_release_counts() {
    let releases = vec![
        release("v0.1.0", &["BingeWatchMe-macos-arm64.zip"]),
        release("v9.0.0", &["BingeWatchMe-macos-arm64.zip"]),
    ];
    assert!(check_for_update("0.1.0", &releases, Arch::Arm64).is_none());
}

#[test]
fn same_or_older_release_is_not_offered() {
    let same = vec![release("v1.0.0", &["BingeWatchMe-macos-x86.zip"])];
    assert!(check_for_update("1.0.0", &same, Arch::X86_64).is_none());
    let older = vec![release("v0.9.9", &["BingeWatchMe-macos-x86.zip"])];
    assert!(check_for_update("1.0.0", &older, Arch::X86_64).is_none());
}

#[test]
fn release_without_matching_asset_is_not_offered() {
    let releases = vec![release("v2.0.0", &["BingeWatchMe-macos-x86.zip"])];
    assert!(check_for_update("1.0.0", &releases, Arch::Arm64).is_none());
    let names_contain_but_differ = vec![release("v2.0.0", &["BingeWatchMe-macos-arm64.zip.sig"])];
    assert!(check_for_update("1.0.0", &names_contain_but_differ, Arch::Arm64).is_none());
}

#[test]
fn unparsable_versions_or_no_release_give_nothing() {
    let bad = vec![release("latest", &["BingeWatchMe-macos-arm64.zip"])];
    assert!(check_for_update("1.0.0", &bad, Arch::Arm64).is_none());
    let good = vec![release("v2.0.0", &["BingeWatchMe-macos-arm64.zip"])];
    assert!(check_for_update("not-a-version", &good, Arch::Arm64).is_none());
    assert!(check_for_update("1.0.0", &Vec::new(), Arch::Arm64).is_none());
}

#[test]
fn prerelease_orders_before_release() {
    let releases = vec![release("v1.0.0-beta.1", &["BingeWatchMe-macos-arm64.zip"])];
    assert!(check_for_update("1.0.0", &releases, Arch::Arm64).is_none());
    assert!(check_for_update("1.0.0-alpha", &releases, Arch::Arm64).is_some());
}

#[test]
fn offer_update_needs_newer_and_asset() {
    let names = vec!["BingeWatchMe-macos-x86.zip".to_string()];
    assert!(offer_update(false, "3.0.0".to_string(), &names, Arch::X86_64).is_none());
    assert!(offer_update(true, "3.0.0".to_string(), &names, Arch::Arm64).is_none());
    let info = offer_update(true, "3.0.0".to_string(), &names, Arch::X86_64).unwrap();
    assert_eq!(info.version, "3.0.0");
    assert_eq!(
        info.download_url,
        "https://github.com/YYx00xZZ/binge-watch-me/releases/download/v3.0.0/BingeWatchMe-macos-x86.zip"
    );
}

#[test]
fn checker_stops_once_an_update_is_found() {
    let info = UpdateInfo { version: "1.1.0".to_string(), download_url: "u".to_string() };
    match next_checker_step(CheckOutcome::Found(info)) {
        CheckerStep::Publish(i) => assert_eq!(i.version, "1.1.0"),
        _ => panic!("a found update must be published"),
    }
    assert!(matches!(
        next_checker_step(CheckOutcome::UpToDate),
        CheckerStep::SleepThenCheck(s) if s == 24 * 3600
    ));
    assert!(matches!(
        next_checker_step(CheckOutcome::Failed),
        CheckerStep::SleepThenCheck(s) if s == CHECK_INTERVAL_SECS
    ));
    assert_eq!(FIRST_CHECK_DELAY_SECS, 10);
}

#[test]
fn tray_texts() {
    assert_eq!(update_item_title("1.2.0"), "Update available v1.2.0");
    assert_eq!(
        install_prompt("1.2.0"),
        "Version 1.2.0 is ready to install. The app will download the update and restart automatically."
    );
    assert_eq!(downloading_status(), "Downloading\u{2026}");
}

#[test]
fn tray_adds_update_item_once() {
    let info = UpdateInfo { version: "1.2.0".to_string(), download_url: "u".to_string() };
    let mut tray = TrayState::new();
    assert!(matches!(tray.check_tray_state(None), TrayTick::Nothing));
    match tray.check_tray_state(Some(&info)) {
        TrayTick::AddUpdateItem(title) => assert_eq!(title, "Update available v1.2.0"),
        _ => panic!("the item must be added"),
    }
    assert!(matches!(tray.check_tray_state(Some(&info)), TrayTick::Nothing));
    assert!(matches!(tray.check_tray_state(None), TrayTick::Nothing));
}

#[test]
fn tray_shows_downloading_after_confirmation() {
    let info = UpdateInfo { version: "1.2.0".to_string(), download_url: "u".to_string() };
    let mut tray = TrayState::new();
    tray.check_tray_state(Some(&info));
    assert!(!tray.answer_install_prompt(false));
    assert!(matches!(tray.check_tray_state(Some(&info)), TrayTick::Nothing));
    assert!(tray.answer_install_prompt(true));
    assert!(matches!(tray.check_tray_state(Some(&info)), TrayTick::ShowDownloading));
    assert!(matches!(tray.check_tray_state(None), TrayTick::ShowDownloading));
}

#[test]
fn downloading_before_item_suppresses_it() {
    let info = UpdateInfo { version: "1.2.0".to_string(), download_url: "u".to_string() };
    let mut tray = TrayState::new();
    tray.answer_install_prompt(true);
    assert!(matches!(tray.check_tray_state(Some(&info)), TrayTick::ShowDownloading));
}
