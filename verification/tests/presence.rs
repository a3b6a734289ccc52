use bluepresence::clock::{time, timestamp_from_millis, timestamp_since_epoch};
use bluepresence::config::AppConfig;
use bluepresence::presence::{
    game_running, presence_activity, presence_details, presence_state, process_matches, take_chars,
    PRO_NAMES,
};

#[test]
fn pro() {
    let names = ["BlueArchive.exe"];
    assert!(process_matches("bluearchive.EXE", &names));
    assert!(!process_matches("BlueArchiveLauncher.exe", &names));
}

#[test]
fn profilelines() {
    assert_eq!(
        presence_details(&AppConfig::default()),
        "ブルーアーカイブをプレイ中"
    );
    assert_eq!(presence_state(&AppConfig::default()), None);

    let without_code = presence_state(&AppConfig {
        player_name: "アロナ".into(),
        ..Default::default()
    });
    let with_code_config = AppConfig {
        player_name: "アロナ".into(),
        friend_code: "ABC123".into(),
    };
    let code_only_config = AppConfig {
        friend_code: "ABC123".into(),
        ..Default::default()
    };

    assert_eq!(without_code, None);
    assert_eq!(presence_details(&with_code_config), "名前: アロナ");
    assert_eq!(
        presence_state(&with_code_config).as_deref(),
        Some("フレンドコード: ABC123")
    );
    assert_eq!(
        presence_details(&code_only_config),
        "ブルーアーカイブをプレイ中"
    );
    assert_eq!(
        presence_state(&code_only_config).as_deref(),
        Some("フレンドコード: ABC123")
    );
}

#[test]
fn official_button() {
    let payload = serde_json::to_value(presence_activity(&AppConfig::default(), 123))
        .expect("activity must serialize");

    assert_eq!(payload["buttons"][0]["label"], "公式サイトからダウンロード");
    assert_eq!(payload["buttons"][0]["url"], "https://bluearchive.jp/");
}

#[test]
fn activity_carries_lines_and_start() {
    let config = AppConfig {
        player_name: "ヒナ".into(),
        friend_code: "XYZ".into(),
    };
    let payload = serde_json::to_value(presence_activity(&config, 1_700_000_000_000))
        .expect("activity must serialize");
    assert_eq!(payload["details"], "名前: ヒナ");
    assert_eq!(payload["state"], "フレンドコード: XYZ");
    assert_eq!(payload["timestamps"]["start"], 1_700_000_000_000i64);
    assert_eq!(payload["type"], 0);
    assert!(payload["timestamps"].get("end").is_none());
    assert_eq!(payload["buttons"].as_array().map(|b| b.len()), Some(1));

    let bare = serde_json::to_value(presence_activity(&AppConfig::default(), 5))
        .expect("activity must serialize");
    assert!(bare.get("state").is_none());
    assert_eq!(bare["details"], "ブルーアーカイブをプレイ中");
}

#[test]
fn presence_lines_are_cut_to_120_chars() {
    let config = AppConfig {
        player_name: "x".repeat(200),
        friend_code: "y".repeat(200),
    };
    let details = presence_details(&config);
    assert_eq!(details.chars().count(), 120);
    assert_eq!(details, format!("名前: {}", "x".repeat(116)));
    let state = presence_state(&config).unwrap();
    assert_eq!(state.chars().count(), 120);
    assert_eq!(state, format!("フレンドコード: {}", "y".repeat(111)));
}

#[test]
fn take_chars_counts_characters() {
    assert_eq!(take_chars("あいう", 2), "あい");
    assert_eq!(take_chars("あいう", 5), "あいう");
    assert_eq!(take_chars("", 0), "");
}

#[test]
fn process_names_are_trimmed_and_case_folded() {
    let names = ["  BlueArchiveJP.exe\t", "Other.exe"];
    assert!(process_matches("BLUEARCHIVEJP.EXE", &names));
    assert!(process_matches("other.exe", &names));
    assert!(!process_matches(" other.exe", &names));
    assert!(!process_matches("BlueArchiveJP.ex", &names));
    // Only ASCII letters are folded.
    let wide = ["Ａ.exe"];
    assert!(!process_matches("ａ.exe", &wide));
    assert!(!process_matches("anything", &[]));
}

#[test]
fn game_running_looks_for_any_client() {
    assert_eq!(PRO_NAMES.len(), 3);
    let none: Vec<String> = vec!["explorer.exe".into(), "discord.exe".into()];
    assert!(!game_running(&none));
    let some: Vec<String> = vec!["explorer.exe".into(), "bluearchivenexon.exe".into()];
    assert!(game_running(&some));
    assert!(!game_running(&Vec::new()));
}

#[test]
fn timestamps_saturate() {
    assert_eq!(timestamp_from_millis(0), 0);
    assert_eq!(timestamp_from_millis(1234), 1234);
    assert_eq!(timestamp_from_millis(i64::MAX as u128), i64::MAX);
    assert_eq!(timestamp_from_millis(i64::MAX as u128 + 1), i64::MAX);
    assert_eq!(timestamp_from_millis(u128::MAX), i64::MAX);
}

#[test]
fn time_is_after_2020() {
    let now = time();
    assert!(now > 1_577_836_800_000);
}

#[test]
fn clock_before_epoch_gives_zero() {
    assert_eq!(timestamp_since_epoch(None), 0);
    assert_eq!(timestamp_since_epoch(Some(42)), 42);
    assert_eq!(timestamp_since_epoch(Some(u128::MAX)), i64::MAX);
}
