use bluepresence::config::AppConfig;
use bluepresence::settings::SettingsForm;

#[test]
fn save_refuses_blank_name() {
    let mut form = SettingsForm::new(AppConfig { player_name: "  ".into(), friend_code: "A".into() }, true);
    assert_eq!(form.prepare_save(), None);
    assert_eq!(form.feedback.as_deref(), Some("名前を入力してください"));
    assert!(form.first_run);
}

#[test]
fn save_hands_out_normalized_settings() {
    let mut form = SettingsForm::new(AppConfig { player_name: " ミカ ".into(), friend_code: " C\u{1}D ".into() }, true);
    let to_save = form.prepare_save().expect("name is set");
    assert_eq!(to_save.player_name, "ミカ");
    assert_eq!(to_save.friend_code, "CD");
    assert_eq!(form.draft.player_name, " ミカ ");
    assert!(form.finish_save(to_save.clone(), Ok(())));
    assert_eq!(form.draft, to_save);
    assert!(!form.first_run);
    assert_eq!(form.feedback, None);
    assert_eq!(form.title(), "設定");
    assert_eq!(form.secondary_label(), "閉じる");
}

#[test]
fn failed_save_shows_reason() {
    let mut form = SettingsForm::new(AppConfig { player_name: "A".into(), friend_code: String::new() }, false);
    let to_save = form.prepare_save().unwrap();
    assert!(!form.finish_save(to_save, Err("disk full".into())));
    assert_eq!(form.feedback.as_deref(), Some("保存できません: disk full"));
    assert_eq!(form.draft.player_name, "A");
}

#[test]
fn skip_empties_draft() {
    let mut form = SettingsForm::new(AppConfig { player_name: "A".into(), friend_code: "B".into() }, true);
    assert_eq!(form.title(), "初期設定");
    assert_eq!(form.secondary_label(), "スキップ");
    assert!(!form.finish_skip(Err("denied".into())));
    assert_eq!(form.feedback.as_deref(), Some("設定を作成できません: denied"));
    assert!(form.first_run);
    assert!(form.finish_skip(Ok(())));
    assert_eq!(form.draft, AppConfig::default());
    assert!(!form.first_run);
    assert_eq!(form.feedback, None);
}

#[test]
fn close_hides_until_quitting() {
    let mut form = SettingsForm::new(AppConfig::default(), false);
    assert!(form.hides_on_close());
    form.quitting = true;
    assert!(!form.hides_on_close());
}
