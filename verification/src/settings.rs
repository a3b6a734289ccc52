//! The settings window's state and the rules of its save and skip buttons.
//! Drawing the window and writing the file are left to the caller.

use vstd::prelude::*;
use vstd::string::StringExecFns;
use crate::config::{AppConfig, MAX_FIELD_CHARS, missing_name_message};
use crate::text::{compacted, trim};

verus! {

/// What comes before the reason a save failed.
pub open spec fn save_failed_prefix() -> Seq<char> {
    "保存できません: "@
}

/// What comes before the reason the first settings could not be written.
pub open spec fn skip_failed_prefix() -> Seq<char> {
    "設定を作成できません: "@
}

/// The settings window: the settings being edited, the message shown below
/// the buttons, whether this is the first run, and whether the user chose
/// to quit.
pub struct SettingsForm {
    pub draft: AppConfig,
    pub feedback: Option<String>,
    pub first_run: bool,
    pub quitting: bool,
}

impl SettingsForm {
    /// A window editing `draft`, with no message shown.
    pub fn new(draft: AppConfig, first_run: bool) -> (r: Self)
        ensures
            r.draft == draft,
            r.feedback is None,
            r.first_run == first_run,
            !r.quitting,
    {
        SettingsForm { draft, feedback: None, first_run, quitting: false }
    }

    /// The settings to be written when "save" is pressed: the draft
    /// normalized, provided its player name is not blank. Where it is blank,
    /// nothing is returned and the window shows why.
    pub fn prepare_save(&mut self) -> (r: Option<AppConfig>)
        ensures
            ({
                let name = compacted(old(self).draft.player_name@, MAX_FIELD_CHARS as nat);
                let code = compacted(old(self).draft.friend_code@, MAX_FIELD_CHARS as nat);
                &&& (r is Some <==> trim(name).len() != 0)
                &&& (r matches Some(c) ==> c.player_name@ == name && c.friend_code@ == code)
                &&& (r is Some ==> *final(self) == *old(self))
                &&& (r is None ==> (final(self).feedback matches Some(m) && m@ == missing_name_message()))
                &&& final(self).draft == old(self).draft
                &&& final(self).first_run == old(self).first_run
                &&& final(self).quitting == old(self).quitting
            }),
    {
        let copy = AppConfig {
            player_name: self.draft.player_name.clone(),
            friend_code: self.draft.friend_code.clone(),
        };
        let normalized = copy.normalized();
        match normalized.validate() {
            Ok(()) => Some(normalized),
            Err(message) => {
                self.feedback = Some(message.to_owned());
                None
            },
        }
    }

    /// Records the outcome of writing `saved`: on success it becomes the
    /// draft, the first run is over and no message is shown; on failure the
    /// window shows the reason.
    pub fn finish_save(&mut self, saved: AppConfig, outcome: Result<(), String>) -> (ok: bool)
        ensures
            ok == (outcome is Ok),
            ok ==> final(self).draft == saved && !final(self).first_run && final(self).feedback is None,
            !ok ==> final(self).draft == old(self).draft && final(self).first_run == old(self).first_run,
            outcome matches Err(e) ==> (final(self).feedback matches Some(m) && m@ == save_failed_prefix() + e@),
            final(self).quitting == old(self).quitting,
    {
        match outcome {
            Ok(()) => {
                self.draft = saved;
                self.first_run = false;
                self.feedback = None;
                true
            },
            Err(reason) => {
                let mut message = "保存できません: ".to_owned();
                message.append(reason.as_str());
                self.feedback = Some(message);
                false
            },
        }
    }

    /// Records the outcome of writing empty settings when the first run is
    /// skipped: on success the draft is emptied, the first run is over and
    /// no message is shown; on failure the window shows the reason.
    pub fn finish_skip(&mut self, outcome: Result<(), String>) -> (ok: bool)
        ensures
            ok == (outcome is Ok),
            ok ==> final(self).draft.player_name@.len() == 0 && final(self).draft.friend_code@.len() == 0
                && !final(self).first_run && final(self).feedback is None,
            !ok ==> final(self).draft == old(self).draft && final(self).first_run == old(self).first_run,
            outcome matches Err(e) ==> (final(self).feedback matches Some(m) && m@ == skip_failed_prefix() + e@),
            final(self).quitting == old(self).quitting,
    {
        match outcome {
            Ok(()) => {
                self.draft = AppConfig::default();
                self.first_run = false;
                self.feedback = None;
                true
            },
            Err(reason) => {
                let mut message = "設定を作成できません: ".to_owned();
                message.append(reason.as_str());
                self.feedback = Some(message);
                false
            },
        }
    }

    /// The window's heading.
    pub fn title(&self) -> (r: &'static str)
        ensures
            r@ == (if self.first_run { "初期設定"@ } else { "設定"@ }),
    {
        if self.first_run {
            "初期設定"
        } else {
            "設定"
        }
    }

    /// The label of the button beside "save": skip on the first run, close
    /// otherwise.
    pub fn secondary_label(&self) -> (r: &'static str)
        ensures
            r@ == (if self.first_run { "スキップ"@ } else { "閉じる"@ }),
    {
        if self.first_run {
            "スキップ"
        } else {
            "閉じる"
        }
    }

    /// Whether a request to close the window only hides it (the
    /// application keeps running in the notification area) rather than
    /// quitting.
    pub fn hides_on_close(&self) -> (r: bool)
        ensures
            r == !self.quitting,
    {
        !self.quitting
    }
}

} // verus!
