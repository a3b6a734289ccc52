//! The user's settings: what is shown on Discord, and how it is cleaned.

use vstd::prelude::*;
use crate::text::{compact, compacted, trim, trimmed_chars};

verus! {

/// The most characters kept of each settings field.
pub const MAX_FIELD_CHARS: usize = 48;

/// The message given when the player name is blank.
pub open spec fn missing_name_message() -> Seq<char> {
    "名前を入力してください"@
}

/// The settings shown on Discord: a player name and an optional friend code.
#[derive(Clone, Debug, PartialEq, Eq)]
pub struct AppConfig {
    pub player_name: String,
    pub friend_code: String,
}

impl Default for AppConfig {
    fn default() -> (r: Self)
        ensures
            r.player_name@ == Seq::<char>::empty(),
            r.friend_code@ == Seq::<char>::empty(),
    {
        AppConfig { player_name: String::new(), friend_code: String::new() }
    }
}

impl AppConfig {
    /// Each field trimmed, without control characters, and cut to
    /// `MAX_FIELD_CHARS` characters.
    pub fn normalized(self) -> (r: Self)
        ensures
            r.player_name@ == compacted(self.player_name@, MAX_FIELD_CHARS as nat),
            r.friend_code@ == compacted(self.friend_code@, MAX_FIELD_CHARS as nat),
    {
        AppConfig {
            player_name: compact(self.player_name.as_str(), MAX_FIELD_CHARS),
            friend_code: compact(self.friend_code.as_str(), MAX_FIELD_CHARS),
        }
    }

    /// Refuses settings whose player name is blank once trimmed.
    pub fn validate(&self) -> (r: Result<(), &'static str>)
        ensures
            r is Err <==> trim(self.player_name@).len() == 0,
            r matches Err(m) ==> m@ == missing_name_message(),
    {
        let t = trimmed_chars(self.player_name.as_str());
        if t.len() == 0 {
            Err("名前を入力してください")
        } else {
            Ok(())
        }
    }

    /// The settings in use after reading the stored ones: what was stored,
    /// normalized, or the default where nothing could be read.
    pub fn from_stored(stored: Option<AppConfig>) -> (r: Self)
        ensures
            match stored {
                Some(c) => {
                    &&& r.player_name@ == compacted(c.player_name@, MAX_FIELD_CHARS as nat)
                    &&& r.friend_code@ == compacted(c.friend_code@, MAX_FIELD_CHARS as nat)
                },
                None => r.player_name@.len() == 0 && r.friend_code@.len() == 0,
            },
    {
        match stored {
            Some(c) => c.normalized(),
            None => AppConfig::default(),
        }
    }
}

} // verus!
