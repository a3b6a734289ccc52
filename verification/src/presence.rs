//! What the monitor shows on Discord, and how it recognises the game.

use vstd::prelude::*;
use vstd::string::StringExecFns;
use discord_rich_presence::activity::{Activity, ActivityType, Button, Timestamps};
use crate::config::AppConfig;
use crate::text::{ascii_upper, lemma_eq_ignoring_ascii_case_letterwise, lemma_eq_ignoring_ascii_case_equivalence, chars_eq_ignoring_ascii_case, chars_of, eq_ignoring_ascii_case, first_chars, trim, trimmed_chars};

verus! {

/// The executable names of the game's clients.
pub const PRO_NAMES: [&'static str; 3] = ["BlueArchive.exe", "BlueArchiveNexon.exe", "BlueArchiveJP.exe"];

/// The most characters of a presence line.
pub const MAX_PRESENCE_CHARS: usize = 120;

/// Details shown while no player name is set.
pub open spec fn default_details() -> Seq<char> {
    "ブルーアーカイブをプレイ中"@
}

/// What comes before the player name.
pub open spec fn name_prefix() -> Seq<char> {
    "名前: "@
}

/// What comes before the friend code.
pub open spec fn friend_code_prefix() -> Seq<char> {
    "フレンドコード: "@
}

/// The details line for a player name.
pub open spec fn details_for(player_name: Seq<char>) -> Seq<char> {
    if player_name.len() == 0 {
        default_details()
    } else {
        first_chars(name_prefix() + player_name, MAX_PRESENCE_CHARS as nat)
    }
}

/// The state line for a friend code, if there is one to show.
pub open spec fn state_for(friend_code: Seq<char>) -> Option<Seq<char>> {
    if friend_code.len() == 0 {
        None
    } else {
        Some(first_chars(friend_code_prefix() + friend_code, MAX_PRESENCE_CHARS as nat))
    }
}

/// The first `n` characters of `s` (all of it where it is shorter).
pub fn take_chars(s: &str, n: usize) -> (r: String)
    ensures
        r@ == first_chars(s@, n as nat),
{
    let len = s.unicode_len();
    let k = if len <= n { len } else { n };
    let part = s.substring_char(0, k);
    proof {
        if len <= n {
            assert(s@.subrange(0, k as int) =~= s@);
        }
    }
    part.to_owned()
}

/// The details line: the player name after its prefix, or the default
/// line where no name is set.
pub fn presence_details(config: &AppConfig) -> (r: String)
    ensures
        r@ == details_for(config.player_name@),
{
    if config.player_name.as_str().is_empty() {
        "ブルーアーカイブをプレイ中".to_owned()
    } else {
        let mut line = "名前: ".to_owned();
        line.append(config.player_name.as_str());
        take_chars(line.as_str(), MAX_PRESENCE_CHARS)
    }
}

/// The state line: the friend code after its prefix, or nothing where no
/// code is set.
pub fn presence_state(config: &AppConfig) -> (r: Option<String>)
    ensures
        r is None <==> config.friend_code@.len() == 0,
        r matches Some(s) ==> Some(s@) == state_for(config.friend_code@),
{
    if config.friend_code.as_str().is_empty() {
        None
    } else {
        let mut line = "フレンドコード: ".to_owned();
        line.append(config.friend_code.as_str());
        Some(take_chars(line.as_str(), MAX_PRESENCE_CHARS))
    }
}


/// `process_name` is one of `names`, each trimmed, up to ASCII case.
pub open spec fn matches_any(process_name: Seq<char>, names: Seq<&str>) -> bool {
    exists|i: int| 0 <= i < names.len() && eq_ignoring_ascii_case(process_name, trim(#[trigger] names[i]@))
}

/// Whether `process_name` is one of `configured_names`, each trimmed,
/// compared without regard to the case of ASCII letters.
pub fn process_matches(process_name: &str, configured_names: &[&str]) -> (r: bool)
    ensures
        r == matches_any(process_name@, configured_names@),
{
    let name = chars_of(process_name);
    let mut i: usize = 0;
    while i < configured_names.len()
        invariant
            i <= configured_names@.len(),
            name@ == process_name@,
            forall|j: int| 0 <= j < i ==> !eq_ignoring_ascii_case(process_name@, trim(#[trigger] configured_names@[j]@)),
        decreases configured_names@.len() - i,
    {
        let candidate = trimmed_chars(configured_names[i]);
        if chars_eq_ignoring_ascii_case(&name, &candidate) {
            return true;
        }
        i = i + 1;
    }
    false
}


/// Whether any of the running processes is one of the game's clients.
pub fn game_running(process_names: &Vec<String>) -> (r: bool)
    ensures
        r == exists|j: int| 0 <= j < process_names.len() && matches_any(#[trigger] process_names@[j]@, PRO_NAMES@),
{
    let mut j: usize = 0;
    while j < process_names.len()
        invariant
            j <= process_names.len(),
            forall|k: int| 0 <= k < j ==> !matches_any(#[trigger] process_names@[k]@, PRO_NAMES@),
        decreases process_names.len() - j,
    {
        if process_matches(process_names[j].as_str(), PRO_NAMES.as_slice()) {
            return true;
        }
        j = j + 1;
    }
    false
}


#[verifier::external_type_specification]
#[verifier::external_body]
pub struct ExActivity<'a>(Activity<'a>);

#[verifier::external_type_specification]
#[verifier::external_body]
pub struct ExTimestamps(Timestamps);

#[verifier::external_type_specification]
#[verifier::external_body]
pub struct ExButton<'a>(Button<'a>);

/// The activity-type code an activity carries (`ActivityType` is `repr(u8)`;
/// playing is 0), if one is set.
pub uninterp spec fn activity_kind_of(a: Activity<'static>) -> Option<u8>;

/// The details line an activity carries, if one is set.
pub uninterp spec fn activity_details_of(a: Activity<'static>) -> Option<Seq<char>>;

/// The state line an activity carries, if one is set.
pub uninterp spec fn activity_state_of(a: Activity<'static>) -> Option<Seq<char>>;

/// The timestamps an activity carries, if any: their start and end.
pub uninterp spec fn activity_timestamps_of(a: Activity<'static>) -> Option<(Option<i64>, Option<i64>)>;

/// The buttons an activity carries, if any: each one's label and URL.
pub uninterp spec fn activity_buttons_of(a: Activity<'static>) -> Option<Seq<(Seq<char>, Seq<char>)>>;

/// None of the activity's other fields (name, state URL, details URL,
/// party, assets, secrets, status display type) is set.
pub uninterp spec fn activity_extras_unset(a: Activity<'static>) -> bool;

/// The start and end that timestamps hold.
pub uninterp spec fn timestamps_of(t: Timestamps) -> (Option<i64>, Option<i64>);

/// The label and URL a button holds.
pub uninterp spec fn button_of(b: Button<'static>) -> (Seq<char>, Seq<char>);

/// The label of the button to the official site.
pub open spec fn official_button_label() -> Seq<char> {
    "公式サイトからダウンロード"@
}

/// The URL of the official site.
pub open spec fn official_site_url() -> Seq<char> {
    "https://bluearchive.jp/"@
}

/// `Activity::new`: an activity with none of its fields set.
#[verifier::external_body]
fn activity_new() -> (r: Activity<'static>)
    ensures
        activity_kind_of(r) is None,
        activity_details_of(r) is None,
        activity_state_of(r) is None,
        activity_timestamps_of(r) is None,
        activity_buttons_of(r) is None,
        activity_extras_unset(r),
{
    Activity::new()
}

/// `Activity::activity_type` with `ActivityType::Playing` (code 0): sets
/// the type and leaves the other fields as they were.
#[verifier::external_body]
fn activity_playing(a: Activity<'static>) -> (r: Activity<'static>)
    ensures
        activity_extras_unset(r) == activity_extras_unset(a),
        activity_kind_of(r) == Some(0u8),
        activity_details_of(r) == activity_details_of(a),
        activity_state_of(r) == activity_state_of(a),
        activity_timestamps_of(r) == activity_timestamps_of(a),
        activity_buttons_of(r) == activity_buttons_of(a),
{
    a.activity_type(ActivityType::Playing)
}

/// `Activity::details`: sets the details line and leaves the other fields
/// as they were.
#[verifier::external_body]
fn activity_details(a: Activity<'static>, details: String) -> (r: Activity<'static>)
    ensures
        activity_extras_unset(r) == activity_extras_unset(a),
        activity_kind_of(r) == activity_kind_of(a),
        activity_details_of(r) == Some(details@),
        activity_state_of(r) == activity_state_of(a),
        activity_timestamps_of(r) == activity_timestamps_of(a),
        activity_buttons_of(r) == activity_buttons_of(a),
{
    a.details(details)
}

/// `Activity::state`: sets the state line and leaves the other fields as
/// they were.
#[verifier::external_body]
fn activity_state(a: Activity<'static>, state: String) -> (r: Activity<'static>)
    ensures
        activity_extras_unset(r) == activity_extras_unset(a),
        activity_kind_of(r) == activity_kind_of(a),
        activity_details_of(r) == activity_details_of(a),
        activity_state_of(r) == Some(state@),
        activity_timestamps_of(r) == activity_timestamps_of(a),
        activity_buttons_of(r) == activity_buttons_of(a),
{
    a.state(state)
}

/// `Activity::timestamps`: attaches `t` and leaves the other fields as they
/// were.
#[verifier::external_body]
fn activity_timestamps(a: Activity<'static>, t: Timestamps) -> (r: Activity<'static>)
    ensures
        activity_extras_unset(r) == activity_extras_unset(a),
        activity_kind_of(r) == activity_kind_of(a),
        activity_details_of(r) == activity_details_of(a),
        activity_state_of(r) == activity_state_of(a),
        activity_timestamps_of(r) == Some(timestamps_of(t)),
        activity_buttons_of(r) == activity_buttons_of(a),
{
    a.timestamps(t)
}

/// `Activity::buttons`: attaches `buttons`, unless there are none, in which
/// case the activity is returned as it was; the other fields are kept.
#[verifier::external_body]
fn activity_buttons(a: Activity<'static>, buttons: Vec<Button<'static>>) -> (r: Activity<'static>)
    ensures
        activity_extras_unset(r) == activity_extras_unset(a),
        activity_kind_of(r) == activity_kind_of(a),
        activity_details_of(r) == activity_details_of(a),
        activity_state_of(r) == activity_state_of(a),
        activity_timestamps_of(r) == activity_timestamps_of(a),
        activity_buttons_of(r) == (if buttons@.len() == 0 {
            activity_buttons_of(a)
        } else {
            Some(buttons@.map_values(|b: Button<'static>| button_of(b)))
        }),
{
    a.buttons(buttons)
}

/// `Timestamps::new`: no start and no end.
#[verifier::external_body]
fn timestamps_new() -> (r: Timestamps)
    ensures
        timestamps_of(r) == (None::<i64>, None::<i64>),
{
    Timestamps::new()
}

/// `Timestamps::start`: sets the start, in Unix milliseconds, and keeps the end.
#[verifier::external_body]
fn timestamps_start(t: Timestamps, start: i64) -> (r: Timestamps)
    ensures
        timestamps_of(r) == (Some(start), timestamps_of(t).1),
{
    t.start(start)
}

/// `Button::new`: a button with `label` and `url`.
#[verifier::external_body]
fn button_new(label: &'static str, url: &'static str) -> (r: Button<'static>)
    ensures
        button_of(r) == (label@, url@),
{
    Button::new(label, url)
}

/// The activity published while the game runs: playing, with the details
/// line, the time the game was first seen, the button to the official
/// site, and the state line where a friend code is set.
pub fn presence_activity(config: &AppConfig, started_at_ms: i64) -> (r: Activity<'static>)
    ensures
        activity_extras_unset(r),
        activity_kind_of(r) == Some(0u8),
        activity_details_of(r) == Some(details_for(config.player_name@)),
        activity_state_of(r) == state_for(config.friend_code@),
        activity_timestamps_of(r) == Some((Some(started_at_ms), None::<i64>)),
        activity_buttons_of(r) == Some(seq![(official_button_label(), official_site_url())]),
{
    let mut payload = activity_new();
    payload = activity_playing(payload);
    payload = activity_details(payload, presence_details(config));
    payload = activity_timestamps(payload, timestamps_start(timestamps_new(), started_at_ms));
    let mut buttons: Vec<Button<'static>> = Vec::new();
    buttons.push(button_new("公式サイトからダウンロード", "https://bluearchive.jp/"));
    assert(buttons@.map_values(|b: Button<'static>| button_of(b)) =~= seq![
        (official_button_label(), official_site_url()),
    ]);
    payload = activity_buttons(payload, buttons);
    match presence_state(config) {
        Some(state) => activity_state(payload, state),
        None => payload,
    }
}

/// Presence lines are never longer than `MAX_PRESENCE_CHARS` characters.
pub proof fn lemma_presence_lines_bounded(player_name: Seq<char>, friend_code: Seq<char>)
    ensures
        details_for(player_name).len() <= MAX_PRESENCE_CHARS,
        state_for(friend_code) matches Some(line) ==> line.len() <= MAX_PRESENCE_CHARS,
{
    reveal_strlit("ブルーアーカイブをプレイ中");
}

/// Whether a process is recognised does not depend on the case of the
/// ASCII letters in its name.
pub proof fn lemma_match_ignores_ascii_case(a: Seq<char>, b: Seq<char>, names: Seq<&str>)
    requires
        eq_ignoring_ascii_case(a, b),
    ensures
        matches_any(a, names) == matches_any(b, names),
{
    if matches_any(a, names) {
        let i = choose|i: int| 0 <= i < names.len() && eq_ignoring_ascii_case(a, trim(#[trigger] names[i]@));
        lemma_eq_ignoring_ascii_case_equivalence(b, a, trim(names[i]@));
        lemma_eq_ignoring_ascii_case_equivalence(a, b, trim(names[i]@));
    }
    if matches_any(b, names) {
        let i = choose|i: int| 0 <= i < names.len() && eq_ignoring_ascii_case(b, trim(#[trigger] names[i]@));
        lemma_eq_ignoring_ascii_case_equivalence(a, b, trim(names[i]@));
    }
}


/// The details line for a player name is "名前: " followed by the whole name,
/// cut only where it would pass 120 characters; without a name it is the
/// default line.
pub proof fn lemma_details_show_whole_name(player_name: Seq<char>)
    ensures
        player_name.len() == 0 ==> details_for(player_name) == "ブルーアーカイブをプレイ中"@,
        player_name.len() > 0 ==> {
            let line = details_for(player_name);
            &&& line.len() == if player_name.len() + 4 <= 120 { player_name.len() + 4 } else { 120 }
            &&& forall|i: int| 0 <= i < 4 ==> #[trigger] line[i] == "名前: "@[i]
            &&& forall|i: int| 4 <= i < line.len() ==> #[trigger] line[i] == player_name[i - 4]
        },
{
    reveal_strlit("名前: ");
    let full = name_prefix() + player_name;
    assert forall|i: int| 4 <= i < full.len() implies #[trigger] full[i] == player_name[i - 4] by {}
}

/// The state line for a friend code is "フレンドコード: " followed by the
/// whole code, cut only where it would pass 120 characters; without a code
/// there is none.
pub proof fn lemma_state_shows_whole_code(friend_code: Seq<char>)
    ensures
        friend_code.len() == 0 ==> state_for(friend_code) is None,
        friend_code.len() > 0 ==> (state_for(friend_code) matches Some(line) && {
            &&& line.len() == if friend_code.len() + 9 <= 120 { friend_code.len() + 9 } else { 120 }
            &&& forall|i: int| 0 <= i < 9 ==> #[trigger] line[i] == "フレンドコード: "@[i]
            &&& forall|i: int| 9 <= i < line.len() ==> #[trigger] line[i] == friend_code[i - 9]
        }),
{
    reveal_strlit("フレンドコード: ");
    let full = friend_code_prefix() + friend_code;
    assert forall|i: int| 9 <= i < full.len() implies #[trigger] full[i] == friend_code[i - 9] by {}
}

/// A process whose name is a configured name, trimmed, is recognised; and a
/// recognised process name has as many characters as some trimmed
/// configured name, agreeing with it letter by letter up to ASCII case.
pub proof fn lemma_match_is_letterwise(process_name: Seq<char>, names: Seq<&str>)
    ensures
        (exists|i: int| 0 <= i < names.len() && trim(#[trigger] names[i]@) == process_name)
            ==> matches_any(process_name, names),
        matches_any(process_name, names) ==> exists|i: int| 0 <= i < names.len() && {
            let n = trim(#[trigger] names[i]@);
            &&& n.len() == process_name.len()
            &&& forall|k: int| #![trigger n[k]] 0 <= k < n.len() ==> {
                ||| n[k] as u32 == process_name[k] as u32
                ||| ascii_upper(n[k]) && process_name[k] as u32 == n[k] as u32 + 32
                ||| ascii_upper(process_name[k]) && n[k] as u32 == process_name[k] as u32 + 32
            }
        },
{
    if exists|i: int| 0 <= i < names.len() && trim(#[trigger] names[i]@) == process_name {
        let i = choose|i: int| 0 <= i < names.len() && trim(#[trigger] names[i]@) == process_name;
        lemma_eq_ignoring_ascii_case_equivalence(process_name, process_name, process_name);
        assert(eq_ignoring_ascii_case(process_name, trim(names[i]@)));
    }
    if matches_any(process_name, names) {
        let i = choose|i: int| 0 <= i < names.len() && eq_ignoring_ascii_case(process_name, trim(#[trigger] names[i]@));
        let n = trim(names[i]@);
        lemma_eq_ignoring_ascii_case_letterwise(n, process_name);
        lemma_eq_ignoring_ascii_case_equivalence(process_name, n, n);
    }
}

} // verus!
