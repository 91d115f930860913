//! The public IVR user API: login validation, profile model and its parts.
use vstd::prelude::*;
use crate::error::LookupError;
use crate::report::{
    append_lines, flag_tone, line, lines_view, push_line, tone_of_flag, Line, LineView, Tone,
};
use crate::text::{decimal, decimal_text};
use crate::deser::{now_seconds, utc_date_of, utc_date_text};
use crate::format::{
    duration_text, duration_to_hms, grouped, hex_color, hex_to_rgb, hex_value, is_hex_color,
    readable_number, rgb_of, strip_hashes,
};

verus! {

/// Shortest login name that is looked up, in bytes.
pub const MIN_LOGIN_LEN: usize = 3;

/// Longest login name that is looked up, in bytes.
pub const MAX_LOGIN_LEN: usize = 25;

/// A login name whose byte length lies within the accepted bounds.
pub open spec fn valid_login(login: &str) -> bool {
    MIN_LOGIN_LEN <= login.len() <= MAX_LOGIN_LEN
}

/// Entry points of the public IVR API.
pub struct Api;

impl Api {
    /// Address of the profile of `login`, or `InvalidUsername` when its length is
    /// outside the bounds, decided before any request is made.
    pub fn user(login: &str) -> (r: Result<String, LookupError>)
        ensures
            valid_login(login) ==> (r matches Ok(u) && u@ == "https://api.ivr.fi/v2/twitch/user/"@
                + login@),
            !valid_login(login) ==> r == Err::<String, LookupError>(LookupError::InvalidUsername),
    {
        let n = login.len();
        if n < MIN_LOGIN_LEN || n > MAX_LOGIN_LEN {
            return Err(LookupError::InvalidUsername);
        }
        let mut u = String::from_str("https://api.ivr.fi/v2/twitch/user/");
        u.append(login);
        Ok(u)
    }

    /// Address of the log listing of `user` in `channel`.
    pub fn logs_list_url(user: &str, channel: &str) -> (r: String)
        ensures
            r@ == "https://logs.ivr.fi/list?channel="@ + channel@ + "&user="@ + user@,
    {
        let mut u = String::from_str("https://logs.ivr.fi/list?channel=");
        u.append(channel);
        u.append("&user=");
        u.append(user);
        u
    }

    /// Address of the log viewer page for `user` in `channel`.
    pub fn logs_page_url(user: &str, channel: &str) -> (r: String)
        ensures
            r@ == "https://logs.ivr.fi/?channel="@ + channel@ + "&username="@ + user@,
    {
        let mut u = String::from_str("https://logs.ivr.fi/?channel=");
        u.append(channel);
        u.append("&username=");
        u.append(user);
        u
    }

    /// Whether the status of the log listing request shows that logs exist:
    /// every status but 404 Not Found does.
    pub fn is_valid_logs_query(status: u16) -> (r: bool)
        ensures
            r == (status != 404),
    {
        status != 404
    }
}

/// Text for a flag: `yes` or `no`.
pub open spec fn yes_no_text(b: bool) -> Seq<char> {
    if b {
        "yes"@
    } else {
        "no"@
    }
}

/// `yes` for true, `no` for false.
pub fn yes_no(b: bool) -> (r: String)
    ensures
        r@ == yes_no_text(b),
{
    if b {
        String::from_str("yes")
    } else {
        String::from_str("no")
    }
}

/// Account roles of a user.
pub struct Roles {
    pub is_affiliate: bool,
    pub is_partner: bool,
    pub is_staff: Option<bool>,
}

impl Roles {
    /// Names of the roles that are set, in the order affiliate, partner, staff;
    /// an unknown staff flag counts as not set.
    pub open spec fn active(&self) -> Seq<Seq<char>> {
        let a: Seq<Seq<char>> = if self.is_affiliate { seq!["Affiliate"@] } else { seq![] };
        let p: Seq<Seq<char>> = if self.is_partner { seq!["Partner"@] } else { seq![] };
        let s: Seq<Seq<char>> = if self.is_staff == Some(true) { seq!["Staff"@] } else { seq![] };
        a + p + s
    }

    pub fn get_active(&self) -> (r: Vec<String>)
        ensures
            r@.map_values(|s: String| s@) == self.active(),
    {
        let mut roles: Vec<String> = Vec::new();
        if self.is_affiliate {
            roles.push(String::from_str("Affiliate"));
        }
        if self.is_partner {
            roles.push(String::from_str("Partner"));
        }
        let staff = match self.is_staff {
            Some(b) => b,
            None => false,
        };
        if staff {
            roles.push(String::from_str("Staff"));
        }
        assert(roles@.map_values(|s: String| s@) =~= self.active());
        roles
    }
}

/// How a badge title is tinted.
#[derive(Debug, Clone, Copy, PartialEq, Eq, Structural)]
pub enum Tint {
    /// A 24-bit colour.
    Rgb(u8, u8, u8),
    /// The terminal's white.
    White,
}

/// A chat badge, by title.
pub struct Badge {
    pub title: String,
}

/// Tint of a badge with the given title.
pub open spec fn badge_tint(title: Seq<char>) -> Tint {
    if title == "Verified"@ {
        Tint::Rgb(196, 77, 255)
    } else if title == "Prime Gaming"@ {
        Tint::Rgb(38, 139, 255)
    } else if title == "GlitchCon 2020"@ {
        Tint::Rgb(242, 179, 255)
    } else if title == "TwitchCon 2020 - Amsterdam"@ {
        Tint::Rgb(170, 0, 204)
    } else {
        Tint::White
    }
}

fn same_text(a: &str, b: &str) -> (r: bool)
    ensures
        r == (a@ == b@),
{
    let n = a.unicode_len();
    if n != b.unicode_len() {
        return false;
    }
    let mut i: usize = 0;
    while i < n
        invariant
            n == a@.len(),
            n == b@.len(),
            i <= n,
            forall|k: int| 0 <= k < i ==> a@[k] == b@[k],
        decreases n - i,
    {
        if a.get_char(i) != b.get_char(i) {
            return false;
        }
        i = i + 1;
    }
    assert(a@ =~= b@);
    true
}

impl Badge {
    /// The tint the badge's title is shown in.
    pub fn color(&self) -> (r: Tint)
        ensures
            r == badge_tint(self.title@),
    {
        let t = self.title.as_str();
        if same_text(t, "Verified") {
            Tint::Rgb(196, 77, 255)
        } else if same_text(t, "Prime Gaming") {
            Tint::Rgb(38, 139, 255)
        } else if same_text(t, "GlitchCon 2020") {
            Tint::Rgb(242, 179, 255)
        } else if same_text(t, "TwitchCon 2020 - Amsterdam") {
            Tint::Rgb(170, 0, 204)
        } else {
            Tint::White
        }
    }
}

/// Chat settings of a channel; durations in whole seconds.
pub struct ChatSettings {
    pub chat_delay: i64,
    pub followers_only_duration: i64,
    pub slow_mode_duration: i64,
    pub emote_only: bool,
    pub sub_only: bool,
    pub unique_chat: bool,
    pub require_verified_account: bool,
    pub chat_rules: Vec<String>,
}

/// The most recent broadcast of a channel.
pub struct LastBroadcast {
    /// Start, in seconds since the Unix epoch.
    pub started_at: i64,
    pub title: Option<String>,
}

/// Seconds from `since` to `now`, held to the range of `i64`.
pub open spec fn elapsed(now: i64, since: i64) -> int {
    let d = now - since;
    if d > i64::MAX {
        i64::MAX as int
    } else if d < i64::MIN {
        i64::MIN as int
    } else {
        d
    }
}

pub(crate) fn elapsed_seconds(now: i64, since: i64) -> (r: i64)
    ensures
        r == elapsed(now, since),
{
    match now.checked_sub(since) {
        Some(d) => d,
        None => {
            if since < 0 {
                i64::MAX
            } else {
                i64::MIN
            }
        },
    }
}

impl LastBroadcast {
    /// How long ago, at time `now`, the broadcast started, as duration text.
    pub fn time_since_at(&self, now: i64) -> (r: String)
        ensures
            r@ == duration_text(elapsed(now, self.started_at)),
    {
        duration_to_hms(elapsed_seconds(now, self.started_at))
    }

    /// How long ago the broadcast started, as duration text, by the system clock.
    pub fn time_since(&self) -> (r: String)
        ensures
            exists|now: i64| r@ == duration_text(elapsed(now, self.started_at)),
    {
        let now = now_seconds();
        self.time_since_at(now)
    }
}

/// Public profile of a user.
pub struct User {
    pub uid: u32,
    pub banned: bool,
    pub display_name: String,
    pub bio: Option<String>,
    pub follows: u16,
    pub followers: u32,
    pub channel_views: u32,
    pub chat_color: String,
    pub logo: String,
    pub verified_bot: bool,
    /// Account creation, in seconds since the Unix epoch.
    pub created_at: i64,
    pub emote_prefix: String,
    pub roles: Roles,
    pub badges: Vec<Badge>,
    pub chat_settings: ChatSettings,
    pub last_broadcast: LastBroadcast,
}

impl User {
    pub fn uid(&self) -> (r: u32)
        ensures
            r == self.uid,
    {
        self.uid
    }

    /// Number of accounts the user follows, with thousands separators.
    pub fn following(&self) -> (r: String)
        ensures
            r@ == grouped(self.follows as nat),
    {
        readable_number(self.follows as u32)
    }

    /// Number of followers, with thousands separators.
    pub fn followers(&self) -> (r: String)
        ensures
            r@ == grouped(self.followers as nat),
    {
        readable_number(self.followers)
    }

    /// Number of channel views, with thousands separators.
    pub fn channel_views(&self) -> (r: String)
        ensures
            r@ == grouped(self.channel_views as nat),
    {
        readable_number(self.channel_views)
    }

    /// Channels of the chat colour, when it is hexadecimal colour text.
    pub fn chat_rgb(&self) -> (r: Option<(u8, u8, u8)>)
        ensures
            hex_color(self.chat_color@) ==> r == Some(rgb_of(hex_value(strip_hashes(self.chat_color@)))),
            !hex_color(self.chat_color@) ==> r is None,
    {
        if is_hex_color(self.chat_color.as_str()) {
            Some(hex_to_rgb(self.chat_color.as_str()))
        } else {
            None
        }
    }

    /// Calendar date, in UTC, on which the account was created.
    pub fn created_date(&self) -> (r: Result<String, LookupError>)
        ensures
            utc_date_of(self.created_at) matches Some(d) ==> (r matches Ok(s) && s@ == d),
            utc_date_of(self.created_at) is None ==> r == Err::<String, LookupError>(
                LookupError::InvalidTimestamp,
            ),
    {
        match utc_date_text(self.created_at) {
            Some(d) => Ok(d),
            None => Err(LookupError::InvalidTimestamp),
        }
    }
}

/// A line showing a flag as `yes` or `no`.
pub open spec fn flag_line(indent: nat, label: Seq<char>, b: bool) -> LineView {
    (indent, label, yes_no_text(b), flag_tone(b))
}

fn push_flag(v: &mut Vec<Line>, indent: u8, label: &str, b: bool)
    ensures
        lines_view(final(v)@) == lines_view(old(v)@).push(flag_line(indent as nat, label@, b)),
{
    push_line(v, line(indent, label, yes_no(b), tone_of_flag(b)));
}

impl Roles {
    /// The staff flag, an unknown one counting as not set.
    pub open spec fn staff(&self) -> bool {
        self.is_staff == Some(true)
    }

    /// Report lines of the roles: affiliate, partner and staff flags.
    pub open spec fn lines_model(&self) -> Seq<LineView> {
        seq![
            flag_line(1, "- Affiliate:"@, self.is_affiliate),
            flag_line(1, "- Partner:"@, self.is_partner),
            flag_line(1, "- Staff:"@, self.staff()),
        ]
    }

    pub fn lines(&self) -> (r: Vec<Line>)
        ensures
            lines_view(r@) == self.lines_model(),
    {
        let mut v: Vec<Line> = Vec::new();
        push_flag(&mut v, 1, "- Affiliate:", self.is_affiliate);
        push_flag(&mut v, 1, "- Partner:", self.is_partner);
        let staff = match self.is_staff {
            Some(b) => b,
            None => false,
        };
        push_flag(&mut v, 1, "- Staff:", staff);
        assert(lines_view(v@) =~= self.lines_model());
        v
    }
}

/// Tone of a badge tint.
pub open spec fn tint_tone(t: Tint) -> Tone {
    match t {
        Tint::Rgb(r, g, b) => Tone::Rgb(r, g, b),
        Tint::White => Tone::White,
    }
}

/// The report tone of a badge tint.
pub fn tint_to_tone(t: Tint) -> (r: Tone)
    ensures
        r == tint_tone(t),
{
    match t {
        Tint::Rgb(r, g, b) => Tone::Rgb(r, g, b),
        Tint::White => Tone::White,
    }
}

/// Report lines of badges: one per badge, its title in the badge's tint.
pub open spec fn badge_lines(badges: Seq<Badge>) -> Seq<LineView> {
    badges.map_values(|b: Badge| (1nat, "-"@, b.title@, tint_tone(badge_tint(b.title@))))
}

/// Report lines of chat rules: one per rule.
pub open spec fn rule_lines(rules: Seq<String>) -> Seq<LineView> {
    rules.map_values(|r: String| (2nat, "-"@, r@, Tone::Yellow))
}

fn push_badges(v: &mut Vec<Line>, badges: &Vec<Badge>)
    ensures
        lines_view(final(v)@) == lines_view(old(v)@) + badge_lines(badges@),
{
    let ghost start = lines_view(v@);
    let mut i: usize = 0;
    while i < badges.len()
        invariant
            i <= badges@.len(),
            lines_view(v@) == start + badge_lines(badges@.take(i as int)),
        decreases badges@.len() - i,
    {
        let b = &badges[i];
        push_line(v, line(1, "-", b.title.clone(), tint_to_tone(b.color())));
        assert(badge_lines(badges@.take(i + 1)) =~= badge_lines(badges@.take(i as int)).push(
            (1nat, "-"@, b.title@, tint_tone(badge_tint(b.title@))),
        ));
        i = i + 1;
    }
    assert(badges@.take(badges@.len() as int) =~= badges@);
}

fn push_rules(v: &mut Vec<Line>, rules: &Vec<String>)
    ensures
        lines_view(final(v)@) == lines_view(old(v)@) + rule_lines(rules@),
{
    let ghost start = lines_view(v@);
    let mut i: usize = 0;
    while i < rules.len()
        invariant
            i <= rules@.len(),
            lines_view(v@) == start + rule_lines(rules@.take(i as int)),
        decreases rules@.len() - i,
    {
        push_line(v, line(2, "-", rules[i].clone(), Tone::Yellow));
        assert(rule_lines(rules@.take(i + 1)) =~= rule_lines(rules@.take(i as int)).push(
            (2nat, "-"@, rules@[i as int]@, Tone::Yellow),
        ));
        i = i + 1;
    }
    assert(rules@.take(rules@.len() as int) =~= rules@);
}

impl ChatSettings {
    /// Report lines of the chat settings: durations, mode flags, then the rules.
    pub open spec fn lines_model(&self) -> Seq<LineView> {
        seq![
            (1nat, "- Chat delay:"@, duration_text(self.chat_delay as int), Tone::Green),
            (
                1nat,
                "- Followers only duration:"@,
                duration_text(self.followers_only_duration as int),
                Tone::Green,
            ),
            (1nat, "- Slow mode duration:"@, duration_text(self.slow_mode_duration as int), Tone::Green),
            flag_line(1, "- Emote only:"@, self.emote_only),
            flag_line(1, "- Sub only:"@, self.sub_only),
            flag_line(1, "- Unique chat:"@, self.unique_chat),
            flag_line(1, "- Require verified account:"@, self.require_verified_account),
            (1nat, "- Chat rules:"@, Seq::<char>::empty(), Tone::Plain),
        ] + rule_lines(self.chat_rules@)
    }

    pub fn lines(&self) -> (r: Vec<Line>)
        ensures
            lines_view(r@) == self.lines_model(),
    {
        let mut v: Vec<Line> = Vec::new();
        push_line(&mut v, line(1, "- Chat delay:", duration_to_hms(self.chat_delay), Tone::Green));
        push_line(
            &mut v,
            line(
                1,
                "- Followers only duration:",
                duration_to_hms(self.followers_only_duration),
                Tone::Green,
            ),
        );
        push_line(
            &mut v,
            line(1, "- Slow mode duration:", duration_to_hms(self.slow_mode_duration), Tone::Green),
        );
        push_flag(&mut v, 1, "- Emote only:", self.emote_only);
        push_flag(&mut v, 1, "- Sub only:", self.sub_only);
        push_flag(&mut v, 1, "- Unique chat:", self.unique_chat);
        push_flag(&mut v, 1, "- Require verified account:", self.require_verified_account);
        push_line(&mut v, line(1, "- Chat rules:", String::new(), Tone::Plain));
        push_rules(&mut v, &self.chat_rules);
        assert(lines_view(v@) =~= self.lines_model());
        v
    }
}

/// Text of a creation date: the UTC calendar date, or `unknown` out of range.
pub open spec fn date_or_unknown(seconds: i64) -> Seq<char> {
    match utc_date_of(seconds) {
        Some(d) => d,
        None => "unknown"@,
    }
}

impl User {
    /// Tone of the user's name: the chat colour when it is hexadecimal colour text.
    /// Any other chat colour (users who never set one have empty text) is
    /// accepted on purpose and leaves the name untinted, so the reports below
    /// hold for every user.
    pub open spec fn name_tone_model(&self) -> Tone {
        if hex_color(self.chat_color@) {
            let c = rgb_of(hex_value(strip_hashes(self.chat_color@)));
            Tone::Rgb(c.0, c.1, c.2)
        } else {
            Tone::Plain
        }
    }

    pub fn name_tone(&self) -> (r: Tone)
        ensures
            r == self.name_tone_model(),
    {
        match self.chat_rgb() {
            Some((r, g, b)) => Tone::Rgb(r, g, b),
            None => Tone::Plain,
        }
    }

    fn created_text(&self) -> (r: String)
        ensures
            r@ == date_or_unknown(self.created_at),
    {
        match self.created_date() {
            Ok(d) => d,
            Err(_) => String::from_str("unknown"),
        }
    }

    /// The id and ban lines that open both profile reports.
    pub open spec fn id_lines(&self) -> Seq<LineView> {
        seq![
            (0nat, "- User ID:"@, decimal(self.uid as nat), Tone::Magenta),
            flag_line(0, "- Banned:"@, self.banned),
        ]
    }

    /// The follow, view and colour lines that both profile reports hold.
    pub open spec fn count_lines(&self) -> Seq<LineView> {
        seq![
            (0nat, "- Follows:"@, grouped(self.follows as nat), Tone::Magenta),
            (0nat, "- Followers:"@, grouped(self.followers as nat), Tone::Magenta),
            (0nat, "- Channel views:"@, grouped(self.channel_views as nat), Tone::Magenta),
            (0nat, "- Chat color:"@, self.chat_color@, self.name_tone_model()),
        ]
    }

    fn push_id_lines(&self, v: &mut Vec<Line>)
        ensures
            lines_view(final(v)@) == lines_view(old(v)@) + self.id_lines(),
    {
        let ghost start = lines_view(v@);
        push_line(v, line(0, "- User ID:", decimal_text(self.uid as u64), Tone::Magenta));
        push_flag(v, 0, "- Banned:", self.banned);
        assert(lines_view(v@) =~= start + self.id_lines());
    }

    fn push_count_lines(&self, v: &mut Vec<Line>)
        ensures
            lines_view(final(v)@) == lines_view(old(v)@) + self.count_lines(),
    {
        let ghost start = lines_view(v@);
        push_line(v, line(0, "- Follows:", self.following(), Tone::Magenta));
        push_line(v, line(0, "- Followers:", self.followers(), Tone::Magenta));
        push_line(v, line(0, "- Channel views:", self.channel_views(), Tone::Magenta));
        push_line(v, line(0, "- Chat color:", self.chat_color.clone(), self.name_tone()));
        assert(lines_view(v@) =~= start + self.count_lines());
    }

    /// The compact profile report at time `now`.
    pub open spec fn compact_model(&self, now: i64) -> Seq<LineView> {
        self.id_lines() + seq![(0nat, "- Display name:"@, self.display_name@, self.name_tone_model())]
            + self.count_lines() + seq![
            (0nat, "- Profile image:"@, self.logo@, Tone::Blue),
            (0nat, "- Account created:"@, date_or_unknown(self.created_at), Tone::Green),
            (
                0nat,
                "- Downtime:"@,
                duration_text(elapsed(now, self.last_broadcast.started_at)),
                Tone::Green,
            ),
        ]
    }

    /// Lines of the compact profile report at time `now`.
    pub fn compact_lines(&self, now: i64) -> (r: Vec<Line>)
        ensures
            lines_view(r@) == self.compact_model(now),
    {
        let mut v: Vec<Line> = Vec::new();
        self.push_id_lines(&mut v);
        push_line(&mut v, line(0, "- Display name:", self.display_name.clone(), self.name_tone()));
        self.push_count_lines(&mut v);
        push_line(&mut v, line(0, "- Profile image:", self.logo.clone(), Tone::Blue));
        push_line(&mut v, line(0, "- Account created:", self.created_text(), Tone::Green));
        push_line(
            &mut v,
            line(0, "- Downtime:", self.last_broadcast.time_since_at(now), Tone::Green),
        );
        assert(lines_view(v@) =~= self.compact_model(now));
        v
    }

    /// The verbose profile report at time `now`.
    pub open spec fn verbose_model(&self, now: i64) -> Seq<LineView> {
        self.id_lines() + seq![
            (
                0nat,
                "- Bio:"@,
                match self.bio {
                    Some(b) => b@,
                    None => Seq::<char>::empty(),
                },
                Tone::Plain,
            ),
        ] + self.count_lines() + seq![
            (0nat, "- Profile picture:"@, self.logo@, Tone::Blue),
            flag_line(0, "- Verified bot:"@, self.verified_bot),
            (0nat, "- Created at:"@, date_or_unknown(self.created_at), Tone::Green),
            (0nat, "- Emote prefix:"@, self.emote_prefix@, Tone::Plain),
            (0nat, "- Roles:"@, Seq::<char>::empty(), Tone::Plain),
        ] + self.roles.lines_model() + seq![(0nat, "- Badges:"@, Seq::<char>::empty(), Tone::Plain)]
            + badge_lines(self.badges@) + seq![
            (0nat, "- Chat Settings:"@, Seq::<char>::empty(), Tone::Plain),
        ] + self.chat_settings.lines_model() + seq![
            (
                0nat,
                "- Downtime:"@,
                duration_text(elapsed(now, self.last_broadcast.started_at)),
                Tone::Plain,
            ),
        ]
    }

    /// Lines of the verbose profile report at time `now`.
    #[verifier::rlimit(40)]
    pub fn verbose_lines(&self, now: i64) -> (r: Vec<Line>)
        ensures
            lines_view(r@) == self.verbose_model(now),
    {
        let mut v: Vec<Line> = Vec::new();
        self.push_id_lines(&mut v);
        let bio = match &self.bio {
            Some(b) => b.clone(),
            None => String::new(),
        };
        push_line(&mut v, line(0, "- Bio:", bio, Tone::Plain));
        self.push_count_lines(&mut v);
        push_line(&mut v, line(0, "- Profile picture:", self.logo.clone(), Tone::Blue));
        push_flag(&mut v, 0, "- Verified bot:", self.verified_bot);
        push_line(&mut v, line(0, "- Created at:", self.created_text(), Tone::Green));
        push_line(&mut v, line(0, "- Emote prefix:", self.emote_prefix.clone(), Tone::Plain));
        push_line(&mut v, line(0, "- Roles:", String::new(), Tone::Plain));
        append_lines(&mut v, self.roles.lines());
        push_line(&mut v, line(0, "- Badges:", String::new(), Tone::Plain));
        push_badges(&mut v, &self.badges);
        push_line(&mut v, line(0, "- Chat Settings:", String::new(), Tone::Plain));
        append_lines(&mut v, self.chat_settings.lines());
        push_line(
            &mut v,
            line(0, "- Downtime:", self.last_broadcast.time_since_at(now), Tone::Plain),
        );
        assert(lines_view(v@) =~= self.verbose_model(now));
        v
    }
}

/// How much of a profile to show.
#[derive(Debug, Clone, Copy, PartialEq, Eq, Structural)]
pub enum DisplayMode {
    Compact,
    Verbose,
}

impl User {
    /// The profile report in the given mode at time `now`.
    pub open spec fn profile_model(&self, mode: DisplayMode, now: i64) -> Seq<LineView> {
        match mode {
            DisplayMode::Compact => self.compact_model(now),
            DisplayMode::Verbose => self.verbose_model(now),
        }
    }

    /// Lines of the profile report in the given mode at time `now`.
    pub fn profile_lines(&self, mode: DisplayMode, now: i64) -> (r: Vec<Line>)
        ensures
            lines_view(r@) == self.profile_model(mode, now),
    {
        match mode {
            DisplayMode::Compact => self.compact_lines(now),
            DisplayMode::Verbose => self.verbose_lines(now),
        }
    }

    /// Lines of the profile report in the given mode, by the system clock.
    pub fn profile(&self, mode: DisplayMode) -> (r: Vec<Line>)
        ensures
            exists|now: i64| lines_view(r@) == self.profile_model(mode, now),
    {
        let now = now_seconds();
        self.profile_lines(mode, now)
    }
}

} // verus!
