//! The official Helix API: request addresses, response models, the not-found
//! rule for user lookups and the paging of followed live streams.
use vstd::prelude::*;
use crate::cli::channel_link;
use crate::error::LookupError;
use crate::format::{duration_text, duration_to_hms, grouped, readable_number};
use crate::deser::now_seconds;
use crate::leppunen::{elapsed, elapsed_seconds};
use crate::report::{line, lines_view, push_line, Line, LineView, Tone};
use crate::text::{bounded_value, decimal, decimal_text, parse_bounded};

verus! {

/// Continuation of a paged answer.
pub struct Pagination {
    pub cursor: Option<String>,
}

impl Pagination {
    /// The cursor of the next page, if there is one.
    pub fn cursor(&self) -> (r: Option<String>)
        ensures
            r is None <==> self.cursor is None,
            r matches Some(c) ==> self.cursor matches Some(d) && c@ == d@,
    {
        match &self.cursor {
            Some(c) => Some(c.clone()),
            None => None,
        }
    }
}

/// One page of a Helix answer: its records and the way to the next page.
pub struct HelixData<T> {
    pub data: Vec<T>,
    pub pagination: Pagination,
}

impl<T: Clone> HelixData<T> {
    /// Copies of the records of this page, in order.
    pub fn items(&self) -> (r: Vec<T>)
        ensures
            r@.len() == self.data@.len(),
            forall|i: int| 0 <= i < r@.len() ==> cloned(self.data@[i], #[trigger] r@[i]),
    {
        self.data.clone()
    }
}

/// Value of the `Authorization` header for an access token.
pub fn bearer_value(access_token: &str) -> (r: String)
    ensures
        r@ == "Bearer "@ + access_token@,
{
    let mut r = String::from_str("Bearer ");
    r.append(access_token);
    r
}

/// Address of the lookup of a user by login name.
pub fn users_url(login: &str) -> (r: String)
    ensures
        r@ == "https://api.twitch.tv/helix/users?login="@ + login@,
{
    let mut r = String::from_str("https://api.twitch.tv/helix/users?login=");
    r.append(login);
    r
}

/// Address of the most recent videos of a user; one video when no amount is given.
pub fn videos_url(user_id: u32, amount: Option<u8>) -> (r: String)
    ensures
        r@ == "https://api.twitch.tv/helix/videos?user_id="@ + decimal(user_id as nat) + "&first="@
            + decimal(
            match amount {
                Some(a) => a as nat,
                None => 1,
            },
        ),
{
    let first: u8 = match amount {
        Some(a) => a,
        None => 1,
    };
    let mut r = String::from_str("https://api.twitch.tv/helix/videos?user_id=");
    let id = decimal_text(user_id as u64);
    r.append(id.as_str());
    r.append("&first=");
    let f = decimal_text(first as u64);
    r.append(f.as_str());
    r
}

/// Address of the subscription of `user_id` to `broadcaster_id`.
pub fn subscription_url(broadcaster_id: &str, user_id: &str) -> (r: String)
    ensures
        r@ == "https://api.twitch.tv/helix/subscriptions/user?broadcaster_id="@ + broadcaster_id@
            + "&user_id="@ + user_id@,
{
    let mut r = String::from_str("https://api.twitch.tv/helix/subscriptions/user?broadcaster_id=");
    r.append(broadcaster_id);
    r.append("&user_id=");
    r.append(user_id);
    r
}

/// Address of a page of the live streams that `user_id` follows: the first page,
/// or the one after `cursor`.
pub open spec fn followed_url(user_id: Seq<char>, cursor: Option<Seq<char>>) -> Seq<char> {
    let base = "https://api.twitch.tv/helix/streams/followed?user_id="@ + user_id;
    match cursor {
        Some(c) => base + "&after="@ + c,
        None => base,
    }
}

/// Address of a page of the live streams that `user_id` follows.
pub fn followed_streams_url(user_id: &str, cursor: Option<&str>) -> (r: String)
    ensures
        r@ == followed_url(
            user_id@,
            match cursor {
                Some(c) => Some(c@),
                None => None,
            },
        ),
{
    let mut r = String::from_str("https://api.twitch.tv/helix/streams/followed?user_id=");
    r.append(user_id);
    match cursor {
        Some(c) => {
            r.append("&after=");
            r.append(c);
        },
        None => {},
    }
    r
}

/// A Twitch account as the Helix API describes it.
pub struct User {
    pub broadcaster_type: String,
    pub login: String,
    pub display_name: String,
    pub uid: String,
    pub profile_image: String,
    pub user_type: String,
    pub created_at: String,
    pub view_count: u32,
}

/// The records of a user lookup.
pub struct UserData {
    pub data: Vec<User>,
}

impl UserData {
    /// The user that the lookup found: the first record, or `NotFound` when there
    /// is none.
    pub fn into_user(self) -> (r: Result<User, LookupError>)
        ensures
            self.data@.len() == 0 ==> r == Err::<User, LookupError>(LookupError::NotFound),
            self.data@.len() > 0 ==> r == Ok::<User, LookupError>(self.data@[0]),
    {
        let mut data = self.data;
        if data.len() == 0 {
            Err(LookupError::NotFound)
        } else {
            Ok(data.swap_remove(0))
        }
    }
}

/// The first ten characters of `s`, or all of it when it is shorter.
pub open spec fn date_part(s: Seq<char>) -> Seq<char> {
    if s.len() <= 10 {
        s
    } else {
        s.take(10)
    }
}

impl User {
    pub fn broadcaster_type(&self) -> (r: String)
        ensures
            r@ == self.broadcaster_type@,
    {
        self.broadcaster_type.clone()
    }

    pub fn display_name(&self) -> (r: String)
        ensures
            r@ == self.display_name@,
    {
        self.display_name.clone()
    }

    pub fn uid(&self) -> (r: String)
        ensures
            r@ == self.uid@,
    {
        self.uid.clone()
    }

    pub fn profile_image(&self) -> (r: String)
        ensures
            r@ == self.profile_image@,
    {
        self.profile_image.clone()
    }

    pub fn user_type(&self) -> (r: String)
        ensures
            r@ == self.user_type@,
    {
        self.user_type.clone()
    }

    /// Date part of the creation time (`2011-05-19` of `2011-05-19T00:28:28Z`).
    /// Text shorter than ten characters is not cut off but given whole, so that
    /// a malformed creation time is shown rather than failing the report.
    pub fn created_at(&self) -> (r: String)
        ensures
            r@ == date_part(self.created_at@),
    {
        let s = self.created_at.as_str();
        let n = s.unicode_len();
        if n <= 10 {
            self.created_at.clone()
        } else {
            s.substring_char(0, 10).to_string()
        }
    }

    pub fn login(&self) -> (r: String)
        ensures
            r@ == self.login@,
    {
        self.login.clone()
    }

    /// View count with thousands separators.
    pub fn view_count(&self) -> (r: String)
        ensures
            r@ == grouped(self.view_count as nat),
    {
        readable_number(self.view_count)
    }
}

/// A recorded past broadcast.
pub struct Vod {
    pub title: String,
    pub url: String,
    pub view_count: u32,
    pub vod_type: String,
    pub duration: String,
}

/// The records of a video listing.
pub struct VodData {
    pub data: Vec<Vod>,
}

/// A subscription of a user to a channel.
pub struct Sub {
    pub is_gift: bool,
    /// Tier as the API writes it: `1000`, `2000` or `3000`.
    pub tier: String,
    pub gifter: Option<String>,
}

/// Tier text read as a `u16` number, if it is one.
pub open spec fn tier_number(tier: Seq<char>) -> Option<nat> {
    bounded_value(tier, u16::MAX as nat)
}

impl Sub {
    pub fn is_gift(&self) -> (r: bool)
        ensures
            r == self.is_gift,
    {
        self.is_gift
    }

    /// The tier level: the tier number in thousands (`2000` gives 2).
    pub fn tier(&self) -> (r: u16)
        requires
            tier_number(self.tier@) is Some,
        ensures
            r == tier_number(self.tier@).unwrap() / 1000,
    {
        let v = parse_bounded(self.tier.as_str(), u16::MAX as u64).unwrap();
        (v / 1000) as u16
    }

    /// The tier level, or `InvalidTier` when the tier text is not a number.
    pub fn tier_level(&self) -> (r: Result<u16, LookupError>)
        ensures
            tier_number(self.tier@) matches Some(v) ==> r == Ok::<u16, LookupError>((v / 1000) as u16),
            tier_number(self.tier@) is None ==> r == Err::<u16, LookupError>(LookupError::InvalidTier),
    {
        match parse_bounded(self.tier.as_str(), u16::MAX as u64) {
            Some(_) => Ok(self.tier()),
            None => Err(LookupError::InvalidTier),
        }
    }

    /// Name of the one who gifted the subscription, `No one` when nobody did.
    pub fn gifter(&self) -> (r: String)
        ensures
            self.gifter matches Some(g) ==> r@ == g@,
            self.gifter is None ==> r@ == "No one"@,
    {
        match &self.gifter {
            Some(g) => g.clone(),
            None => String::from_str("No one"),
        }
    }
}

/// A live stream snapshot.
pub struct Channel {
    pub user_name: String,
    pub user_login: String,
    pub game_name: String,
    pub live: bool,
    pub title: String,
    pub viewer_count: u32,
    /// Start of the stream, in seconds since the Unix epoch.
    pub started_at: i64,
}

/// Collects the followed live streams of a user over the pages of the answer.
pub struct FollowedStreams {
    pub user_id: String,
    pub channels: Vec<Channel>,
}

impl FollowedStreams {
    /// A collection with no stream yet, and the address of the first page.
    pub fn new(user_id: &str) -> (r: (FollowedStreams, String))
        ensures
            r.0.user_id@ == user_id@,
            r.0.channels@.len() == 0,
            r.1@ == followed_url(user_id@, None),
    {
        let url = followed_streams_url(user_id, None);
        (FollowedStreams { user_id: user_id.to_string(), channels: Vec::new() }, url)
    }

    /// Takes in the next page: its streams are appended in order, and the address
    /// of the page after it is returned while the page carries a cursor.
    pub fn on_page(&mut self, page: HelixData<Channel>) -> (next: Option<String>)
        ensures
            final(self).user_id == old(self).user_id,
            final(self).channels@ == old(self).channels@ + page.data@,
            page.pagination.cursor is None ==> next is None,
            page.pagination.cursor matches Some(c) ==> (next matches Some(u) && u@ == followed_url(
                old(self).user_id@,
                Some(c@),
            )),
    {
        let HelixData { data, pagination } = page;
        let mut data = data;
        self.channels.append(&mut data);
        match pagination.cursor {
            Some(c) => Some(followed_streams_url(self.user_id.as_str(), Some(c.as_str()))),
            None => None,
        }
    }
}

/// The subscription that an answer to a subscription query shows: none when
/// the status is 404 Not Found or the answer holds no record, else its first record.
pub fn subscription_from_answer(status: u16, records: Vec<Sub>) -> (r: Option<Sub>)
    ensures
        (status == 404 || records@.len() == 0) ==> r is None,
        (status != 404 && records@.len() > 0) ==> r == Some(records@[0]),
{
    if status == 404 || records.len() == 0 {
        None
    } else {
        let mut records = records;
        Some(records.swap_remove(0))
    }
}

/// Text of the tier level of a subscription with a numeric tier.
pub open spec fn tier_text(s: Sub) -> Seq<char> {
    decimal(tier_number(s.tier@).unwrap() / 1000)
}

/// Status line of `user` toward `channel` given their subscription, if any.
pub open spec fn subscription_line(user: Seq<char>, channel: Seq<char>, sub: Option<Sub>) -> Seq<
    char,
> {
    match sub {
        None => user + " is not subscribed to "@ + channel,
        Some(s) => {
            let head = user + " is subscribed to "@ + channel + " with a tier "@ + tier_text(s)
                + " sub"@;
            if s.is_gift {
                head + " gifted by "@ + match s.gifter {
                    Some(g) => g@,
                    None => "No one"@,
                }
            } else {
                head
            }
        },
    }
}

/// Status line of `user` toward `channel` given the subscription record found,
/// if any; `InvalidTier` when the record's tier is not a number.
pub fn subscription_status(user: &str, channel: &str, sub: Option<&Sub>) -> (r: Result<
    String,
    LookupError,
>)
    ensures
        (sub matches Some(s) && tier_number(s.tier@) is None) ==> r == Err::<String, LookupError>(
            LookupError::InvalidTier,
        ),
        !(sub matches Some(s) && tier_number(s.tier@) is None) ==> (r matches Ok(t) && t@
            == subscription_line(
            user@,
            channel@,
            match sub {
                Some(s) => Some(*s),
                None => None,
            },
        )),
{
    let mut r = user.to_string();
    match sub {
        None => {
            r.append(" is not subscribed to ");
            r.append(channel);
            Ok(r)
        },
        Some(s) => {
            let level = match s.tier_level() {
                Ok(l) => l,
                Err(e) => {
                    return Err(e);
                },
            };
            r.append(" is subscribed to ");
            r.append(channel);
            r.append(" with a tier ");
            let t = decimal_text(level as u64);
            r.append(t.as_str());
            r.append(" sub");
            if s.is_gift() {
                r.append(" gifted by ");
                let g = s.gifter();
                r.append(g.as_str());
            }
            Ok(r)
        },
    }
}

impl User {
    /// Heading of the profile report: the display name, then
    /// `'s profile information`.
    pub open spec fn headline_model(&self) -> Seq<char> {
        self.display_name@ + "'s profile information"@
    }

    pub fn headline(&self) -> (r: String)
        ensures
            r@ == self.headline_model(),
    {
        let mut r = self.display_name.clone();
        r.append("'s profile information");
        r
    }

    /// The profile report of the account, below its heading.
    pub open spec fn lines_model(&self) -> Seq<LineView> {
        seq![
            (0nat, "- UID:"@, self.uid@, Tone::Magenta),
            (0nat, "- Created at:"@, date_part(self.created_at@), Tone::Green),
            (0nat, "- Views:"@, grouped(self.view_count as nat), Tone::Magenta),
            (0nat, "- Broadcaster type:"@, self.broadcaster_type@, Tone::Blue),
            (0nat, "- User type:"@, self.user_type@, Tone::Blue),
            (0nat, "- Profile image:"@, self.profile_image@, Tone::Blue),
            (0nat, "- Profile link:"@, "https://twitch.tv/"@ + self.login@, Tone::Blue),
        ]
    }

    /// Lines of the profile report of the account.
    pub fn lines(&self) -> (r: Vec<Line>)
        ensures
            lines_view(r@) == self.lines_model(),
    {
        let mut v: Vec<Line> = Vec::new();
        push_line(&mut v, line(0, "- UID:", self.uid(), Tone::Magenta));
        push_line(&mut v, line(0, "- Created at:", self.created_at(), Tone::Green));
        push_line(&mut v, line(0, "- Views:", self.view_count(), Tone::Magenta));
        push_line(&mut v, line(0, "- Broadcaster type:", self.broadcaster_type(), Tone::Blue));
        push_line(&mut v, line(0, "- User type:", self.user_type(), Tone::Blue));
        push_line(&mut v, line(0, "- Profile image:", self.profile_image(), Tone::Blue));
        push_line(
            &mut v,
            line(0, "- Profile link:", channel_link(self.login.as_str()), Tone::Blue),
        );
        assert(lines_view(v@) =~= self.lines_model());
        v
    }
}

impl Vod {
    /// The report of a video.
    pub open spec fn lines_model(&self) -> Seq<LineView> {
        seq![
            (0nat, "- Title:"@, self.title@, Tone::Green),
            (0nat, "- URL:"@, self.url@, Tone::Blue),
            (0nat, "- View count:"@, grouped(self.view_count as nat), Tone::Magenta),
            (0nat, "- Type:"@, self.vod_type@, Tone::Green),
            (0nat, "- Duration:"@, self.duration@, Tone::Green),
        ]
    }

    /// Lines of the report of a video.
    pub fn lines(&self) -> (r: Vec<Line>)
        ensures
            lines_view(r@) == self.lines_model(),
    {
        let mut v: Vec<Line> = Vec::new();
        push_line(&mut v, line(0, "- Title:", self.title.clone(), Tone::Green));
        push_line(&mut v, line(0, "- URL:", self.url.clone(), Tone::Blue));
        push_line(&mut v, line(0, "- View count:", readable_number(self.view_count), Tone::Magenta));
        push_line(&mut v, line(0, "- Type:", self.vod_type.clone(), Tone::Green));
        push_line(&mut v, line(0, "- Duration:", self.duration.clone(), Tone::Green));
        assert(lines_view(v@) =~= self.lines_model());
        v
    }
}

impl Channel {
    /// First line about the stream, after a marker: `► ` and who plays what to
    /// how many, or `■ ` and that the channel is offline.
    pub open spec fn headline_model(&self) -> Seq<char> {
        if self.live {
            "► "@ + self.user_name@ + " is live playing "@ + self.game_name@ + " to "@ + decimal(
                self.viewer_count as nat,
            ) + " viewers:"@
        } else {
            "■ "@ + self.user_name@ + " is offline."@
        }
    }

    pub fn headline(&self) -> (r: String)
        ensures
            r@ == self.headline_model(),
    {
        let mut r = if self.live {
            String::from_str("► ")
        } else {
            String::from_str("■ ")
        };
        r.append(self.user_name.as_str());
        if self.live {
            r.append(" is live playing ");
            r.append(self.game_name.as_str());
            r.append(" to ");
            let n = decimal_text(self.viewer_count as u64);
            r.append(n.as_str());
            r.append(" viewers:");
        } else {
            r.append(" is offline.");
        }
        r
    }

    /// Details of a live stream at time `now`: title, uptime and address; none
    /// for an offline channel.
    pub open spec fn lines_model(&self, now: i64) -> Seq<LineView> {
        if self.live {
            seq![
                (0nat, "- Title:"@, self.title@, Tone::White),
                (0nat, "- Uptime:"@, duration_text(elapsed(now, self.started_at)), Tone::Green),
                (0nat, "- URL:"@, "https://twitch.tv/"@ + self.user_login@, Tone::Blue),
            ]
        } else {
            Seq::empty()
        }
    }

    /// Lines of the details of a live stream at time `now`.
    pub fn lines_at(&self, now: i64) -> (r: Vec<Line>)
        ensures
            lines_view(r@) == self.lines_model(now),
    {
        let mut v: Vec<Line> = Vec::new();
        if self.live {
            push_line(&mut v, line(0, "- Title:", self.title.clone(), Tone::White));
            let up = duration_to_hms(elapsed_seconds(now, self.started_at));
            push_line(&mut v, line(0, "- Uptime:", up, Tone::Green));
            push_line(
                &mut v,
                line(0, "- URL:", channel_link(self.user_login.as_str()), Tone::Blue),
            );
        }
        assert(lines_view(v@) =~= self.lines_model(now));
        v
    }

    /// Lines of the details of a live stream, by the system clock.
    pub fn lines(&self) -> (r: Vec<Line>)
        ensures
            exists|now: i64| lines_view(r@) == self.lines_model(now),
    {
        let now = now_seconds();
        self.lines_at(now)
    }
}

} // verus!
