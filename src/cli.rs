//! The commands the tool understands, and the small decisions taken on them
//! before any request.
use vstd::prelude::*;

verus! {

/// A parsed command line.
#[derive(Debug)]
pub struct Args {
    pub action: Action,
}

/// What the operator asked for.
#[allow(inconsistent_fields)]
#[non_exhaustive]
#[derive(Debug)]
pub enum Action {
    /// General account information.
    User(UserAction),
    /// Chat information of an account.
    Chat(ChatAction),
    /// Whether a channel is live, and its viewer count.
    Live { channel: String },
    /// Open a bot command's page in the browser.
    Command { bot: String, cmd_name: String },
    /// Open a user's logs in a channel in the browser.
    Logs { user: String, channel: Option<String> },
    /// How long a user has followed a channel.
    Fa { user: String, channel: Option<String> },
    /// The stream title of a channel.
    Title { channel: String },
    /// Subscription status toward a channel.
    Subbed { user: String, channel: Option<String> },
    /// Recent videos of a channel.
    Vods { channel: String, amount: Option<u8> },
    /// Live streams among the channels the operator follows.
    Ll,
}

/// Which account detail to show.
#[derive(Debug)]
pub enum UserAction {
    Compact { user: String },
    Verbose { user: String },
    Uid { user: String },
    Bc { user: String },
    Dn { user: String },
    Uf { user: String },
    Fu { user: String },
    Cv { user: String },
    Cc { user: String },
    Pfp { user: String },
    Bot { user: String },
    Cd { user: String },
    Ep { user: String },
    Roles { user: String },
    Badges { user: String },
    Cs { user: String },
    Dt { user: String },
    Link { user: String },
}

/// Which chat detail to show.
#[derive(Debug)]
pub enum ChatAction {
    Streamer { channel: String },
    Mods { channel: String },
    Vips { channel: String },
    Normals { channel: String },
    Count { channel: String },
    Present { user: String, channel: String },
}

/// The user and the channel a two-name command is about: with a channel given,
/// the named user toward it; without, the operator toward the named channel.
pub fn subject_and_target(user: String, channel: Option<String>, own_login: &str) -> (r: (
    String,
    String,
))
    ensures
        channel matches Some(c) ==> r.0@ == user@ && r.1@ == c@,
        channel is None ==> r.0@ == own_login@ && r.1@ == user@,
{
    match channel {
        Some(c) => (user, c),
        None => (own_login.to_string(), user),
    }
}

/// A bot name the command pages are known for.
pub open spec fn known_bot(bot: Seq<char>) -> bool {
    bot == "supi"@ || bot == "supibot"@
}

fn is_known_bot(bot: &str) -> (r: bool)
    ensures
        r == known_bot(bot@),
{
    let supi = "supi";
    let supibot = "supibot";
    proof {
        reveal_strlit("supi");
        reveal_strlit("supibot");
    }
    let n = bot.unicode_len();
    if n != 4 && n != 7 {
        return false;
    }
    let head = bot.get_char(0) == 's' && bot.get_char(1) == 'u' && bot.get_char(2) == 'p'
        && bot.get_char(3) == 'i';
    if n == 4 {
        if head {
            assert(bot@ =~= supi@);
        }
        return head;
    }
    let r = head && bot.get_char(4) == 'b' && bot.get_char(5) == 'o' && bot.get_char(6) == 't';
    if r {
        assert(bot@ =~= supibot@);
    }
    r
}

/// Address of the page of a bot command, for the bots whose pages are known.
pub fn command_url(bot: &str, cmd_name: &str) -> (r: Option<String>)
    ensures
        known_bot(bot@) ==> (r matches Some(u) && u@ == "https://supinic.com/bot/command/detail/"@
            + cmd_name@),
        !known_bot(bot@) ==> r is None,
{
    if is_known_bot(bot) {
        let mut u = String::from_str("https://supinic.com/bot/command/detail/");
        u.append(cmd_name);
        Some(u)
    } else {
        None
    }
}

/// Address of the channel page of a login name.
pub fn channel_link(login: &str) -> (r: String)
    ensures
        r@ == "https://twitch.tv/"@ + login@,
{
    let mut u = String::from_str("https://twitch.tv/");
    u.append(login);
    u
}

} // verus!
