//! Chat room membership as reported by the chatters endpoint.
use vstd::prelude::*;

verus! {

/// Some entry of `names` reads `user`.
pub open spec fn lists(names: Seq<String>, user: Seq<char>) -> bool {
    exists|i: int| 0 <= i < names.len() && (#[trigger] names[i])@ == user
}

/// Address of the chatter roster of `channel`.
pub fn chatters_url(channel: &str) -> (r: String)
    ensures
        r@ == "https://tmi.twitch.tv/group/user/"@ + channel@ + "/chatters"@,
{
    let mut r = String::from_str("https://tmi.twitch.tv/group/user/");
    r.append(channel);
    r.append("/chatters");
    r
}

/// Snapshot of a chat room: how many are in it and who, by role.
pub struct Chat {
    pub chatter_count: u32,
    pub chatters: Chatters,
}

/// Names in a chat room, by role.
pub struct Chatters {
    pub broadcaster: Vec<String>,
    pub moderators: Vec<String>,
    pub vips: Vec<String>,
    pub viewers: Vec<String>,
}

impl Chat {
    pub fn chatter_count(&self) -> (r: u32)
        ensures
            r == self.chatter_count,
    {
        self.chatter_count
    }

    pub fn chatters(&self) -> (r: &Chatters)
        ensures
            *r == self.chatters,
    {
        &self.chatters
    }
}

fn find_name(names: &Vec<String>, user: &String) -> (r: bool)
    ensures
        r == lists(names@, user@),
{
    let mut i: usize = 0;
    while i < names.len()
        invariant
            i <= names@.len(),
            forall|k: int| 0 <= k < i ==> (#[trigger] names@[k])@ != user@,
        decreases names@.len() - i,
    {
        if names[i] == *user {
            return true;
        }
        i = i + 1;
    }
    false
}

impl Chatters {
    /// The broadcaster's name, or empty text when the broadcaster is not in chat.
    pub open spec fn broadcaster_name(&self) -> Seq<char> {
        if self.broadcaster@.len() == 0 {
            Seq::empty()
        } else {
            self.broadcaster@[0]@
        }
    }

    /// `user` is a moderator, a VIP, a viewer, or the broadcaster.
    pub open spec fn present(&self, user: Seq<char>) -> bool {
        ||| lists(self.moderators@, user)
        ||| lists(self.vips@, user)
        ||| lists(self.viewers@, user)
        ||| (self.broadcaster@.len() > 0 && self.broadcaster@[0]@ == user)
    }

    /// The broadcaster's name; empty when the broadcaster is not in chat.
    pub fn broadcaster(&self) -> (r: &str)
        ensures
            r@ == self.broadcaster_name(),
    {
        if self.broadcaster.len() == 0 {
            let e = "";
            proof {
                reveal_strlit("");
            }
            e
        } else {
            self.broadcaster[0].as_str()
        }
    }

    pub fn moderators(&self) -> (r: &Vec<String>)
        ensures
            r@ == self.moderators@,
    {
        &self.moderators
    }

    pub fn vips(&self) -> (r: &Vec<String>)
        ensures
            r@ == self.vips@,
    {
        &self.vips
    }

    pub fn viewers(&self) -> (r: &Vec<String>)
        ensures
            r@ == self.viewers@,
    {
        &self.viewers
    }

    /// Whether `user` is in chat in any role.
    pub fn is_present(&self, user: String) -> (r: bool)
        ensures
            r == self.present(user@),
    {
        if find_name(&self.moderators, &user) {
            return true;
        }
        if find_name(&self.vips, &user) {
            return true;
        }
        if find_name(&self.viewers, &user) {
            return true;
        }
        if self.broadcaster.len() > 0 {
            return self.broadcaster[0] == user;
        }
        false
    }
}

} // verus!
