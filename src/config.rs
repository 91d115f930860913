//! The operator's credentials and the text they are pasted in as.
use vstd::prelude::*;
use crate::error::LookupError;
use crate::text::push_char;

verus! {

/// Login, user id, client id and access token of the operator.
pub struct Config {
    pub login: String,
    pub user_id: String,
    pub client_id: String,
    pub access_token: String,
}

/// The `;`-separated fields of `s`, in order; text without a `;` is one field.
pub open spec fn split_fields(s: Seq<char>) -> Seq<Seq<char>>
    decreases s.len(),
{
    if s.len() == 0 {
        seq![Seq::empty()]
    } else {
        let f = split_fields(s.drop_last());
        if s.last() == ';' {
            f.push(Seq::empty())
        } else {
            f.drop_last().push(f.last().push(s.last()))
        }
    }
}

proof fn lemma_split_fields_nonempty(s: Seq<char>)
    ensures
        split_fields(s).len() >= 1,
    decreases s.len(),
{
    if s.len() > 0 {
        lemma_split_fields_nonempty(s.drop_last());
    }
}

impl Config {
    /// No credential is set: the state before the first setup.
    pub open spec fn unset(&self) -> bool {
        &&& self.login@.len() == 0
        &&& self.user_id@.len() == 0
        &&& self.client_id@.len() == 0
        &&& self.access_token@.len() == 0
    }

    pub fn is_unset(&self) -> (r: bool)
        ensures
            r == self.unset(),
    {
        self.login.as_str().is_empty() && self.user_id.as_str().is_empty()
            && self.client_id.as_str().is_empty() && self.access_token.as_str().is_empty()
    }

    /// Reads `login;user_id;client_id;access_token`; text with another number of
    /// fields is `MalformedCredentials`.
    pub fn from_credentials(text: &str) -> (r: Result<Config, LookupError>)
        ensures
            split_fields(text@).len() != 4 ==> r == Err::<Config, LookupError>(
                LookupError::MalformedCredentials,
            ),
            split_fields(text@).len() == 4 ==> (r matches Ok(c) && c.login@ == split_fields(
                text@,
            )[0] && c.user_id@ == split_fields(text@)[1] && c.client_id@ == split_fields(
                text@,
            )[2] && c.access_token@ == split_fields(text@)[3]),
    {
        let n = text.unicode_len();
        let mut done: Vec<String> = Vec::new();
        let mut cur = String::new();
        let mut i: usize = 0;
        assert(text@.take(0) =~= Seq::<char>::empty());
        while i < n
            invariant
                n == text@.len(),
                i <= n,
                done@.map_values(|f: String| f@).push(cur@) == split_fields(text@.take(i as int)),
            decreases n - i,
        {
            let c = text.get_char(i);
            let ghost prev = text@.take(i as int);
            let ghost next = text@.take(i + 1);
            assert(next.drop_last() =~= prev);
            assert(next.last() == c);
            proof {
                lemma_split_fields_nonempty(prev);
            }
            if c == ';' {
                let f = cur;
                cur = String::new();
                done.push(f);
                assert(done@.map_values(|f: String| f@).push(cur@) =~= split_fields(next));
            } else {
                push_char(&mut cur, c);
                assert(done@.map_values(|f: String| f@).push(cur@) =~= split_fields(next));
            }
            i = i + 1;
        }
        assert(text@.take(n as int) =~= text@);
        let ghost fields = split_fields(text@);
        if done.len() != 3 {
            return Err(LookupError::MalformedCredentials);
        }
        assert(fields[0] == done@[0]@);
        assert(fields[1] == done@[1]@);
        assert(fields[2] == done@[2]@);
        Ok(
            Config {
                login: done[0].clone(),
                user_id: done[1].clone(),
                client_id: done[2].clone(),
                access_token: cur,
            },
        )
    }
}

} // verus!
