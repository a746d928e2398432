use std::collections::HashSet;
use vstd::prelude::*;
use vstd::string::StringExecFns;

use crate::notify::{send_message_endpoint, send_message_url};

verus! {

broadcast use vstd::std_specs::hash::group_hash_axioms;

/// The bot API server used when none is configured.
pub open spec fn default_api_base() -> Seq<char> {
    "https://api.telegram.org"@
}

/// The cooldown, in seconds, used when none is configured.
pub const DEFAULT_COOLDOWN_SECONDS: u64 = 60;

/// The abstract content of a configuration.
pub ghost struct ConfigModel {
    pub api_id: i32,
    pub api_hash: Seq<char>,
    pub bot_token: Seq<char>,
    pub owner_id: i64,
    pub api_base_url: Seq<char>,
    pub following: Set<i64>,
    pub cooldown_seconds: u64,
}

/// Settings loaded once at startup and read-only afterwards.
pub struct Configure {
    api_id: i32,
    api_hash: String,
    bot_token: String,
    owner_id: i64,
    api_base_url: String,
    watch_list: Vec<i64>,
    following: HashSet<i64>,
    cooldown_seconds: u64,
}

impl Configure {
    /// The watched senders are exactly those of the configured list.
    #[verifier::type_invariant]
    closed spec fn inv(&self) -> bool {
        self.following@ == self.watch_list@.to_set()
    }
}

impl View for Configure {
    type V = ConfigModel;

    closed spec fn view(&self) -> ConfigModel {
        ConfigModel {
            api_id: self.api_id,
            api_hash: self.api_hash@,
            bot_token: self.bot_token@,
            owner_id: self.owner_id,
            api_base_url: self.api_base_url@,
            following: self.following@,
            cooldown_seconds: self.cooldown_seconds,
        }
    }
}

/// The first `i + 1` items hold what the first `i` hold and item `i`.
pub proof fn lemma_prefix_step(s: Seq<i64>, i: int)
    requires
        0 <= i < s.len(),
    ensures
        forall|k: i64| #[trigger]
            s.take(i + 1).contains(k) <==> (s.take(i).contains(k) || k == s[i]),
{
    let pre = s.take(i);
    let post = s.take(i + 1);
    assert forall|k: i64| #[trigger] post.contains(k) <==> (pre.contains(k) || k == s[i]) by {
        if post.contains(k) {
            let j = choose|j: int| 0 <= j < post.len() && post[j] == k;
            if j < pre.len() {
                assert(pre[j] == k);
            }
        }
        if pre.contains(k) {
            let j = choose|j: int| 0 <= j < pre.len() && pre[j] == k;
            assert(post[j] == k);
        }
        if k == s[i] {
            assert(post[i] == k);
        }
    }
}

impl Configure {
    /// A configuration from the values read from the configuration file;
    /// the API server defaults to the public one and the cooldown to sixty
    /// seconds.
    pub fn new(
        api_id: i32,
        api_hash: String,
        bot_token: String,
        owner: i64,
        api_address: Option<String>,
        list: Vec<i64>,
        duration: Option<u64>,
    ) -> (c: Configure)
        ensures
            c@.api_id == api_id,
            c@.api_hash == api_hash@,
            c@.bot_token == bot_token@,
            c@.owner_id == owner,
            c@.api_base_url == (match api_address {
                Some(a) => a@,
                None => default_api_base(),
            }),
            c@.following == list@.to_set(),
            c@.cooldown_seconds == (match duration {
                Some(d) => d,
                None => DEFAULT_COOLDOWN_SECONDS,
            }),
    {
        let api_base_url = match api_address {
            Some(a) => a,
            None => {
                let mut s = String::new();
                s.append("https://api.telegram.org");
                s
            },
        };
        let cooldown_seconds = match duration {
            Some(d) => d,
            None => DEFAULT_COOLDOWN_SECONDS,
        };
        let mut following: HashSet<i64> = HashSet::new();
        let mut i: usize = 0;
        while i < list.len()
            invariant
                i <= list@.len(),
                following@ == list@.take(i as int).to_set(),
            decreases list@.len() - i,
        {
            proof {
                lemma_prefix_step(list@, i as int);
            }
            following.insert(list[i]);
            i = i + 1;
            assert(following@ =~= list@.take(i as int).to_set());
        }
        assert(list@.take(list@.len() as int) == list@);
        Configure {
            api_id,
            api_hash,
            bot_token,
            owner_id: owner,
            api_base_url,
            watch_list: list,
            following,
            cooldown_seconds,
        }
    }

    pub fn api_id(&self) -> (r: i32)
        ensures
            r == self@.api_id,
    {
        self.api_id
    }

    pub fn api_hash(&self) -> (r: &str)
        ensures
            r@ == self@.api_hash,
    {
        self.api_hash.as_str()
    }

    /// The watched senders.
    pub fn following(&self) -> (r: &HashSet<i64>)
        ensures
            r@ == self@.following,
    {
        &self.following
    }

    /// The watched senders, as listed in the configuration.
    pub fn watch_list(&self) -> (r: &Vec<i64>)
        ensures
            r@.to_set() == self@.following,
    {
        proof {
            use_type_invariant(self);
        }
        &self.watch_list
    }

    /// The user that notifications are sent to.
    pub fn owner_id(&self) -> (r: i64)
        ensures
            r == self@.owner_id,
    {
        self.owner_id
    }

    pub fn bot_token(&self) -> (r: &str)
        ensures
            r@ == self@.bot_token,
    {
        self.bot_token.as_str()
    }

    pub fn api_base_url(&self) -> (r: &str)
        ensures
            r@ == self@.api_base_url,
    {
        self.api_base_url.as_str()
    }

    pub fn cooldown_seconds(&self) -> (r: u64)
        ensures
            r == self@.cooldown_seconds,
    {
        self.cooldown_seconds
    }

    /// The address that notifications are posted to.
    pub fn send_message_url(&self) -> (r: String)
        ensures
            r@ == send_message_endpoint(self@.api_base_url, self@.bot_token),
    {
        send_message_url(self.api_base_url.as_str(), self.bot_token.as_str())
    }
}

} // verus!
