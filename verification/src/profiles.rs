//! Network profiles: a named set of RPC endpoints with one active profile.
//! Loading and saving the profile file is the caller's concern; here live
//! the data model, the built-in defaults, and the list operations, which
//! keep profile names unique.

use vstd::prelude::*;
use vstd::string::StringExecFns;

verus! {

/// One named network profile.
pub struct NetworkProfile {
    pub name: String,
    pub rpc: String,
    pub faucet: Option<String>,
    pub explorer: Option<String>,
}

/// The profile store: every known profile and the name of the active one.
pub struct ProfileConfig {
    pub active: String,
    pub profiles: Vec<NetworkProfile>,
}

/// The first profile with the given name, if any.
pub open spec fn find_by_name(profiles: Seq<NetworkProfile>, name: Seq<char>, k: int) -> Option<
    int,
>
    decreases profiles.len() - k,
{
    if k < 0 || k >= profiles.len() {
        None
    } else if profiles[k].name@ == name {
        Some(k)
    } else {
        find_by_name(profiles, name, k + 1)
    }
}

impl ProfileConfig {
    /// Profile names are unique.
    pub open spec fn wf(&self) -> bool {
        forall|i: int, j: int|
            0 <= i < j < self.profiles@.len() ==> self.profiles@[i].name@
                != self.profiles@[j].name@
    }

    /// The built-in profile set: the three public networks, with the devnet
    /// profile active.
    pub fn default() -> (r: ProfileConfig)
        ensures
            r.wf(),
            r.active@ == "devnet"@,
            r.profiles@.len() == 3,
            r.profiles@[0].name@ == "devnet"@,
            r.profiles@[0].rpc@ == "https://fullnode.devnet.sui.io:443"@,
            r.profiles@[0].faucet matches Some(f) && f@ == "https://faucet.devnet.sui.io/gas"@,
            r.profiles@[0].explorer matches Some(e) && e@
                == "https://suiexplorer.com/?network=devnet"@,
            r.profiles@[1].name@ == "testnet"@,
            r.profiles@[1].rpc@ == "https://fullnode.testnet.sui.io:443"@,
            r.profiles@[1].faucet matches Some(f) && f@ == "https://faucet.testnet.sui.io/gas"@,
            r.profiles@[1].explorer matches Some(e) && e@
                == "https://suiexplorer.com/?network=testnet"@,
            r.profiles@[2].name@ == "mainnet"@,
            r.profiles@[2].rpc@ == "https://fullnode.mainnet.sui.io:443"@,
            r.profiles@[2].faucet is None,
            r.profiles@[2].explorer matches Some(e) && e@
                == "https://suiexplorer.com/?network=mainnet"@,
    {
        let mut profiles: Vec<NetworkProfile> = Vec::new();
        profiles.push(
            NetworkProfile {
                name: String::from_str("devnet"),
                rpc: String::from_str("https://fullnode.devnet.sui.io:443"),
                faucet: Some(String::from_str("https://faucet.devnet.sui.io/gas")),
                explorer: Some(String::from_str("https://suiexplorer.com/?network=devnet")),
            },
        );
        profiles.push(
            NetworkProfile {
                name: String::from_str("testnet"),
                rpc: String::from_str("https://fullnode.testnet.sui.io:443"),
                faucet: Some(String::from_str("https://faucet.testnet.sui.io/gas")),
                explorer: Some(String::from_str("https://suiexplorer.com/?network=testnet")),
            },
        );
        profiles.push(
            NetworkProfile {
                name: String::from_str("mainnet"),
                rpc: String::from_str("https://fullnode.mainnet.sui.io:443"),
                faucet: None,
                explorer: Some(String::from_str("https://suiexplorer.com/?network=mainnet")),
            },
        );
        let r = ProfileConfig { active: String::from_str("devnet"), profiles };
        proof {
            reveal_strlit("devnet");
            reveal_strlit("testnet");
            reveal_strlit("mainnet");
            assert("devnet"@.len() == 6);
            assert("testnet"@.len() == 7);
            assert("mainnet"@.len() == 7);
            assert("testnet"@[0] == 't');
            assert("mainnet"@[0] == 'm');
        }
        r
    }

    /// The index of the profile with the given name, if any.
    pub fn find_profile(&self, name: &String) -> (r: Option<usize>)
        ensures
            (r is Some) == (find_by_name(self.profiles@, name@, 0) is Some),
            r matches Some(i) ==> find_by_name(self.profiles@, name@, 0) == Some(i as int) && i
                < self.profiles@.len(),
    {
        let mut k: usize = 0;
        while k < self.profiles.len()
            invariant
                0 <= k <= self.profiles@.len(),
                find_by_name(self.profiles@, name@, 0) == find_by_name(
                    self.profiles@,
                    name@,
                    k as int,
                ),
            decreases self.profiles@.len() - k,
        {
            if self.profiles[k].name == *name {
                return Some(k);
            }
            k += 1;
        }
        None
    }

    /// Add a profile, or replace the one already carrying that name.  The
    /// new entry starts without faucet and explorer endpoints.
    pub fn add_profile(&mut self, name: String, rpc: String)
        requires
            old(self).wf(),
        ensures
            final(self).wf(),
            final(self).active@ == old(self).active@,
            find_by_name(old(self).profiles@, name@, 0) matches Some(i) ==> {
                &&& final(self).profiles@.len() == old(self).profiles@.len()
                &&& (forall|j: int|
                    0 <= j < old(self).profiles@.len() && j != i ==> final(self).profiles@[j]
                        == old(self).profiles@[j])
                &&& final(self).profiles@[i].name@ == name@
                &&& final(self).profiles@[i].rpc@ == rpc@
                &&& final(self).profiles@[i].faucet is None
                &&& final(self).profiles@[i].explorer is None
            },
            (find_by_name(old(self).profiles@, name@, 0) is None) ==> {
                &&& final(self).profiles@.len() == old(self).profiles@.len() + 1
                &&& (forall|j: int|
                    0 <= j < old(self).profiles@.len() ==> final(self).profiles@[j] == old(
                        self,
                    ).profiles@[j])
                &&& final(self).profiles@.last().name@ == name@
                &&& final(self).profiles@.last().rpc@ == rpc@
                &&& final(self).profiles@.last().faucet is None
                &&& final(self).profiles@.last().explorer is None
            },
    {
        let ghost old_profiles = self.profiles@;
        let found = self.find_profile(&name);
        let entry = NetworkProfile { name, rpc, faucet: None, explorer: None };
        match found {
            Some(i) => {
                proof {
                    lemma_find_by_name_found(old_profiles, entry.name@, 0);
                }
                self.profiles.set(i, entry);
            },
            None => {
                proof {
                    lemma_find_by_name_none(old_profiles, entry.name@, 0);
                }
                self.profiles.push(entry);
            },
        }
    }

    /// Remove the profile with the given name; report whether one existed.
    pub fn remove_profile(&mut self, name: &String) -> (removed: bool)
        requires
            old(self).wf(),
        ensures
            final(self).wf(),
            final(self).active@ == old(self).active@,
            removed == (find_by_name(old(self).profiles@, name@, 0) is Some),
            find_by_name(old(self).profiles@, name@, 0) matches Some(i) ==> final(self).profiles@
                == old(self).profiles@.remove(i),
            (find_by_name(old(self).profiles@, name@, 0) is None) ==> final(self).profiles@ == old(
                self,
            ).profiles@,
    {
        let ghost old_profiles = self.profiles@;
        match self.find_profile(name) {
            Some(i) => {
                self.profiles.remove(i);
                proof {
                    assert forall|a: int, b: int|
                        0 <= a < b < self.profiles@.len() implies self.profiles@[a].name@
                        != self.profiles@[b].name@ by {
                        assert(self.profiles@[a] == old_profiles[if a < i {
                            a
                        } else {
                            a + 1
                        }]);
                        assert(self.profiles@[b] == old_profiles[if b < i {
                            b
                        } else {
                            b + 1
                        }]);
                    }
                }
                true
            },
            None => false,
        }
    }

    /// Make the named profile active; report whether it exists.
    pub fn switch_profile(&mut self, name: String) -> (switched: bool)
        requires
            old(self).wf(),
        ensures
            final(self).wf(),
            final(self).profiles@ == old(self).profiles@,
            switched == (find_by_name(old(self).profiles@, name@, 0) is Some),
            switched ==> final(self).active@ == name@,
            !switched ==> final(self).active@ == old(self).active@,
    {
        match self.find_profile(&name) {
            Some(_) => {
                self.active = name;
                true
            },
            None => false,
        }
    }
}

/// When a name is found, it is found at a matching index.
proof fn lemma_find_by_name_found(profiles: Seq<NetworkProfile>, name: Seq<char>, k: int)
    requires
        find_by_name(profiles, name, k) is Some,
    ensures
        k <= find_by_name(profiles, name, k).unwrap() < profiles.len(),
        profiles[find_by_name(profiles, name, k).unwrap()].name@ == name,
    decreases profiles.len() - k,
{
    if !(k < 0 || k >= profiles.len()) && profiles[k].name@ != name {
        lemma_find_by_name_found(profiles, name, k + 1);
    }
}

/// When a name is not found, no profile from `k` on carries it.
proof fn lemma_find_by_name_none(profiles: Seq<NetworkProfile>, name: Seq<char>, k: int)
    requires
        0 <= k,
        find_by_name(profiles, name, k) is None,
    ensures
        forall|j: int| k <= j < profiles.len() ==> profiles[j].name@ != name,
    decreases profiles.len() - k,
{
    if k < profiles.len() {
        lemma_find_by_name_none(profiles, name, k + 1);
    }
}

} // verus!
