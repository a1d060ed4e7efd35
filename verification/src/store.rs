//! The shared per-channel state read by the switch notifier.
//!
//! The bridge core only reads this store; an external updater owns its
//! mutation. The store is a mapping from channel name to that channel's
//! current bitrate description, modeled as a `Map` from character sequences
//! to character sequences.

use vstd::prelude::*;
use vstd::map::*;
use vstd::seq_lib::*;

verus! {

/// The state kept for one channel: at minimum, a display string describing
/// the channel's current bitrate.
#[derive(Clone, Debug)]
pub struct ChannelState {
    bitrate: String,
}

impl View for ChannelState {
    type V = Seq<char>;

    closed spec fn view(&self) -> Seq<char> {
        self.bitrate@
    }
}

impl ChannelState {
    /// State whose bitrate description is `bitrate`.
    pub fn new(bitrate: String) -> (r: Self)
        ensures
            r@ == bitrate@,
    {
        ChannelState { bitrate }
    }

    /// The display string for the channel's current bitrate.
    pub fn bitrate_description(&self) -> (r: &String)
        ensures
            r@ == self@,
    {
        &self.bitrate
    }
}

struct StoreEntry {
    channel: String,
    state: ChannelState,
}

/// Shared mapping from channel name to per-channel state.
pub struct ChannelStateStore {
    entries: Vec<StoreEntry>,
}

spec fn has_channel(s: Seq<StoreEntry>, c: Seq<char>) -> bool {
    exists|i: int| 0 <= i < s.len() && (#[trigger] s[i]).channel@ == c
}

spec fn channel_index(s: Seq<StoreEntry>, c: Seq<char>) -> int {
    choose|i: int| 0 <= i < s.len() && (#[trigger] s[i]).channel@ == c
}

spec fn distinct_channels(s: Seq<StoreEntry>) -> bool {
    forall|i: int, j: int|
        0 <= i < j < s.len() ==> (#[trigger] s[i]).channel@ != (#[trigger] s[j]).channel@
}

spec fn map_of(s: Seq<StoreEntry>) -> Map<Seq<char>, Seq<char>> {
    Map::new(
        |c: Seq<char>| has_channel(s, c),
        |c: Seq<char>| s[channel_index(s, c)].state@,
    )
}

/// With pairwise distinct channels, any entry whose channel is `c` is the one
/// the mapping reads.
proof fn lemma_entry_index(s: Seq<StoreEntry>, c: Seq<char>, i: int)
    requires
        distinct_channels(s),
        0 <= i < s.len(),
        s[i].channel@ == c,
    ensures
        has_channel(s, c),
        channel_index(s, c) == i,
        map_of(s).dom().contains(c),
        map_of(s)[c] == s[i].state@,
{
    assert(has_channel(s, c));
    let k = channel_index(s, c);
    if k < i {
        assert(s[k].channel@ != s[i].channel@);
    } else if k > i {
        assert(s[i].channel@ != s[k].channel@);
    }
}

/// Appending an entry for a channel the store lacks adds exactly that pair to
/// the mapping.
proof fn lemma_push_fresh(s: Seq<StoreEntry>, e: StoreEntry)
    requires
        distinct_channels(s),
        !has_channel(s, e.channel@),
    ensures
        distinct_channels(s.push(e)),
        map_of(s.push(e)) == map_of(s).insert(e.channel@, e.state@),
{
    let s2 = s.push(e);
    assert forall|a: int, b: int|
        0 <= a < b < s2.len() implies (#[trigger] s2[a]).channel@ != (#[trigger] s2[b]).channel@ by {
        if b < s.len() as int {
            assert(s2[a] == s[a] && s2[b] == s[b]);
        } else {
            assert(s2[b] == e);
            assert(s2[a] == s[a]);
            if s[a].channel@ == e.channel@ {
                assert(has_channel(s, e.channel@));
            }
        }
    }
    assert_maps_equal!(map_of(s2), map_of(s).insert(e.channel@, e.state@), c => {
        if c == e.channel@ {
            lemma_entry_index(s2, c, s.len() as int);
        } else {
            if has_channel(s2, c) {
                let k = choose|i: int| 0 <= i < s2.len() && (#[trigger] s2[i]).channel@ == c;
                assert(k < s.len() as int);
                assert(s2[k] == s[k]);
                lemma_entry_index(s, c, k);
                lemma_entry_index(s2, c, k);
            }
            if has_channel(s, c) {
                let k = choose|i: int| 0 <= i < s.len() && (#[trigger] s[i]).channel@ == c;
                assert(s2[k] == s[k]);
                lemma_entry_index(s2, c, k);
                lemma_entry_index(s, c, k);
            }
        }
    });
}

/// Removing the entry at `i` removes exactly its channel from the mapping.
proof fn lemma_remove_entry(s: Seq<StoreEntry>, i: int)
    requires
        distinct_channels(s),
        0 <= i < s.len(),
    ensures
        distinct_channels(s.remove(i)),
        map_of(s.remove(i)) == map_of(s).remove(s[i].channel@),
{
    let sr = s.remove(i);
    s.remove_ensures(i);
    assert forall|a: int, b: int|
        0 <= a < b < sr.len() implies (#[trigger] sr[a]).channel@ != (#[trigger] sr[b]).channel@ by {
        let a1: int = if a < i { a } else { a + 1 };
        let b1: int = if b < i { b } else { b + 1 };
        assert(sr[a] == s[a1] && sr[b] == s[b1]);
    }
    assert_maps_equal!(map_of(sr), map_of(s).remove(s[i].channel@), c => {
        if has_channel(sr, c) {
            let k = choose|j: int| 0 <= j < sr.len() && (#[trigger] sr[j]).channel@ == c;
            let k1: int = if k < i { k } else { k + 1 };
            assert(sr[k] == s[k1]);
            lemma_entry_index(s, c, k1);
            lemma_entry_index(sr, c, k);
            if k1 < i {
                assert(s[k1].channel@ != s[i].channel@);
            } else {
                assert(s[i].channel@ != s[k1].channel@);
            }
        }
        if has_channel(s, c) && c != s[i].channel@ {
            let k1 = choose|j: int| 0 <= j < s.len() && (#[trigger] s[j]).channel@ == c;
            let k: int = if k1 < i { k1 } else { k1 - 1 };
            assert(sr[k] == s[k1]);
            lemma_entry_index(s, c, k1);
            lemma_entry_index(sr, c, k);
        }
    });
}

impl View for ChannelStateStore {
    type V = Map<Seq<char>, Seq<char>>;

    closed spec fn view(&self) -> Map<Seq<char>, Seq<char>> {
        map_of(self.entries@)
    }
}

impl ChannelStateStore {
    /// The store keeps at most one entry per channel.
    pub closed spec fn wf(&self) -> bool {
        distinct_channels(self.entries@)
    }

    /// An empty store.
    pub fn new() -> (r: Self)
        ensures
            r.wf(),
            r@ == Map::<Seq<char>, Seq<char>>::empty(),
    {
        let r = ChannelStateStore { entries: Vec::new() };
        proof {
            assert(r@ =~= Map::<Seq<char>, Seq<char>>::empty());
        }
        r
    }

    fn find_index(&self, channel: &String) -> (r: Option<usize>)
        ensures
            r matches Some(i) ==> i < self.entries@.len()
                && self.entries@[i as int].channel@ == channel@,
            r is None ==> !has_channel(self.entries@, channel@),
    {
        let n = self.entries.len();
        let mut i: usize = 0;
        while i < n
            invariant
                n == self.entries@.len(),
                i <= n,
                forall|j: int| 0 <= j < i ==> (#[trigger] self.entries@[j]).channel@ != channel@,
            decreases n - i,
        {
            if self.entries[i].channel == *channel {
                return Some(i);
            }
            i += 1;
        }
        None
    }

    /// Read the state stored for `channel`, if any. This is the only access
    /// the bridge core itself performs.
    pub fn get(&self, channel: &String) -> (r: Option<&ChannelState>)
        requires
            self.wf(),
        ensures
            self@.dom().contains(channel@) ==> (r matches Some(st) && st@ == self@[channel@]),
            !self@.dom().contains(channel@) ==> r is None,
    {
        match self.find_index(channel) {
            Some(i) => {
                proof {
                    lemma_entry_index(self.entries@, channel@, i as int);
                }
                Some(&self.entries[i].state)
            },
            None => None,
        }
    }

    /// Insert or overwrite the state for `channel`: the external updater's
    /// operation. The mapping afterwards is the old mapping with `channel`
    /// bound to `state`.
    pub fn insert(&mut self, channel: String, state: ChannelState)
        requires
            old(self).wf(),
        ensures
            final(self).wf(),
            final(self)@ == old(self)@.insert(channel@, state@),
    {
        let ghost s0 = self.entries@;
        match self.find_index(&channel) {
            Some(i) => {
                self.entries.remove(i);
                let ghost sr = self.entries@;
                let e = StoreEntry { channel, state };
                let ghost c = e.channel@;
                proof {
                    lemma_entry_index(s0, c, i as int);
                    lemma_remove_entry(s0, i as int);
                    lemma_push_fresh(sr, e);
                    assert(map_of(s0).remove(c).insert(c, e.state@)
                        =~= map_of(s0).insert(c, e.state@));
                }
                self.entries.push(e);
            },
            None => {
                let e = StoreEntry { channel, state };
                proof {
                    lemma_push_fresh(s0, e);
                }
                self.entries.push(e);
            },
        }
    }

}

} // verus!
