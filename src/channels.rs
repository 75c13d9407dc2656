use vstd::prelude::*;

use crate::types::ChannelInfoToSave;

verus! {

/// Some record of `s` has uuid `uuid`.
pub open spec fn has_channel(s: Seq<ChannelInfoToSave>, uuid: Seq<char>) -> bool {
    exists|i: int| 0 <= i < s.len() && s[i].uuid@ == uuid
}

/// `i` is the position of the first record of `s` with uuid `uuid`.
pub open spec fn is_first_channel(s: Seq<ChannelInfoToSave>, uuid: Seq<char>, i: int) -> bool {
    &&& 0 <= i < s.len()
    &&& s[i].uuid@ == uuid
    &&& forall|j: int| 0 <= j < i ==> s[j].uuid@ != uuid
}

/// Position of the first record with uuid `uuid`, or -1 when there is none.
pub open spec fn channel_index(s: Seq<ChannelInfoToSave>, uuid: Seq<char>) -> int {
    if has_channel(s, uuid) {
        choose|i: int| is_first_channel(s, uuid, i)
    } else {
        -1
    }
}

/// At most one record per uuid.
pub open spec fn channels_unique(s: Seq<ChannelInfoToSave>) -> bool {
    forall|i: int, j: int| 0 <= i < j < s.len() ==> s[i].uuid@ != s[j].uuid@
}

/// `c` with its last-message marker set to `m`.
pub open spec fn with_last_message(c: ChannelInfoToSave, m: Option<String>) -> ChannelInfoToSave {
    ChannelInfoToSave { topic: c.topic, uuid: c.uuid, last_message_uuid: m }
}

/// The records of `s` whose uuid differs from `uuid`, in their order.
pub open spec fn without_channel(s: Seq<ChannelInfoToSave>, uuid: Seq<char>) -> Seq<
    ChannelInfoToSave,
>
    decreases s.len(),
{
    if s.len() == 0 {
        s
    } else {
        let rest = without_channel(s.drop_last(), uuid);
        if s.last().uuid@ == uuid {
            rest
        } else {
            rest.push(s.last())
        }
    }
}

/// `s` with `c` in place of the record that has its uuid, or `c` appended.
pub open spec fn upserted_channel(s: Seq<ChannelInfoToSave>, c: ChannelInfoToSave) -> Seq<
    ChannelInfoToSave,
> {
    let i = channel_index(s, c.uuid@);
    if i >= 0 {
        s.update(i, c)
    } else {
        s.push(c)
    }
}

/// `s` with the marker of the channel `uuid` set to `m`; unknown uuids change nothing.
pub open spec fn marked_by_uuid(s: Seq<ChannelInfoToSave>, uuid: Seq<char>, m: String) -> Seq<
    ChannelInfoToSave,
> {
    let i = channel_index(s, uuid);
    if i < 0 {
        s
    } else {
        s.update(i, with_last_message(s[i], Some(m)))
    }
}

/// `s` with the marker of every channel on topic `topic` set to `m`.
pub open spec fn marked_by_topic(s: Seq<ChannelInfoToSave>, topic: Seq<char>, m: String) -> Seq<
    ChannelInfoToSave,
> {
    Seq::new(
        s.len(),
        |i: int|
            if s[i].topic@ == topic {
                with_last_message(s[i], Some(m))
            } else {
                s[i]
            },
    )
}

proof fn lemma_first_is_index(s: Seq<ChannelInfoToSave>, uuid: Seq<char>, i: int)
    requires
        is_first_channel(s, uuid, i),
    ensures
        channel_index(s, uuid) == i,
{
    assert(has_channel(s, uuid));
    let k = channel_index(s, uuid);
    assert(is_first_channel(s, uuid, k));
    if k < i {
        assert(s[k].uuid@ != uuid);
    }
    if i < k {
        assert(s[i].uuid@ != uuid);
    }
}

proof fn lemma_first_below(s: Seq<ChannelInfoToSave>, uuid: Seq<char>, w: int)
    requires
        0 <= w < s.len(),
        s[w].uuid@ == uuid,
    ensures
        is_first_channel(s, uuid, channel_index(s, uuid)),
    decreases w,
{
    if exists|j: int| 0 <= j < w && s[j].uuid@ == uuid {
        let j = choose|j: int| 0 <= j < w && s[j].uuid@ == uuid;
        lemma_first_below(s, uuid, j);
    } else {
        lemma_first_is_index(s, uuid, w);
    }
}

proof fn lemma_index_is_first(s: Seq<ChannelInfoToSave>, uuid: Seq<char>)
    requires
        has_channel(s, uuid),
    ensures
        is_first_channel(s, uuid, channel_index(s, uuid)),
{
    let w = choose|i: int| 0 <= i < s.len() && s[i].uuid@ == uuid;
    lemma_first_below(s, uuid, w);
}

proof fn lemma_without_absent(s: Seq<ChannelInfoToSave>, uuid: Seq<char>)
    ensures
        !has_channel(without_channel(s, uuid), uuid),
        forall|k: int| 0 <= k < without_channel(s, uuid).len() ==>
            exists|j: int| 0 <= j < s.len() && s[j] == #[trigger] without_channel(s, uuid)[k],
    decreases s.len(),
{
    if s.len() > 0 {
        lemma_without_absent(s.drop_last(), uuid);
        let rest = without_channel(s.drop_last(), uuid);
        assert forall|k: int| 0 <= k < without_channel(s, uuid).len() implies
            exists|j: int| 0 <= j < s.len() && s[j] == #[trigger] without_channel(s, uuid)[k] by {
            if k < rest.len() {
                let j = choose|j: int| 0 <= j < s.drop_last().len() && s.drop_last()[j] == rest[k];
                assert(s[j] == without_channel(s, uuid)[k]);
            } else {
                assert(s[s.len() - 1] == without_channel(s, uuid)[k]);
            }
        }
    }
}

proof fn lemma_without_unique(s: Seq<ChannelInfoToSave>, uuid: Seq<char>)
    requires
        channels_unique(s),
    ensures
        channels_unique(without_channel(s, uuid)),
    decreases s.len(),
{
    if s.len() > 0 {
        let init = s.drop_last();
        lemma_without_unique(init, uuid);
        lemma_without_absent(init, uuid);
        let rest = without_channel(init, uuid);
        if s.last().uuid@ != uuid {
            let w = without_channel(s, uuid);
            assert forall|a: int, b: int| 0 <= a < b < w.len() implies w[a].uuid@ != w[b].uuid@ by {
                if b == rest.len() {
                    let j = choose|j: int| 0 <= j < init.len() && init[j] == #[trigger] rest[a];
                    assert(s[j] == w[a]);
                }
            }
        }
    }
}

/// Adding a channel whose uuid is already present replaces that record, topic
/// and marker included, and adds no second record with that uuid.
pub proof fn lemma_upsert_replaces(s: Seq<ChannelInfoToSave>, c: ChannelInfoToSave)
    requires
        channels_unique(s),
        has_channel(s, c.uuid@),
    ensures
        upserted_channel(s, c).len() == s.len(),
        upserted_channel(s, c)[channel_index(s, c.uuid@)] == c,
        forall|j: int|
            0 <= j < s.len() && j != channel_index(s, c.uuid@) ==> upserted_channel(s, c)[j]
                == s[j],
        channels_unique(upserted_channel(s, c)),
{
    lemma_index_is_first(s, c.uuid@);
}

/// Position of the first record of `channels` with uuid `uuid`.
fn find_channel(channels: &Vec<ChannelInfoToSave>, uuid: &String) -> (r: Option<usize>)
    ensures
        match r {
            Some(i) => is_first_channel(channels@, uuid@, i as int) && channel_index(channels@, uuid@)
                == i,
            None => !has_channel(channels@, uuid@) && channel_index(channels@, uuid@) == -1,
        },
{
    let mut i: usize = 0;
    while i < channels.len()
        invariant
            i <= channels.len(),
            forall|j: int| 0 <= j < i ==> channels@[j].uuid@ != uuid@,
        decreases channels.len() - i,
    {
        if channels[i].uuid == *uuid {
            proof {
                lemma_first_is_index(channels@, uuid@, i as int);
            }
            return Some(i);
        }
        i = i + 1;
    }
    None
}

/// Sets the marker of the record at `i` to `m`.
fn set_last_message(channels: &mut Vec<ChannelInfoToSave>, i: usize, m: String)
    requires
        i < old(channels).len(),
    ensures
        final(channels)@ == old(channels)@.update(
            i as int,
            with_last_message(old(channels)@[i as int], Some(m)),
        ),
{
    let mut c = channels.remove(i);
    c.last_message_uuid = Some(m);
    channels.insert(i, c);
    assert(channels@ =~= old(channels)@.update(
        i as int,
        with_last_message(old(channels)@[i as int], Some(m)),
    ));
}

/// Replaces the record with `channel`'s uuid by `channel`, or appends `channel`.
pub fn add_or_update_channel(channels: &mut Vec<ChannelInfoToSave>, channel: ChannelInfoToSave)
    ensures
        final(channels)@ == upserted_channel(old(channels)@, channel),
        channels_unique(old(channels)@) ==> channels_unique(final(channels)@),
{
    match find_channel(channels, &channel.uuid) {
        Some(i) => {
            let _ = channels.remove(i);
            channels.insert(i, channel);
            assert(channels@ =~= old(channels)@.update(i as int, channel));
        },
        None => {
            channels.push(channel);
        },
    }
}

/// Deletes every record of `channels` whose uuid is `uuid`.
pub fn remove_channel(channels: &mut Vec<ChannelInfoToSave>, uuid: &str)
    ensures
        final(channels)@ == without_channel(old(channels)@, uuid@),
        !has_channel(final(channels)@, uuid@),
        channels_unique(old(channels)@) ==> channels_unique(final(channels)@),
{
    let id = uuid.to_owned();
    let mut kept: Vec<ChannelInfoToSave> = Vec::new();
    let ghost orig = channels@;
    let mut rest: Vec<ChannelInfoToSave> = Vec::new();
    std::mem::swap(channels, &mut rest);
    let n = rest.len();
    let mut i: usize = 0;
    while i < n
        invariant
            n == orig.len(),
            i <= n,
            rest@ == orig.subrange(i as int, n as int),
            kept@ == without_channel(orig.subrange(0, i as int), id@),
        decreases n - i,
    {
        let c = rest.remove(0);
        assert(orig.subrange(0, i as int + 1).drop_last() == orig.subrange(0, i as int));
        if c.uuid != id {
            kept.push(c);
        }
        i = i + 1;
        assert(rest@ == orig.subrange(i as int, n as int));
    }
    assert(orig.subrange(0, n as int) == orig);
    *channels = kept;
    proof {
        lemma_without_absent(orig, id@);
        if channels_unique(orig) {
            lemma_without_unique(orig, id@);
        }
    }
}

/// Records `message_uuid` as the last message of the channel `uuid`. An unknown
/// uuid is no error: nothing changes.
pub fn update_channel_last_message(
    channels: &mut Vec<ChannelInfoToSave>,
    uuid: &str,
    message_uuid: String,
)
    ensures
        final(channels)@ == marked_by_uuid(old(channels)@, uuid@, message_uuid),
        channels_unique(old(channels)@) ==> channels_unique(final(channels)@),
{
    let id = uuid.to_owned();
    match find_channel(channels, &id) {
        Some(i) => set_last_message(channels, i, message_uuid),
        None => {},
    }
}

/// Records `message_uuid` as the last message of every channel on `topic`.
/// A topic that no channel follows changes nothing.
pub fn record_message_on_topic(
    channels: &mut Vec<ChannelInfoToSave>,
    topic: &str,
    message_uuid: &String,
)
    ensures
        final(channels)@ == marked_by_topic(old(channels)@, topic@, *message_uuid),
        channels_unique(old(channels)@) ==> channels_unique(final(channels)@),
{
    let t = topic.to_owned();
    let mut i: usize = 0;
    while i < channels.len()
        invariant
            i <= channels.len() == old(channels).len(),
            forall|j: int|
                0 <= j < channels.len() ==> #[trigger] channels@[j] == (if j < i
                    && old(channels)@[j].topic@ == t@ {
                    with_last_message(old(channels)@[j], Some(*message_uuid))
                } else {
                    old(channels)@[j]
                }),
        decreases channels.len() - i,
    {
        if channels[i].topic == t {
            set_last_message(channels, i, message_uuid.clone());
        }
        i = i + 1;
    }
    assert(channels@ =~= marked_by_topic(old(channels)@, topic@, *message_uuid));
}

} // verus!
