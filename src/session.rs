//! The session: the registry of channels that share one connection, and the
//! per-channel caches that let a read on one channel keep frames that
//! arrive for another.
//!
//! The session performs no I/O. Each operation decides what happens to its
//! state and hands back what must be written; the caller that owns the
//! connection performs the write or the read and reports what arrived.

use std::collections::VecDeque;
use vstd::prelude::*;
use crate::channel::{close_frame, Channel, ChannelView};
use crate::common::ClientError;
use crate::proto::DataHead;
use crate::text::{decode_text, strip_nul, text_of, trim_nul};

verus! {

/// One registered channel and the payloads cached for it, oldest first.
struct Slot {
    channel: Channel,
    cache: VecDeque<Vec<u8>>,
}

/// What the session knows of one channel.
pub struct ChannelState {
    pub name: Seq<char>,
    pub closed: bool,
    pub cache: Seq<Seq<u8>>,
}

/// What the session knows: its virtual host and its channels in the order
/// they were created.
pub struct SessionView {
    pub host: Seq<char>,
    pub channels: Seq<ChannelState>,
}

spec fn slot_state(s: Slot) -> ChannelState {
    ChannelState {
        name: s.channel@.name,
        closed: s.channel@.closed,
        cache: s.cache@.map_values(|v: Vec<u8>| v@),
    }
}

/// The session state behind one connection.
pub struct Session {
    host: String,
    slots: Vec<Slot>,
}

impl View for Session {
    type V = SessionView;

    closed spec fn view(&self) -> SessionView {
        SessionView { host: self.host@, channels: self.slots@.map_values(|s: Slot| slot_state(s)) }
    }
}

/// No two channels share a name.
pub open spec fn names_unique(cs: Seq<ChannelState>) -> bool {
    forall|i: int, j: int|
        0 <= i < cs.len() && 0 <= j < cs.len() && i != j ==> #[trigger] cs[i].name != #[trigger] cs[j].name
}

/// Position of the channel called `name`, or -1.
pub open spec fn find(cs: Seq<ChannelState>, name: Seq<char>) -> int {
    if exists|i: int| 0 <= i < cs.len() && #[trigger] cs[i].name == name {
        choose|i: int| 0 <= i < cs.len() && #[trigger] cs[i].name == name
    } else {
        -1
    }
}

/// With unique names, a channel's position is where its name stands.
pub proof fn lemma_find(cs: Seq<ChannelState>, name: Seq<char>, i: int)
    requires
        names_unique(cs),
        0 <= i < cs.len(),
        cs[i].name == name,
    ensures
        find(cs, name) == i,
{
    let j = find(cs, name);
    assert(cs[j].name == name);
}

/// `find` gives -1 or a position whose channel has that name.
pub proof fn lemma_find_bounds(cs: Seq<ChannelState>, name: Seq<char>)
    ensures
        -1 <= find(cs, name) < cs.len(),
        find(cs, name) >= 0 ==> cs[find(cs, name)].name == name,
        find(cs, name) < 0 ==> forall|i: int| 0 <= i < cs.len() ==> #[trigger] cs[i].name != name,
{
}

impl Session {
    /// The session is well formed: channel names are unique and every
    /// channel belongs to the session's virtual host.
    pub closed spec fn wf(&self) -> bool {
        &&& names_unique(self@.channels)
        &&& forall|i: int| 0 <= i < self.slots@.len() ==> #[trigger] self.slots@[i].channel@.host == self.host@
    }

    pub proof fn lemma_wf(&self)
        requires
            self.wf(),
        ensures
            names_unique(self@.channels),
    {
    }

    /// A session for a virtual host, with no channels.
    pub fn new(host: String) -> (r: Session)
        ensures
            r.wf(),
            r@ == (SessionView { host: host@, channels: Seq::empty() }),
    {
        let r = Session { host, slots: Vec::new() };
        assert(r@.channels =~= Seq::<ChannelState>::empty());
        r
    }

    pub fn host(&self) -> (r: &String)
        ensures
            r@ == self@.host,
    {
        &self.host
    }

    /// Where the channel called `name` stands.
    fn position(&self, name: &String) -> (r: Option<usize>)
        requires
            self.wf(),
        ensures
            match r {
                Some(i) => i < self.slots@.len() && i == find(self@.channels, name@),
                None => find(self@.channels, name@) == -1,
            },
    {
        let mut i: usize = 0;
        while i < self.slots.len()
            invariant
                self.wf(),
                i <= self.slots@.len(),
                forall|k: int| 0 <= k < i ==> #[trigger] self@.channels[k].name != name@,
            decreases self.slots@.len() - i,
        {
            let found: bool = name.eq(self.slots[i].channel.name());
            assert(self@.channels[i as int] == slot_state(self.slots@[i as int]));
            if found {
                proof {
                    lemma_find(self@.channels, name@, i as int);
                }
                return Some(i);
            }
            i = i + 1;
        }
        proof {
            lemma_find_bounds(self@.channels, name@);
        }
        None
    }

    /// Registers a channel; gives `None`, and changes nothing, when the name
    /// is taken. The channel given back is a handle that carries the
    /// channel's identity; its state from then on is the session's, which
    /// the operations below take by name.
    pub fn create_channel(&mut self, name: String) -> (r: Option<Channel>)
        requires
            old(self).wf(),
        ensures
            final(self).wf(),
            find(old(self)@.channels, name@) >= 0 ==> r is None && final(self)@ == old(self)@,
            find(old(self)@.channels, name@) < 0 ==> r is Some && r->Some_0@ == (ChannelView {
                host: old(self)@.host,
                name: name@,
                closed: false,
            }) && final(self)@ == (SessionView {
                channels: old(self)@.channels.push(
                    ChannelState { name: name@, closed: false, cache: Seq::empty() },
                ),
                ..old(self)@
            }),
    {
        if self.position(&name).is_some() {
            return None;
        }
        proof {
            lemma_find_bounds(self@.channels, name@);
        }
        let handle = Channel::new(self.host.clone(), name.clone());
        let registered = Channel::new(self.host.clone(), name);
        let slot = Slot { channel: registered, cache: VecDeque::new() };
        assert(slot_state(slot).cache =~= Seq::<Seq<u8>>::empty());
        let ghost before = self@;
        self.slots.push(slot);
        assert(self@.channels =~= before.channels.push(
            ChannelState { name: handle@.name, closed: false, cache: Seq::empty() },
        ));
        Some(handle)
    }
}

/// What a read on a channel finds before it touches the connection.
pub enum ReadStep {
    /// The oldest payload cached for the channel, now taken from the cache.
    Cached(Vec<u8>),
    /// Nothing is cached: a frame must be read from the connection and
    /// handed to [`Session::deliver`].
    Wait,
}

/// `v` with the oldest payload of channel `i` taken out.
pub open spec fn pop_cache(v: SessionView, i: int) -> SessionView {
    SessionView {
        channels: v.channels.update(
            i,
            ChannelState { cache: v.channels[i].cache.drop_first(), ..v.channels[i] },
        ),
        ..v
    }
}

/// `v` with payload `p` queued for channel `j`.
pub open spec fn push_cache(v: SessionView, j: int, p: Seq<u8>) -> SessionView {
    SessionView {
        channels: v.channels.update(
            j,
            ChannelState { cache: v.channels[j].cache.push(p), ..v.channels[j] },
        ),
        ..v
    }
}

/// The first step of a read on channel `name`: the new state and either the
/// oldest cached payload (`Some`) or the need to read the connection
/// (`None`).
pub open spec fn read_spec(v: SessionView, name: Seq<char>) -> (
    SessionView,
    Result<Option<Seq<u8>>, ClientError>,
) {
    let i = find(v.channels, name);
    if i < 0 {
        (v, Err(ClientError::UnknownChannel))
    } else if v.channels[i].closed {
        (v, Err(ClientError::ChannelClosed))
    } else if v.channels[i].cache.len() > 0 {
        (pop_cache(v, i), Ok(Some(v.channels[i].cache[0])))
    } else {
        (v, Ok(None))
    }
}

pub open spec fn step_view(r: Result<ReadStep, ClientError>) -> Result<Option<Seq<u8>>, ClientError> {
    match r {
        Ok(ReadStep::Cached(p)) => Ok(Some(p@)),
        Ok(ReadStep::Wait) => Ok(None),
        Err(e) => Err(e),
    }
}

/// The channel a header addresses: its `channel` field as text without
/// trailing NULs, when that field is valid UTF-8.
pub open spec fn addressee(h: DataHead) -> Option<Seq<char>> {
    match text_of(h.channel@) {
        Some(t) => Some(trim_nul(t)),
        None => None,
    }
}

/// The oldest payload cached for channel `i`, without its header, or
/// `ReadFailed` when none is.
pub open spec fn take_cached(v: SessionView, i: int) -> (
    SessionView,
    Result<(Option<DataHead>, Seq<u8>), ClientError>,
) {
    if v.channels[i].cache.len() > 0 {
        (pop_cache(v, i), Ok((None, v.channels[i].cache[0])))
    } else {
        (v, Err(ClientError::ReadFailed))
    }
}

/// The second step of a read on channel `name`, given what the connection
/// gave: a header and its payload, or nothing (a timeout or a failed read).
/// A frame for `name` is returned with its header; a frame for another
/// registered channel is queued for that channel, and one for an unknown
/// channel is dropped; then, as after nothing arrived, the oldest payload
/// cached for `name` is returned.
pub open spec fn deliver_spec(
    v: SessionView,
    name: Seq<char>,
    incoming: Option<(DataHead, Seq<u8>)>,
) -> (SessionView, Result<(Option<DataHead>, Seq<u8>), ClientError>) {
    let i = find(v.channels, name);
    if i < 0 {
        (v, Err(ClientError::UnknownChannel))
    } else if v.channels[i].closed {
        (v, Err(ClientError::ChannelClosed))
    } else {
        match incoming {
            None => take_cached(v, i),
            Some((h, p)) => match addressee(h) {
                None => (v, Err(ClientError::NotText)),
                Some(a) => if a == name {
                    (v, Ok((Some(h), p)))
                } else {
                    let j = find(v.channels, a);
                    let v2 = if j >= 0 {
                        push_cache(v, j, p)
                    } else {
                        v
                    };
                    take_cached(v2, i)
                },
            },
        }
    }
}

pub open spec fn frame_view(r: Result<(Option<DataHead>, Vec<u8>), ClientError>) -> Result<
    (Option<DataHead>, Seq<u8>),
    ClientError,
> {
    match r {
        Ok((h, p)) => Ok((h, p@)),
        Err(e) => Err(e),
    }
}

pub open spec fn incoming_view(x: Option<(DataHead, Vec<u8>)>) -> Option<(DataHead, Seq<u8>)> {
    match x {
        Some((h, p)) => Some((h, p@)),
        None => None,
    }
}

impl Session {
    /// Takes the oldest payload cached for slot `i`.
    fn take_cached(&mut self, i: usize) -> (r: Result<(Option<DataHead>, Vec<u8>), ClientError>)
        requires
            old(self).wf(),
            i < old(self).slots@.len(),
        ensures
            final(self).wf(),
            (final(self)@, frame_view(r)) == take_cached(old(self)@, i as int),
    {
        let ghost v = self@;
        let ghost slots0 = self.slots@;
        let popped = self.slots[i].cache.pop_front();
        assert(forall|k: int| 0 <= k < slots0.len() && k != i ==> self.slots@[k] == slots0[k]);
        assert(self.slots@.len() == slots0.len());
        match popped {
            Some(p) => {
                assert(slot_state(self.slots@[i as int]).cache =~= v.channels[i as int].cache.drop_first());
                assert(self@.channels =~= pop_cache(v, i as int).channels);
                Ok((None, p))
            },
            None => {
                assert(self@.channels =~= v.channels);
                Err(ClientError::ReadFailed)
            },
        }
    }
}

impl Session {
    /// Queues payload `p` for slot `j`.
    fn queue_for(&mut self, j: usize, p: Vec<u8>)
        requires
            old(self).wf(),
            j < old(self).slots@.len(),
        ensures
            final(self).wf(),
            final(self)@ == push_cache(old(self)@, j as int, p@),
    {
        let ghost v = self@;
        let ghost slots0 = self.slots@;
        self.slots[j].cache.push_back(p);
        assert(forall|k: int| 0 <= k < slots0.len() && k != j ==> self.slots@[k] == slots0[k]);
        assert(slot_state(self.slots@[j as int]).cache =~= v.channels[j as int].cache.push(p@));
        assert(self@.channels =~= push_cache(v, j as int, p@).channels);
    }

    /// First step of a read on channel `name`: the oldest cached payload, if
    /// any, with no I/O; else `Wait`, and the caller reads one frame from the
    /// connection and hands it to [`Session::deliver`]. Unknown and closed
    /// channels are refused.
    pub fn read(&mut self, name: &String) -> (r: Result<ReadStep, ClientError>)
        requires
            old(self).wf(),
        ensures
            final(self).wf(),
            (final(self)@, step_view(r)) == read_spec(old(self)@, name@),
    {
        let i = match self.position(name) {
            Some(i) => i,
            None => {
                return Err(ClientError::UnknownChannel);
            },
        };
        if self.slots[i].channel.is_closed() {
            return Err(ClientError::ChannelClosed);
        }
        if self.slots[i].cache.len() == 0 {
            return Ok(ReadStep::Wait);
        }
        match self.take_cached(i) {
            Ok((_, p)) => Ok(ReadStep::Cached(p)),
            Err(e) => Err(e),
        }
    }

    /// Second step of a read on channel `name`, given what the connection
    /// gave (`None` after a timeout or a failed read); see [`deliver_spec`].
    pub fn deliver(&mut self, name: &String, incoming: Option<(DataHead, Vec<u8>)>) -> (r: Result<
        (Option<DataHead>, Vec<u8>),
        ClientError,
    >)
        requires
            old(self).wf(),
        ensures
            final(self).wf(),
            (final(self)@, frame_view(r)) == deliver_spec(old(self)@, name@, incoming_view(incoming)),
    {
        let i = match self.position(name) {
            Some(i) => i,
            None => {
                return Err(ClientError::UnknownChannel);
            },
        };
        if self.slots[i].channel.is_closed() {
            return Err(ClientError::ChannelClosed);
        }
        match incoming {
            None => self.take_cached(i),
            Some((head, payload)) => {
                let field = head.channel.as_slice();
                let text = match decode_text(vstd::slice::slice_to_vec(field)) {
                    Some(t) => t,
                    None => {
                        return Err(ClientError::NotText);
                    },
                };
                let to = strip_nul(text.as_str());
                if to.eq(name) {
                    return Ok((Some(head), payload));
                }
                let ghost v = self@;
                proof {
                    lemma_find_bounds(v.channels, to@);
                }
                match self.position(&to) {
                    Some(j) => {
                        self.queue_for(j, payload);
                    },
                    None => {},
                }
                proof {
                    lemma_find(self@.channels, name@, i as int);
                }
                self.take_cached(i)
            },
        }
    }
}

/// The close-command frames owed to the channels of `cs` that are still
/// open, in registry order.
pub open spec fn closing_frames(host: Seq<char>, cs: Seq<ChannelState>) -> Seq<Seq<u8>>
    decreases cs.len(),
{
    if cs.len() == 0 {
        Seq::empty()
    } else {
        let prev = closing_frames(host, cs.drop_last());
        if cs.last().closed {
            prev
        } else {
            prev.push(close_frame(host, cs.last().name))
        }
    }
}

/// `c` marked closed.
pub open spec fn closed_state(c: ChannelState) -> ChannelState {
    ChannelState { closed: true, ..c }
}

pub open spec fn frames_view(r: Seq<Vec<u8>>) -> Seq<Seq<u8>> {
    r.map_values(|f: Vec<u8>| f@)
}

impl Session {
    /// Whether channel `name` is closed, or `UnknownChannel`.
    pub fn is_closed(&self, name: &String) -> (r: Result<bool, ClientError>)
        requires
            self.wf(),
        ensures
            find(self@.channels, name@) < 0 ==> r == Err::<bool, ClientError>(ClientError::UnknownChannel),
            find(self@.channels, name@) >= 0 ==> r == Ok::<bool, ClientError>(
                self@.channels[find(self@.channels, name@)].closed,
            ),
    {
        match self.position(name) {
            Some(i) => Ok(self.slots[i].channel.is_closed()),
            None => Err(ClientError::UnknownChannel),
        }
    }

    /// The frame to write for channel `name`: refused for an unknown or a
    /// closed channel, else `data` unchanged.
    pub fn send(&self, name: &String, data: Vec<u8>) -> (r: Result<Vec<u8>, ClientError>)
        requires
            self.wf(),
        ensures
            find(self@.channels, name@) < 0 ==> r == Err::<Vec<u8>, ClientError>(ClientError::UnknownChannel),
            find(self@.channels, name@) >= 0 && self@.channels[find(self@.channels, name@)].closed
                ==> r == Err::<Vec<u8>, ClientError>(ClientError::ChannelClosed),
            find(self@.channels, name@) >= 0 && !self@.channels[find(self@.channels, name@)].closed
                ==> r == Ok::<Vec<u8>, ClientError>(data),
    {
        match self.position(name) {
            Some(i) => self.slots[i].channel.send(data),
            None => Err(ClientError::UnknownChannel),
        }
    }

    /// Closes channel `name`: gives its one close-command frame and marks it
    /// closed. Refused for an unknown or an already closed channel.
    pub fn close_channel(&mut self, name: &String) -> (r: Result<Vec<u8>, ClientError>)
        requires
            old(self).wf(),
        ensures
            final(self).wf(),
            ({
                let v = old(self)@;
                let i = find(v.channels, name@);
                &&& i < 0 ==> r == Err::<Vec<u8>, ClientError>(ClientError::UnknownChannel)
                    && final(self)@ == v
                &&& i >= 0 && v.channels[i].closed ==> r == Err::<Vec<u8>, ClientError>(
                    ClientError::ChannelClosed,
                ) && final(self)@ == v
                &&& i >= 0 && !v.channels[i].closed ==> r is Ok && r->Ok_0@ == close_frame(
                    v.host,
                    name@,
                ) && final(self)@ == (SessionView {
                    channels: v.channels.update(i, closed_state(v.channels[i])),
                    ..v
                })
            }),
    {
        let i = match self.position(name) {
            Some(i) => i,
            None => {
                return Err(ClientError::UnknownChannel);
            },
        };
        let ghost v = self@;
        let ghost slots0 = self.slots@;
        let r = self.slots[i].channel.close();
        assert(forall|k: int| 0 <= k < slots0.len() && k != i ==> self.slots@[k] == slots0[k]);
        assert(self.slots@[i as int].cache == slots0[i as int].cache);
        if r.is_ok() {
            assert(self@.channels =~= v.channels.update(i as int, closed_state(v.channels[i as int])));
        } else {
            assert(self@.channels =~= v.channels);
        }
        r
    }

    /// Closes every channel that is still open, in registry order, and gives
    /// their close-command frames; the channels stay registered.
    pub fn drop_all_channels(&mut self) -> (r: Vec<Vec<u8>>)
        requires
            old(self).wf(),
        ensures
            final(self).wf(),
            frames_view(r@) == closing_frames(old(self)@.host, old(self)@.channels),
            final(self)@ == (SessionView {
                channels: old(self)@.channels.map_values(|c: ChannelState| closed_state(c)),
                ..old(self)@
            }),
    {
        let ghost v = self@;
        let mut out: Vec<Vec<u8>> = Vec::new();
        let n = self.slots.len();
        let mut i: usize = 0;
        while i < n
            invariant
                self.wf(),
                n == self.slots@.len(),
                n == v.channels.len(),
                i <= n,
                self@.host == v.host,
                frames_view(out@) == closing_frames(v.host, v.channels.subrange(0, i as int)),
                forall|k: int| 0 <= k < i ==> #[trigger] self@.channels[k] == closed_state(v.channels[k]),
                forall|k: int| i <= k < n ==> #[trigger] self@.channels[k] == v.channels[k],
            decreases n - i,
        {
            let ghost before = self@;
            let ghost out0 = out@;
            assert(v.channels.subrange(0, i + 1).drop_last() =~= v.channels.subrange(0, i as int));
            assert(v.channels.subrange(0, i + 1).last() == v.channels[i as int]);
            assert(self@.channels[i as int] == v.channels[i as int]);
            assert(slot_state(self.slots@[i as int]) == self@.channels[i as int]);
            if self.slots[i].channel.is_closed() {
                assert(frames_view(out@) =~= closing_frames(v.host, v.channels.subrange(0, i + 1)));
                assert(closed_state(v.channels[i as int]) == v.channels[i as int]);
            } else {
                let ghost slots0 = self.slots@;
                assert(self.slots@[i as int].channel@.host == self.host@);
                let r = self.slots[i].channel.close();
                assert(forall|k: int| 0 <= k < slots0.len() && k != i ==> self.slots@[k] == slots0[k]);
                assert(self.slots@[i as int].cache == slots0[i as int].cache);
                match r {
                    Ok(frame) => {
                        out.push(frame);
                    },
                    Err(_) => {},
                }
                assert(out@.len() == out0.len() + 1);
                assert(out@.drop_last() == out0);
                assert(out@.last()@ == close_frame(v.host, v.channels[i as int].name));
                assert(frames_view(out@) =~= frames_view(out0).push(close_frame(v.host, v.channels[i as int].name)));
                assert(frames_view(out@) =~= closing_frames(v.host, v.channels.subrange(0, i + 1)));
                assert(self@.channels[i as int] == closed_state(v.channels[i as int]));
                assert(forall|k: int| 0 <= k < n && k != i ==> self@.channels[k] == before.channels[k]);
                assert(forall|k: int| 0 <= k < n ==> #[trigger] self@.channels[k].name == before.channels[k].name);
                assert(forall|k: int| 0 <= k < n ==> #[trigger] self.slots@[k].channel@.host == slots0[k].channel@.host);
                assert(names_unique(self@.channels));
                assert forall|k: int| 0 <= k < i + 1 implies #[trigger] self@.channels[k] == closed_state(v.channels[k]) by {
                    if k < i {
                        assert(self@.channels[k] == before.channels[k]);
                    }
                }
                assert forall|k: int| i + 1 <= k < n implies #[trigger] self@.channels[k] == v.channels[k] by {
                    assert(self@.channels[k] == before.channels[k]);
                }
            }
            i = i + 1;
        }
        assert(v.channels.subrange(0, n as int) =~= v.channels);
        assert(self@.channels =~= v.channels.map_values(|c: ChannelState| closed_state(c)));
        out
    }

    /// Closes every open channel (giving their close-command frames, in
    /// registry order) and then unregisters all channels.
    pub fn close(&mut self) -> (r: Vec<Vec<u8>>)
        requires
            old(self).wf(),
        ensures
            final(self).wf(),
            frames_view(r@) == closing_frames(old(self)@.host, old(self)@.channels),
            final(self)@ == (SessionView { channels: Seq::empty(), ..old(self)@ }),
    {
        let frames = self.drop_all_channels();
        self.slots.clear();
        assert(self@.channels =~= Seq::<ChannelState>::empty());
        frames
    }

    /// Unregisters channel `name` and discards its cache, closing it first
    /// when it is still open: gives its close-command frame in that case.
    pub fn drop_channel(&mut self, name: &String) -> (r: Result<Option<Vec<u8>>, ClientError>)
        requires
            old(self).wf(),
        ensures
            final(self).wf(),
            ({
                let v = old(self)@;
                let i = find(v.channels, name@);
                &&& i < 0 ==> r == Err::<Option<Vec<u8>>, ClientError>(ClientError::UnknownChannel)
                    && final(self)@ == v
                &&& i >= 0 ==> r is Ok && final(self)@ == (SessionView {
                    channels: v.channels.remove(i),
                    ..v
                })
                &&& i >= 0 && v.channels[i].closed ==> r == Ok::<Option<Vec<u8>>, ClientError>(None)
                &&& i >= 0 && !v.channels[i].closed ==> r is Ok && r->Ok_0 is Some
                    && r->Ok_0->Some_0@ == close_frame(v.host, name@)
            }),
    {
        let i = match self.position(name) {
            Some(i) => i,
            None => {
                return Err(ClientError::UnknownChannel);
            },
        };
        let ghost v = self@;
        let mut frame: Option<Vec<u8>> = None;
        if !self.slots[i].channel.is_closed() {
            let ghost slots0 = self.slots@;
            assert(self.slots@[i as int].channel@.host == self.host@);
            match self.slots[i].channel.close() {
                Ok(f) => {
                    frame = Some(f);
                },
                Err(_) => {},
            }
            assert(forall|k: int| 0 <= k < slots0.len() && k != i ==> self.slots@[k] == slots0[k]);
        }
        let _ = self.slots.remove(i);
        assert(self@.channels =~= v.channels.remove(i as int)) by {
            assert(forall|k: int| 0 <= k < v.channels.len() && k != i ==> self@.channels[if k < i { k } else { k - 1 }] == v.channels[k]);
        }
        Ok(frame)
    }
}

/// Demultiplexing: when a frame for another registered channel `b`
/// arrives while channel `a` reads, `a` gets exactly what it would have got
/// had nothing arrived, so never that frame; the payload is queued behind
/// what `b` already had cached, and when that was nothing, the next read on
/// `b`, if open, returns it from the cache without touching the connection.
pub proof fn lemma_demux(v: SessionView, a: Seq<char>, b: Seq<char>, h: DataHead, p: Seq<u8>)
    requires
        names_unique(v.channels),
        find(v.channels, a) >= 0,
        !v.channels[find(v.channels, a)].closed,
        find(v.channels, b) >= 0,
        a != b,
        addressee(h) == Some(b),
    ensures
        ({
            let ia = find(v.channels, a);
            let ib = find(v.channels, b);
            let (v2, r) = deliver_spec(v, a, Some((h, p)));
            &&& r == take_cached(v, ia).1
            &&& names_unique(v2.channels)
            &&& find(v2.channels, b) == ib
            &&& v2.channels[ib].cache == v.channels[ib].cache.push(p)
            &&& v2.channels[ib].closed == v.channels[ib].closed
            &&& v.channels[ib].cache.len() == 0 && !v.channels[ib].closed ==> read_spec(v2, b).1
                == Ok::<Option<Seq<u8>>, ClientError>(Some(p))
        }),
{
    let ia = find(v.channels, a);
    let ib = find(v.channels, b);
    lemma_find_bounds(v.channels, a);
    lemma_find_bounds(v.channels, b);
    let v1 = push_cache(v, ib, p);
    assert(forall|k: int| 0 <= k < v1.channels.len() ==> #[trigger] v1.channels[k].name == v.channels[k].name);
    assert(names_unique(v1.channels));
    assert(ia != ib);
    assert(v1.channels[ia] == v.channels[ia]);
    let (v2, r) = deliver_spec(v, a, Some((h, p)));
    assert(v2 == take_cached(v1, ia).0);
    if v.channels[ia].cache.len() > 0 {
        assert(v2 == pop_cache(v1, ia));
    }
    assert(forall|k: int| 0 <= k < v2.channels.len() ==> #[trigger] v2.channels[k].name == v.channels[k].name);
    assert(names_unique(v2.channels));
    lemma_find(v2.channels, b, ib);
    assert(v2.channels[ib] == v1.channels[ib]);
}

/// After a channel is closed, the session refuses to read for it, whether
/// from its cache or from the connection, and its state stays as it is.
pub proof fn lemma_closed_refuses(
    v: SessionView,
    name: Seq<char>,
    incoming: Option<(DataHead, Seq<u8>)>,
)
    requires
        names_unique(v.channels),
        find(v.channels, name) >= 0,
    ensures
        ({
            let i = find(v.channels, name);
            let v2 = SessionView {
                channels: v.channels.update(i, closed_state(v.channels[i])),
                ..v
            };
            &&& find(v2.channels, name) == i
            &&& v2.channels[i].closed
            &&& read_spec(v2, name) == (v2, Err::<Option<Seq<u8>>, ClientError>(ClientError::ChannelClosed))
            &&& deliver_spec(v2, name, incoming) == (v2, Err::<(Option<DataHead>, Seq<u8>), ClientError>(
                ClientError::ChannelClosed,
            ))
        }),
{
    let i = find(v.channels, name);
    lemma_find_bounds(v.channels, name);
    let v2 = SessionView { channels: v.channels.update(i, closed_state(v.channels[i])), ..v };
    assert(forall|k: int| 0 <= k < v2.channels.len() ==> #[trigger] v2.channels[k].name == v.channels[k].name);
    assert(names_unique(v2.channels));
    lemma_find(v2.channels, name, i);
}

} // verus!
