//! Playback outputs: which receivers a selected output plays on, at what
//! volume, and the state machine of one receiver sink.
use vstd::prelude::*;
use vstd::string::StringExecFns;

use crate::deps::{uuid_string, uuid_text};
use crate::rooms::stored_volume;
use crate::text::str_eq;

verus! {

/// Where playback is sent.
#[derive(Debug)]
pub enum PlaybackOutputSelection {
    Receiver { id: String },
    RoomGroup { id: u128 },
    Chain { id: u128 },
}

/// One receiver that playback is sent to.
#[derive(Debug)]
pub struct SinkConfig {
    pub receiver_id: String,
    pub volume: u8,
    pub muted: bool,
}

/// What an output is, as the playback state describes it.
#[derive(Debug)]
pub struct OutputDescription {
    pub target_id: String,
    pub target_name: String,
    pub kind: String,
    pub receiver_count: usize,
}

/// The receivers of a resolved output and its description.
#[derive(Debug)]
pub struct OutputPlan {
    pub sinks: Vec<SinkConfig>,
    pub description: OutputDescription,
}

/// Why an output could not be resolved.
#[derive(Debug)]
pub enum OutputError {
    /// The receiver is unknown or not paired.
    ReceiverNotPaired(String),
    /// No room group or chain has this id.
    OutputNotFound(String),
    /// The output has no usable receiver.
    OutputUnavailable(String),
}

/// A single receiver as output: it must be registered and paired.  It plays
/// at volume 80, unmuted.
pub fn resolve_receiver(id: &str, entry: Option<(String, bool)>) -> (r: Result<OutputPlan, OutputError>)
    ensures
        match entry {
            Some((name, true)) => r matches Ok(p) && p.sinks@.len() == 1 && p.sinks@[0].receiver_id@
                == id@ && p.sinks@[0].volume == 80 && !p.sinks@[0].muted && p.description.target_id@
                == id@ && p.description.target_name@ == name@ && p.description.kind@ == "receiver"@
                && p.description.receiver_count == 1,
            _ => r matches Err(OutputError::ReceiverNotPaired(x)) && x@ == id@,
        },
{
    match entry {
        Some((name, true)) => {
            let mut sinks: Vec<SinkConfig> = Vec::new();
            sinks.push(SinkConfig { receiver_id: String::from_str(id), volume: 80, muted: false });
            Ok(
                OutputPlan {
                    sinks,
                    description: OutputDescription {
                        target_id: String::from_str(id),
                        target_name: name,
                        kind: String::from_str("receiver"),
                        receiver_count: 1,
                    },
                },
            )
        },
        _ => Err(OutputError::ReceiverNotPaired(String::from_str(id))),
    }
}

/// A stored room group as the output resolver reads it.
#[derive(Debug)]
pub struct RoomGroupRecord {
    pub name: String,
    pub receiver_ids: Vec<String>,
    pub volumes: Vec<(String, u32)>,
}

/// The sinks of a room group: its paired receivers (`paired[i]` for the
/// `i`-th), in order, each at its stored volume or 80, unmuted.
pub open spec fn room_sinks_ok(
    sinks: Seq<SinkConfig>,
    ids: Seq<String>,
    paired: Seq<bool>,
    volumes: Seq<(String, u32)>,
) -> bool
    decreases ids.len(),
{
    if ids.len() == 0 || paired.len() == 0 {
        sinks.len() == 0
    } else if paired.last() {
        sinks.len() > 0 && room_sinks_ok(sinks.drop_last(), ids.drop_last(), paired.drop_last(), volumes)
            && sinks.last().receiver_id@ == ids.last()@ && sinks.last().volume == (match stored_volume(
            volumes,
            ids.last()@,
        ) {
            Some(v) => v,
            None => 80,
        }) as u8 && !sinks.last().muted
    } else {
        room_sinks_ok(sinks, ids.drop_last(), paired.drop_last(), volumes)
    }
}

fn volume_of(volumes: &Vec<(String, u32)>, id: &str) -> (r: Option<u32>)
    ensures
        r == stored_volume(volumes@, id@),
{
    let mut i: usize = 0;
    proof {
        assert(volumes@.skip(0) =~= volumes@);
    }
    while i < volumes.len()
        invariant
            i <= volumes@.len(),
            stored_volume(volumes@, id@) == stored_volume(volumes@.skip(i as int), id@),
        decreases volumes.len() - i,
    {
        proof {
            assert(volumes@.skip(i as int).drop_first() =~= volumes@.skip(i as int + 1));
            assert(volumes@.skip(i as int)[0] == volumes@[i as int]);
        }
        if str_eq(volumes[i].0.as_str(), id) {
            return Some(volumes[i].1);
        }
        i = i + 1;
    }
    proof {
        assert(volumes@.skip(i as int) =~= Seq::<(String, u32)>::empty());
    }
    None
}

/// A room group as output: it must exist, have receivers, and at least one
/// of them must be paired.
pub fn resolve_room_group(id: u128, found: Option<RoomGroupRecord>, paired: &Vec<bool>) -> (r: Result<
    OutputPlan,
    OutputError,
>)
    requires
        found matches Some(g) ==> paired@.len() == g.receiver_ids@.len(),
    ensures
        match found {
            None => r matches Err(OutputError::OutputNotFound(x)) && x@ == uuid_text(id),
            Some(g) => if g.receiver_ids@.len() == 0 {
                r matches Err(OutputError::OutputUnavailable(m)) && m@
                    == "room group has no configured receivers"@
            } else {
                match r {
                    Ok(p) => p.sinks@.len() > 0 && room_sinks_ok(
                        p.sinks@,
                        g.receiver_ids@,
                        paired@,
                        g.volumes@,
                    ) && p.description.target_id@ == uuid_text(id) && p.description.target_name@
                        == g.name@ && p.description.kind@ == "room_group"@
                        && p.description.receiver_count == p.sinks@.len(),
                    Err(e) => (e matches OutputError::OutputUnavailable(m) && m@
                        == "none of the receivers in the room group are paired or available"@)
                        && forall|i: int| 0 <= i < paired@.len() ==> !paired@[i],
                }
            },
        },
{
    let g = match found {
        Some(g) => g,
        None => {
            return Err(OutputError::OutputNotFound(uuid_string(id)));
        },
    };
    if g.receiver_ids.len() == 0 {
        return Err(OutputError::OutputUnavailable(String::from_str("room group has no configured receivers")));
    }
    let mut sinks: Vec<SinkConfig> = Vec::new();
    let mut i: usize = 0;
    while i < g.receiver_ids.len()
        invariant
            paired@.len() == g.receiver_ids@.len(),
            i <= g.receiver_ids@.len(),
            room_sinks_ok(sinks@, g.receiver_ids@.take(i as int), paired@.take(i as int), g.volumes@),
            sinks@.len() == 0 ==> forall|k: int| 0 <= k < i ==> !paired@[k],
        decreases g.receiver_ids.len() - i,
    {
        proof {
            assert(g.receiver_ids@.take(i as int + 1).drop_last() =~= g.receiver_ids@.take(i as int));
            assert(paired@.take(i as int + 1).drop_last() =~= paired@.take(i as int));
        }
        if paired[i] {
            let v: u32 = match volume_of(&g.volumes, g.receiver_ids[i].as_str()) {
                Some(v) => v,
                None => 80,
            };
            let ghost before = sinks@;
            sinks.push(SinkConfig { receiver_id: g.receiver_ids[i].clone(), volume: v as u8, muted: false });
            proof {
                assert(sinks@.drop_last() =~= before);
            }
        }
        i = i + 1;
    }
    proof {
        assert(g.receiver_ids@.take(i as int) =~= g.receiver_ids@);
        assert(paired@.take(i as int) =~= paired@);
    }
    if sinks.len() == 0 {
        return Err(
            OutputError::OutputUnavailable(
                String::from_str("none of the receivers in the room group are paired or available"),
            ),
        );
    }
    let n = sinks.len();
    Ok(
        OutputPlan {
            sinks,
            description: OutputDescription {
                target_id: uuid_string(id),
                target_name: g.name,
                kind: String::from_str("room_group"),
                receiver_count: n,
            },
        },
    )
}

/// A link of a stored chain as the output resolver reads it.
#[derive(Debug)]
pub struct ChainLinkRecord {
    pub receiver_id: String,
    pub volume: i64,
    pub muted: bool,
}

/// A link volume limited to 0..=100.
pub open spec fn clamp_volume(v: i64) -> u8 {
    if v < 0 {
        0
    } else if v > 100 {
        100
    } else {
        v as u8
    }
}

/// The sinks of a chain: its links with paired receivers, in order, with
/// their clamped volume and their mute flag.
pub open spec fn chain_sinks_ok(sinks: Seq<SinkConfig>, links: Seq<ChainLinkRecord>, paired: Seq<bool>) -> bool
    decreases links.len(),
{
    if links.len() == 0 || paired.len() == 0 {
        sinks.len() == 0
    } else if paired.last() {
        sinks.len() > 0 && chain_sinks_ok(sinks.drop_last(), links.drop_last(), paired.drop_last())
            && sinks.last().receiver_id@ == links.last().receiver_id@ && sinks.last().volume
            == clamp_volume(links.last().volume) && sinks.last().muted == links.last().muted
    } else {
        chain_sinks_ok(sinks, links.drop_last(), paired.drop_last())
    }
}

/// A chain as output: it must exist, have links, and at least one link's
/// receiver must be paired.
pub fn resolve_chain(id: u128, found: Option<(String, Vec<ChainLinkRecord>)>, paired: &Vec<bool>) -> (r:
    Result<OutputPlan, OutputError>)
    requires
        found matches Some((_, links)) ==> paired@.len() == links@.len(),
    ensures
        match found {
            None => r matches Err(OutputError::OutputNotFound(x)) && x@ == uuid_text(id),
            Some((name, links)) => if links@.len() == 0 {
                r matches Err(OutputError::OutputUnavailable(m)) && m@
                    == "playback chain has no links configured"@
            } else {
                match r {
                    Ok(p) => p.sinks@.len() > 0 && chain_sinks_ok(p.sinks@, links@, paired@)
                        && p.description.target_id@ == uuid_text(id) && p.description.target_name@
                        == name@ && p.description.kind@ == "chain"@ && p.description.receiver_count
                        == p.sinks@.len(),
                    Err(e) => (e matches OutputError::OutputUnavailable(m) && m@
                        == "none of the receivers in the chain are paired or available"@) && forall|i: int|
                        0 <= i < paired@.len() ==> !paired@[i],
                }
            },
        },
{
    let (name, links) = match found {
        Some(x) => x,
        None => {
            return Err(OutputError::OutputNotFound(uuid_string(id)));
        },
    };
    if links.len() == 0 {
        return Err(OutputError::OutputUnavailable(String::from_str("playback chain has no links configured")));
    }
    let mut sinks: Vec<SinkConfig> = Vec::new();
    let mut i: usize = 0;
    while i < links.len()
        invariant
            paired@.len() == links@.len(),
            i <= links@.len(),
            chain_sinks_ok(sinks@, links@.take(i as int), paired@.take(i as int)),
            sinks@.len() == 0 ==> forall|k: int| 0 <= k < i ==> !paired@[k],
        decreases links.len() - i,
    {
        proof {
            assert(links@.take(i as int + 1).drop_last() =~= links@.take(i as int));
            assert(paired@.take(i as int + 1).drop_last() =~= paired@.take(i as int));
        }
        if paired[i] {
            let v = links[i].volume;
            let vol: u8 = if v < 0 {
                0
            } else if v > 100 {
                100
            } else {
                v as u8
            };
            let ghost before = sinks@;
            sinks.push(SinkConfig { receiver_id: links[i].receiver_id.clone(), volume: vol, muted: links[i].muted });
            proof {
                assert(sinks@.drop_last() =~= before);
            }
        }
        i = i + 1;
    }
    proof {
        assert(links@.take(i as int) =~= links@);
        assert(paired@.take(i as int) =~= paired@);
    }
    if sinks.len() == 0 {
        return Err(
            OutputError::OutputUnavailable(
                String::from_str("none of the receivers in the chain are paired or available"),
            ),
        );
    }
    let n = sinks.len();
    Ok(
        OutputPlan {
            sinks,
            description: OutputDescription {
                target_id: uuid_string(id),
                target_name: name,
                kind: String::from_str("chain"),
                receiver_count: n,
            },
        },
    )
}

/// Whether an optional error holds the text `t`.
pub open spec fn error_is(o: Option<String>, t: Seq<char>) -> bool {
    match o {
        Some(x) => x@ == t,
        None => false,
    }
}

/// The state of a receiver sink.
#[derive(Debug, Clone, Copy, PartialEq, Eq, Structural)]
pub enum SinkState {
    Preparing,
    Ready,
    AudioFlowing,
    Paused,
    Stopped,
    Failed,
}

/// A failed sink operation.
#[derive(Debug)]
pub enum SinkError {
    /// The receiver is unknown or not paired.
    ReceiverNotPaired(String),
    /// The operation failed with this message.
    PlaybackFailed(String),
}

/// A receiver that playback is sent to: its state and byte counters.
#[derive(Debug)]
pub struct ReceiverSink {
    pub receiver_id: String,
    pub state: SinkState,
    pub bytes_received: u64,
    pub bytes_sent_to_transport: u64,
    pub last_error: Option<String>,
    pub volume: u8,
    pub muted: bool,
}

/// What preparing a sink asks of the caller.
#[derive(Debug, Clone, Copy, PartialEq, Eq, Structural)]
pub enum PrepareAction {
    /// Start a session on the receiver at this volume, then report back.
    StartSession { volume: u32 },
    /// The sink is ready.
    Ready,
}

impl ReceiverSink {
    /// A sink for a receiver, preparing, at volume 80 and unmuted.
    pub fn new(receiver_id: String) -> (s: Self)
        ensures
            s.receiver_id@ == receiver_id@,
            s.state == SinkState::Preparing,
            s.bytes_received == 0 && s.bytes_sent_to_transport == 0,
            s.last_error is None,
            s.volume == 80 && !s.muted,
    {
        ReceiverSink {
            receiver_id,
            state: SinkState::Preparing,
            bytes_received: 0,
            bytes_sent_to_transport: 0,
            last_error: None,
            volume: 80,
            muted: false,
        }
    }

    /// A sink for a receiver with a volume and mute flag, preparing.
    pub fn new_with_config(receiver_id: String, volume: u8, muted: bool) -> (s: Self)
        ensures
            s.receiver_id@ == receiver_id@,
            s.state == SinkState::Preparing,
            s.bytes_received == 0 && s.bytes_sent_to_transport == 0,
            s.last_error is None,
            s.volume == volume && s.muted == muted,
    {
        ReceiverSink {
            receiver_id,
            state: SinkState::Preparing,
            bytes_received: 0,
            bytes_sent_to_transport: 0,
            last_error: None,
            volume,
            muted,
        }
    }

    /// First step of preparing: `registered` tells whether the receiver is
    /// registered and paired, `has_session` whether it already streams.
    /// An unregistered receiver fails without a change of state; an
    /// unpaired one fails the sink.
    pub fn prepare(&mut self, registered: Option<bool>, has_session: bool) -> (r: Result<
        PrepareAction,
        SinkError,
    >)
        ensures
            final(self).receiver_id@ == old(self).receiver_id@,
            final(self).bytes_received == old(self).bytes_received,
            final(self).bytes_sent_to_transport == old(self).bytes_sent_to_transport,
            final(self).volume == old(self).volume && final(self).muted == old(self).muted,
            match registered {
                None => (r matches Err(SinkError::ReceiverNotPaired(x)) && x@ == old(self).receiver_id@)
                    && final(self).state == old(self).state && final(self).last_error == old(self).last_error,
                Some(false) => (r matches Err(SinkError::ReceiverNotPaired(x)) && x@ == old(self).receiver_id@) && final(self).state == SinkState::Failed && error_is(final(self).last_error, "receiver is not paired"@),
                Some(true) => if has_session {
                    r == Ok::<PrepareAction, SinkError>(PrepareAction::Ready) && final(self).state
                        == SinkState::Ready && final(self).last_error is None
                } else {
                    r == Ok::<PrepareAction, SinkError>(
                        PrepareAction::StartSession { volume: old(self).volume as u32 },
                    ) && final(self).state == old(self).state && final(self).last_error == old(self).last_error
                },
            },
    {
        match registered {
            None => Err(SinkError::ReceiverNotPaired(self.receiver_id.clone())),
            Some(false) => {
                self.state = SinkState::Failed;
                self.last_error = Some(String::from_str("receiver is not paired"));
                Err(SinkError::ReceiverNotPaired(self.receiver_id.clone()))
            },
            Some(true) => if has_session {
                self.state = SinkState::Ready;
                self.last_error = None;
                Ok(PrepareAction::Ready)
            } else {
                Ok(PrepareAction::StartSession { volume: self.volume as u32 })
            },
        }
    }

    /// Second step of preparing, after the caller tried to start a session.
    pub fn session_started(&mut self, result: Result<(), String>) -> (r: Result<(), SinkError>)
        ensures
            final(self).receiver_id@ == old(self).receiver_id@,
            final(self).bytes_received == old(self).bytes_received,
            final(self).bytes_sent_to_transport == old(self).bytes_sent_to_transport,
            final(self).volume == old(self).volume && final(self).muted == old(self).muted,
            match result {
                Ok(_) => r is Ok && final(self).state == SinkState::Ready && final(self).last_error is None,
                Err(e) => (r matches Err(SinkError::PlaybackFailed(m)) && m@
                    == "failed to start receiver session for "@ + old(self).receiver_id@ + ": "@ + e@)
                    && final(self).state == SinkState::Failed && error_is(final(self).last_error, e@),
            },
    {
        match result {
            Ok(_) => {
                self.state = SinkState::Ready;
                self.last_error = None;
                Ok(())
            },
            Err(e) => {
                let mut m = String::from_str("failed to start receiver session for ");
                m.append(self.receiver_id.as_str());
                m.append(": ");
                m.append(e.as_str());
                self.state = SinkState::Failed;
                self.last_error = Some(e);
                Err(SinkError::PlaybackFailed(m))
            },
        }
    }

    /// Counts `len` bytes handed to the sink.  Returns whether they must
    /// be sent on: a muted sink stays ready and sends nothing.
    pub fn begin_write(&mut self, len: u64) -> (send: bool)
        requires
            old(self).bytes_received + len <= u64::MAX,
        ensures
            final(self).bytes_received == old(self).bytes_received + len,
            final(self).bytes_sent_to_transport == old(self).bytes_sent_to_transport,
            send == !old(self).muted,
            old(self).muted ==> final(self).state == SinkState::Ready,
            !old(self).muted ==> final(self).state == old(self).state,
            final(self).receiver_id@ == old(self).receiver_id@,
            final(self).last_error == old(self).last_error,
            final(self).volume == old(self).volume && final(self).muted == old(self).muted,
    {
        self.bytes_received = self.bytes_received + len;
        if self.muted {
            self.state = SinkState::Ready;
            return false;
        }
        true
    }

    /// Records how sending went: bytes written make the audio flow; a
    /// failure fails the sink.
    pub fn finish_write(&mut self, result: Result<u64, String>) -> (r: Result<u64, SinkError>)
        requires
            result matches Ok(n) ==> old(self).bytes_sent_to_transport + n <= u64::MAX,
        ensures
            final(self).receiver_id@ == old(self).receiver_id@,
            final(self).bytes_received == old(self).bytes_received,
            final(self).volume == old(self).volume && final(self).muted == old(self).muted,
            match result {
                Ok(n) => r == Ok::<u64, SinkError>(n) && final(self).bytes_sent_to_transport == old(self).bytes_sent_to_transport + n && final(self).state == SinkState::AudioFlowing && final(self).last_error is None,
                Err(e) => (r matches Err(SinkError::PlaybackFailed(m)) && m@ == e@)
                    && final(self).bytes_sent_to_transport == old(self).bytes_sent_to_transport && final(self).state == SinkState::Failed && error_is(final(self).last_error, e@),
            },
    {
        match result {
            Ok(n) => {
                self.bytes_sent_to_transport = self.bytes_sent_to_transport + n;
                self.state = SinkState::AudioFlowing;
                self.last_error = None;
                Ok(n)
            },
            Err(e) => {
                self.state = SinkState::Failed;
                let m = e.clone();
                self.last_error = Some(e);
                Err(SinkError::PlaybackFailed(m))
            },
        }
    }

    /// Pauses the sink.
    pub fn pause(&mut self)
        ensures
            final(self).state == SinkState::Paused,
            final(self).bytes_received == old(self).bytes_received,
            final(self).bytes_sent_to_transport == old(self).bytes_sent_to_transport,
            final(self).receiver_id@ == old(self).receiver_id@,
            final(self).muted == old(self).muted && final(self).volume == old(self).volume,
    {
        self.state = SinkState::Paused;
    }

    /// Resumes the sink.
    pub fn resume(&mut self)
        ensures
            final(self).state == SinkState::AudioFlowing,
            final(self).bytes_received == old(self).bytes_received,
            final(self).bytes_sent_to_transport == old(self).bytes_sent_to_transport,
            final(self).receiver_id@ == old(self).receiver_id@,
            final(self).muted == old(self).muted && final(self).volume == old(self).volume,
    {
        self.state = SinkState::AudioFlowing;
    }

    /// Records a new volume; the caller applies it to the receiver.
    pub fn set_volume(&mut self, volume: u8) -> (v: u32)
        ensures
            final(self).volume == volume,
            v == volume as u32,
            final(self).state == old(self).state,
            final(self).receiver_id@ == old(self).receiver_id@,
            final(self).muted == old(self).muted,
    {
        self.volume = volume;
        volume as u32
    }

    /// The error of a failed volume change on the receiver.
    pub fn volume_error(&self, e: &str) -> (r: SinkError)
        ensures
            r matches SinkError::PlaybackFailed(m) && m@ == "failed to set volume on receiver "@
                + self.receiver_id@ + ": "@ + e@,
    {
        let mut m = String::from_str("failed to set volume on receiver ");
        m.append(self.receiver_id.as_str());
        m.append(": ");
        m.append(e);
        SinkError::PlaybackFailed(m)
    }

    /// Stops the sink after the caller tried to stop its session; the sink
    /// is stopped either way.
    pub fn stopped(&mut self, result: Result<(), String>) -> (r: Result<(), SinkError>)
        ensures
            final(self).state == SinkState::Stopped,
            final(self).receiver_id@ == old(self).receiver_id@,
            final(self).bytes_received == old(self).bytes_received,
            final(self).bytes_sent_to_transport == old(self).bytes_sent_to_transport,
            match result {
                Ok(_) => r is Ok,
                Err(e) => r matches Err(SinkError::PlaybackFailed(m)) && m@
                    == "failed to stop session on receiver "@ + old(self).receiver_id@ + ": "@ + e@,
            },
    {
        self.state = SinkState::Stopped;
        match result {
            Ok(_) => Ok(()),
            Err(e) => {
                let mut m = String::from_str("failed to stop session on receiver ");
                m.append(self.receiver_id.as_str());
                m.append(": ");
                m.append(e.as_str());
                Err(SinkError::PlaybackFailed(m))
            },
        }
    }

    /// Whether the receiver can take audio: it must be registered and
    /// paired.
    pub fn health(&self, registered: Option<bool>) -> (r: Result<(), SinkError>)
        ensures
            registered == Some(true) ==> r is Ok,
            registered != Some(true) ==> (r matches Err(SinkError::ReceiverNotPaired(x)) && x@
                == self.receiver_id@),
    {
        match registered {
            Some(true) => Ok(()),
            _ => Err(SinkError::ReceiverNotPaired(self.receiver_id.clone())),
        }
    }
}

} // verus!
