//! Taking packet after packet of sound: what to do next, given what came of
//! the last step.
use crate::capture::audio::{
    capture_format, create_audio_sample, frames_of_captured_sound, has_sound, is_audible,
    one_flag_tells_silence, SamplePlan, WaveFormat,
};
use crate::capture::microphone::create_microphone_sample;
use crate::error::{HResult, E_FAIL, E_INVALIDARG, E_POINTER};
use crate::types::Duration;
use vstd::prelude::*;

verus! {

/// How long to wait for a packet, in milliseconds.
pub const PACKET_RETRY_MS: u64 = 1;

/// Where sound comes from.
#[derive(Debug, Clone, Copy, PartialEq, Eq, Structural)]
pub enum SoundSource {
    /// A process and its children.
    System,
    /// The microphone.
    Microphone,
}

/// A packet of sound.
#[derive(Debug, Clone, Copy, PartialEq, Eq, Structural)]
pub struct Packet {
    /// Whether there is no memory behind it.
    pub is_null: bool,
    /// The number of frames in it.
    pub num_frames: u32,
    /// The flags that tell whether it is silent.
    pub flags: u32,
    /// The performance counter at its first frame.
    pub qpc_position: u64,
}

/// Where the capture of sound stands.
#[derive(Debug, Clone, Copy, PartialEq, Eq)]
pub enum PacketPhase {
    /// Does the recording go on?
    Checking,
    /// How large is the next packet?
    Sizing,
    /// The packet is to be fetched.
    Reading,
    /// The counter ticks since the start are to be turned into a time.
    Timing(Packet),
    /// A sample is to be made of the packet.
    Making(Packet, SamplePlan),
    /// The sample is to be passed on.
    Sending(Packet),
    /// The packet is to be given back.
    Releasing(u32),
    /// There is to be a break.
    Waiting,
    /// The device is to be stopped.
    Stopping,
    /// The capture is over.
    Finished(Result<(), HResult>),
}

/// What to do next.
#[derive(Debug, Clone, Copy, PartialEq, Eq)]
pub enum PacketAction {
    /// Find out whether the recording goes on.
    CheckRecording,
    /// Find out how large the next packet is.
    GetPacketSize,
    /// Fetch the packet.
    GetPacket,
    /// Turn counter ticks into units of 100 nanoseconds.
    ConvertTicks(u64),
    /// Make a sample of the packet.
    MakeSample(SamplePlan),
    /// Pass the sample on.
    SendSample,
    /// Give a packet of so many frames back.
    ReleasePacket(u32),
    /// Wait.
    Sleep(Duration),
    /// Stop the device.
    StopDevice,
    /// Stop: the capture is over.
    Finish(Result<(), HResult>),
}

/// What came of an action.
#[derive(Debug, Clone, Copy, PartialEq, Eq)]
pub enum PacketReply {
    /// Whether the recording goes on.
    Recording(bool),
    /// The size of the next packet in frames.
    Size(Result<u32, HResult>),
    /// The packet.
    Fetched(Result<Packet, HResult>),
    /// A time in units of 100 nanoseconds.
    Time(i64),
    /// How making the sample went.
    Made(Result<(), HResult>),
    /// Whether the sample was passed on.
    Sent(bool),
    /// How giving the packet back went.
    Released(Result<(), HResult>),
    /// The wait is over.
    Slept,
    /// How stopping the device went.
    Stopped(Result<(), HResult>),
}

/// The capture of sound from one source.
#[derive(Debug, Clone, Copy, PartialEq, Eq)]
pub struct PacketLoop {
    /// Where it stands.
    pub phase: PacketPhase,
    /// Where the sound comes from.
    pub source: SoundSource,
    /// The format of the sound.
    pub format: WaveFormat,
    /// The performance counter at the start.
    pub start_qpc: u64,
}

/// The number of bytes in a packet.
pub open spec fn packet_bytes(format: WaveFormat, packet: Packet) -> int {
    packet.num_frames * format.block_align
}

/// Whether a packet is one that the source can deliver.
///
/// A packet with sound does not lie before the start. It fits in a buffer, and
/// a packet of the system has memory behind it.
pub open spec fn is_plausible(
    source: SoundSource,
    format: WaveFormat,
    start_qpc: u64,
    packet: Packet,
) -> bool {
    is_audible(packet.flags) ==> {
        &&& packet.qpc_position >= start_qpc
        &&& packet_bytes(format, packet) <= u32::MAX
        &&& source is System ==> !packet.is_null
    }
}

/// The sample that is to be made of a packet, or the code of the failure.
pub open spec fn sample_of(
    source: SoundSource,
    format: WaveFormat,
    packet: Packet,
    time: i64,
) -> Result<SamplePlan, HResult> {
    if source is Microphone && packet.is_null {
        Err(E_POINTER)
    } else if source is Microphone && packet_bytes(format, packet) > isize::MAX {
        Err(E_INVALIDARG)
    } else {
        Ok(
            SamplePlan {
                size: packet_bytes(format, packet) as u32,
                time,
                duration: (packet.num_frames * format.frame_hns()) as i64,
            },
        )
    }
}

/// What to do in a phase.
pub open spec fn packet_action(p: PacketLoop) -> PacketAction {
    match p.phase {
        PacketPhase::Checking => PacketAction::CheckRecording,
        PacketPhase::Sizing => PacketAction::GetPacketSize,
        PacketPhase::Reading => PacketAction::GetPacket,
        PacketPhase::Timing(packet) => PacketAction::ConvertTicks(
            (packet.qpc_position - p.start_qpc) as u64,
        ),
        PacketPhase::Making(_, plan) => PacketAction::MakeSample(plan),
        PacketPhase::Sending(_) => PacketAction::SendSample,
        PacketPhase::Releasing(frames) => PacketAction::ReleasePacket(frames),
        PacketPhase::Waiting => PacketAction::Sleep(Duration { nanos: 1_000_000 }),
        PacketPhase::Stopping => PacketAction::StopDevice,
        PacketPhase::Finished(outcome) => PacketAction::Finish(outcome),
    }
}

impl PacketLoop {
    /// Whether the packet at hand is one with sound that the source can
    /// deliver.
    pub open spec fn wf(self) -> bool {
        &&& self.format.samples_per_sec > 0
        &&& match self.phase {
            PacketPhase::Timing(packet) => is_audible(packet.flags) && is_plausible(
                self.source,
                self.format,
                self.start_qpc,
                packet,
            ),
            _ => true,
        }
    }

    /// The capture at the start.
    pub fn start(source: SoundSource, start_qpc: u64) -> (r: Self)
        ensures
            r.wf(),
            r.phase == PacketPhase::Checking,
            r.source == source,
            r.start_qpc == start_qpc,
            r.format == capture_format(),
    {
        PacketLoop {
            phase: PacketPhase::Checking,
            source,
            format: WaveFormat::capture(),
            start_qpc,
        }
    }

    /// What to do next.
    pub fn action(&self) -> (r: PacketAction)
        requires
            self.wf(),
        ensures
            r == packet_action(*self),
    {
        match self.phase {
            PacketPhase::Checking => PacketAction::CheckRecording,
            PacketPhase::Sizing => PacketAction::GetPacketSize,
            PacketPhase::Reading => PacketAction::GetPacket,
            PacketPhase::Timing(packet) => PacketAction::ConvertTicks(
                packet.qpc_position - self.start_qpc,
            ),
            PacketPhase::Making(_, plan) => PacketAction::MakeSample(plan),
            PacketPhase::Sending(_) => PacketAction::SendSample,
            PacketPhase::Releasing(frames) => PacketAction::ReleasePacket(frames),
            PacketPhase::Waiting => PacketAction::Sleep(Duration::from_millis(PACKET_RETRY_MS)),
            PacketPhase::Stopping => PacketAction::StopDevice,
            PacketPhase::Finished(outcome) => PacketAction::Finish(outcome),
        }
    }

    /// Whether a reply answers the action at hand and is plausible. System
    /// audio that nobody receives is not.
    pub open spec fn expects(self, reply: PacketReply) -> bool {
        match (self.phase, reply) {
            (PacketPhase::Checking, PacketReply::Recording(_)) => true,
            (PacketPhase::Sizing, PacketReply::Size(_)) => true,
            (PacketPhase::Reading, PacketReply::Fetched(Ok(packet))) => is_plausible(
                self.source,
                self.format,
                self.start_qpc,
                packet,
            ),
            (PacketPhase::Reading, PacketReply::Fetched(Err(_))) => true,
            (PacketPhase::Timing(_), PacketReply::Time(_)) => true,
            (PacketPhase::Making(_, _), PacketReply::Made(_)) => true,
            (PacketPhase::Sending(_), PacketReply::Sent(sent)) => sent || self.source is Microphone,
            (PacketPhase::Releasing(_), PacketReply::Released(_)) => true,
            (PacketPhase::Waiting, PacketReply::Slept) => true,
            (PacketPhase::Stopping, PacketReply::Stopped(_)) => true,
            _ => false,
        }
    }

    /// Computes `expects`.
    pub fn accepts(&self, reply: &PacketReply) -> (r: bool)
        ensures
            r == self.expects(*reply),
    {
        match (self.phase, *reply) {
            (PacketPhase::Checking, PacketReply::Recording(_)) => true,
            (PacketPhase::Sizing, PacketReply::Size(_)) => true,
            (PacketPhase::Reading, PacketReply::Fetched(Ok(packet))) => {
                let null_ok = match self.source {
                    SoundSource::System => !packet.is_null,
                    SoundSource::Microphone => true,
                };
                assert(packet.num_frames * self.format.block_align <= u64::MAX)
                    by (nonlinear_arith);
                let bytes: u64 = packet.num_frames as u64 * self.format.block_align as u64;
                !has_sound(packet.flags) || (packet.qpc_position >= self.start_qpc && bytes
                    <= u32::MAX as u64 && null_ok)
            },
            (PacketPhase::Reading, PacketReply::Fetched(Err(_))) => true,
            (PacketPhase::Timing(_), PacketReply::Time(_)) => true,
            (PacketPhase::Making(_, _), PacketReply::Made(_)) => true,
            (PacketPhase::Sending(_), PacketReply::Sent(sent)) => {
                match self.source {
                    SoundSource::System => sent,
                    SoundSource::Microphone => true,
                }
            },
            (PacketPhase::Releasing(_), PacketReply::Released(_)) => true,
            (PacketPhase::Waiting, PacketReply::Slept) => true,
            (PacketPhase::Stopping, PacketReply::Stopped(_)) => true,
            _ => false,
        }
    }

    /// The phase after a reply.
    pub open spec fn next_phase(self, reply: PacketReply) -> PacketPhase {
        match (self.phase, reply) {
            (PacketPhase::Checking, PacketReply::Recording(on)) => if on {
                PacketPhase::Sizing
            } else {
                PacketPhase::Stopping
            },
            (PacketPhase::Sizing, PacketReply::Size(Ok(size))) => if size > 0 {
                PacketPhase::Reading
            } else {
                PacketPhase::Waiting
            },
            (PacketPhase::Sizing, PacketReply::Size(Err(code))) => PacketPhase::Finished(Err(code)),
            (PacketPhase::Reading, PacketReply::Fetched(Ok(packet))) => if is_audible(
                packet.flags,
            ) {
                PacketPhase::Timing(packet)
            } else {
                PacketPhase::Releasing(packet.num_frames)
            },
            (PacketPhase::Reading, PacketReply::Fetched(Err(code))) => PacketPhase::Finished(
                Err(code),
            ),
            (PacketPhase::Timing(packet), PacketReply::Time(time)) => match sample_of(
                self.source,
                self.format,
                packet,
                time,
            ) {
                Ok(plan) => PacketPhase::Making(packet, plan),
                Err(code) => PacketPhase::Finished(Err(code)),
            },
            (PacketPhase::Making(packet, _), PacketReply::Made(Ok(_))) => PacketPhase::Sending(
                packet,
            ),
            (PacketPhase::Making(_, _), PacketReply::Made(Err(code))) => PacketPhase::Finished(
                Err(code),
            ),
            (PacketPhase::Sending(packet), PacketReply::Sent(sent)) => if sent {
                PacketPhase::Releasing(packet.num_frames)
            } else {
                PacketPhase::Finished(Err(E_FAIL))
            },
            (PacketPhase::Releasing(_), PacketReply::Released(Ok(_))) => PacketPhase::Checking,
            (PacketPhase::Releasing(_), PacketReply::Released(Err(code))) => PacketPhase::Finished(
                Err(code),
            ),
            (PacketPhase::Waiting, PacketReply::Slept) => PacketPhase::Checking,
            (PacketPhase::Stopping, PacketReply::Stopped(result)) => match (self.source, result) {
                (SoundSource::System, Err(code)) => PacketPhase::Finished(Err(code)),
                _ => PacketPhase::Finished(Ok(())),
            },
            (phase, _) => phase,
        }
    }

    /// Computes `sample_of`.
    fn plan_sample(&self, packet: Packet, time: i64) -> (r: Result<SamplePlan, HResult>)
        requires
            self.format.samples_per_sec > 0,
            is_audible(packet.flags),
            is_plausible(self.source, self.format, self.start_qpc, packet),
        ensures
            r == sample_of(self.source, self.format, packet, time),
    {
        let frame_hns: i64 = self.format.packet_duration_hns();
        assert(0 <= packet.num_frames * frame_hns <= i64::MAX) by (nonlinear_arith)
            requires
                0 <= frame_hns <= 10_000_000,
                0 <= packet.num_frames <= u32::MAX,
        ;
        match self.source {
            SoundSource::System => Ok(
                create_audio_sample(packet.num_frames, &self.format, time, frame_hns),
            ),
            SoundSource::Microphone => create_microphone_sample(
                packet.is_null,
                packet.num_frames,
                &self.format,
                time,
                frame_hns,
            ),
        }
    }

    /// Goes on after a reply.
    pub fn advance(&mut self, reply: PacketReply)
        requires
            old(self).wf(),
            old(self).expects(reply),
        ensures
            final(self).wf(),
            *final(self) == (PacketLoop { phase: old(self).next_phase(reply), ..*old(self) }),
    {
        self.phase = match (self.phase, reply) {
            (PacketPhase::Checking, PacketReply::Recording(on)) => {
                if on {
                    PacketPhase::Sizing
                } else {
                    PacketPhase::Stopping
                }
            },
            (PacketPhase::Sizing, PacketReply::Size(Ok(size))) => {
                if size > 0 {
                    PacketPhase::Reading
                } else {
                    PacketPhase::Waiting
                }
            },
            (PacketPhase::Sizing, PacketReply::Size(Err(code))) => PacketPhase::Finished(Err(code)),
            (PacketPhase::Reading, PacketReply::Fetched(Ok(packet))) => {
                if has_sound(packet.flags) {
                    PacketPhase::Timing(packet)
                } else {
                    PacketPhase::Releasing(packet.num_frames)
                }
            },
            (PacketPhase::Reading, PacketReply::Fetched(Err(code))) => PacketPhase::Finished(
                Err(code),
            ),
            (PacketPhase::Timing(packet), PacketReply::Time(time)) => {
                match self.plan_sample(packet, time) {
                    Ok(plan) => PacketPhase::Making(packet, plan),
                    Err(code) => PacketPhase::Finished(Err(code)),
                }
            },
            (PacketPhase::Making(packet, _), PacketReply::Made(Ok(_))) => PacketPhase::Sending(
                packet,
            ),
            (PacketPhase::Making(_, _), PacketReply::Made(Err(code))) => PacketPhase::Finished(
                Err(code),
            ),
            (PacketPhase::Sending(packet), PacketReply::Sent(sent)) => {
                if sent {
                    PacketPhase::Releasing(packet.num_frames)
                } else {
                    PacketPhase::Finished(Err(E_FAIL))
                }
            },
            (PacketPhase::Releasing(_), PacketReply::Released(Ok(_))) => PacketPhase::Checking,
            (PacketPhase::Releasing(_), PacketReply::Released(Err(code))) => PacketPhase::Finished(
                Err(code),
            ),
            (PacketPhase::Waiting, PacketReply::Slept) => PacketPhase::Checking,
            (PacketPhase::Stopping, PacketReply::Stopped(result)) => {
                match (self.source, result) {
                    (SoundSource::System, Err(code)) => PacketPhase::Finished(Err(code)),
                    _ => PacketPhase::Finished(Ok(())),
                }
            },
            (phase, _) => phase,
        };
    }
}

/// Whether every reply of a run answers the action at hand.
pub open spec fn is_run(p: PacketLoop, replies: Seq<PacketReply>) -> bool
    decreases replies.len(),
{
    replies.len() > 0 ==> p.expects(replies[0]) && is_run(
        (PacketLoop { phase: p.next_phase(replies[0]), ..p }),
        replies.drop_first(),
    )
}

/// The capture after all replies of a run.
pub open spec fn after(p: PacketLoop, replies: Seq<PacketReply>) -> PacketLoop
    decreases replies.len(),
{
    if replies.len() == 0 {
        p
    } else {
        after(
            (PacketLoop { phase: p.next_phase(replies[0]), ..p }),
            replies.drop_first(),
        )
    }
}

/// The packets that a run fetches, by their number of frames.
pub open spec fn fetched(p: PacketLoop, replies: Seq<PacketReply>) -> Seq<u32>
    decreases replies.len(),
{
    if replies.len() == 0 {
        Seq::empty()
    } else {
        let rest = fetched(
            (PacketLoop { phase: p.next_phase(replies[0]), ..p }),
            replies.drop_first(),
        );
        match replies[0] {
            PacketReply::Fetched(Ok(packet)) => seq![packet.num_frames] + rest,
            _ => rest,
        }
    }
}

/// The packets that a run gives back, by their number of frames.
pub open spec fn given_back(p: PacketLoop, replies: Seq<PacketReply>) -> Seq<u32>
    decreases replies.len(),
{
    if replies.len() == 0 {
        Seq::empty()
    } else {
        let rest = given_back(
            (PacketLoop { phase: p.next_phase(replies[0]), ..p }),
            replies.drop_first(),
        );
        match p.phase {
            PacketPhase::Releasing(frames) => seq![frames] + rest,
            _ => rest,
        }
    }
}

/// The packet that is held in a phase, by its number of frames.
pub open spec fn held(phase: PacketPhase) -> Seq<u32> {
    match phase {
        PacketPhase::Timing(packet) => seq![packet.num_frames],
        PacketPhase::Making(packet, _) => seq![packet.num_frames],
        PacketPhase::Sending(packet) => seq![packet.num_frames],
        PacketPhase::Releasing(frames) => seq![frames],
        _ => Seq::empty(),
    }
}

/// Every packet that is fetched is given back, whole and in order, where the
/// capture ends well.
pub proof fn packets_are_given_back(p: PacketLoop, replies: Seq<PacketReply>)
    requires
        p.wf(),
        is_run(p, replies),
        after(p, replies).phase == PacketPhase::Finished(Ok(())),
    ensures
        given_back(p, replies) == held(p.phase) + fetched(p, replies),
        p.phase matches PacketPhase::Finished(outcome) ==> outcome is Ok,
    decreases replies.len(),
{
    if replies.len() > 0 {
        let q = PacketLoop { phase: p.next_phase(replies[0]), ..p };
        packets_are_given_back(q, replies.drop_first());
        assert(given_back(p, replies) =~= held(p.phase) + fetched(p, replies));
    } else {
        assert(given_back(p, replies) =~= held(p.phase) + fetched(p, replies));
    }
}

/// Silent packets are given back without a sample.
pub proof fn silence_makes_no_sample(p: PacketLoop, packet: Packet)
    requires
        p.phase is Reading,
        !is_audible(packet.flags),
    ensures
        p.next_phase(PacketReply::Fetched(Ok(packet))) == PacketPhase::Releasing(
            packet.num_frames,
        ),
{
}

/// The packets with sound that a run fetches.
pub open spec fn audible_fetched(replies: Seq<PacketReply>) -> Seq<Packet>
    decreases replies.len(),
{
    if replies.len() == 0 {
        Seq::empty()
    } else {
        let rest = audible_fetched(replies.drop_first());
        match replies[0] {
            PacketReply::Fetched(Ok(packet)) => if packet.flags % 4 < 2 {
                seq![packet] + rest
            } else {
                rest
            },
            _ => rest,
        }
    }
}

/// The samples that a run makes.
pub open spec fn made(p: PacketLoop, replies: Seq<PacketReply>) -> Seq<SamplePlan>
    decreases replies.len(),
{
    if replies.len() == 0 {
        Seq::empty()
    } else {
        let rest = made(
            (PacketLoop { phase: p.next_phase(replies[0]), ..p }),
            replies.drop_first(),
        );
        match packet_action(p) {
            PacketAction::MakeSample(plan) => seq![plan] + rest,
            _ => rest,
        }
    }
}

/// How many samples a run passes on.
pub open spec fn sent(p: PacketLoop, replies: Seq<PacketReply>) -> nat
    decreases replies.len(),
{
    if replies.len() == 0 {
        0
    } else {
        let rest = sent(
            (PacketLoop { phase: p.next_phase(replies[0]), ..p }),
            replies.drop_first(),
        );
        if packet_action(p) == PacketAction::SendSample {
            rest + 1
        } else {
            rest
        }
    }
}

/// Whether samples have the bytes and the durations of packets, one by one.
pub open spec fn are_samples_of(plans: Seq<SamplePlan>, packets: Seq<Packet>) -> bool {
    &&& plans.len() == packets.len()
    &&& forall|i: int|
        #![trigger plans[i]]
        0 <= i < plans.len() ==> {
            &&& plans[i].size == packets[i].num_frames * 4
            &&& plans[i].duration == packets[i].num_frames * 226
        }
}

/// The packet that a sample is still to be made of in a phase.
spec fn to_be_made(phase: PacketPhase) -> Seq<Packet> {
    match phase {
        PacketPhase::Timing(packet) => seq![packet],
        PacketPhase::Making(packet, _) => seq![packet],
        _ => Seq::empty(),
    }
}

/// How many samples are still to be passed on in a phase.
spec fn to_be_sent(phase: PacketPhase) -> nat {
    match phase {
        PacketPhase::Timing(_) => 1,
        PacketPhase::Making(_, _) => 1,
        PacketPhase::Sending(_) => 1,
        _ => 0,
    }
}

/// From a phase on, samples are made of the packets with sound.
proof fn samples_from_here(p: PacketLoop, replies: Seq<PacketReply>)
    requires
        p.wf(),
        p.format == capture_format(),
        p.phase matches PacketPhase::Making(packet, plan) ==> plan.size == packet.num_frames * 4
            && plan.duration == packet.num_frames * 226,
        is_run(p, replies),
        after(p, replies).phase == PacketPhase::Finished(Ok(())),
    ensures
        are_samples_of(made(p, replies), to_be_made(p.phase) + audible_fetched(replies)),
        sent(p, replies) == to_be_sent(p.phase) + audible_fetched(replies).len(),
        p.phase matches PacketPhase::Finished(outcome) ==> outcome is Ok,
    decreases replies.len(),
{
    frames_of_captured_sound();
    if replies.len() > 0 {
        let q = PacketLoop { phase: p.next_phase(replies[0]), ..p };
        let rest = replies.drop_first();
        match replies[0] {
            PacketReply::Fetched(Ok(packet)) => {
                one_flag_tells_silence(packet.flags);
            },
            _ => {},
        }
        match p.phase {
            PacketPhase::Timing(packet) => {
                assert(0 <= packet.num_frames * 226 <= i64::MAX);
            },
            _ => {},
        }
        samples_from_here(q, rest);
        let plans = made(p, replies);
        let packets = to_be_made(p.phase) + audible_fetched(replies);
        let later = made(q, rest);
        let others = to_be_made(q.phase) + audible_fetched(rest);
        match p.phase {
            PacketPhase::Making(packet, plan) => {
                assert(packets =~= seq![packet] + others);
                assert(plans =~= seq![plan] + later);
                assert forall|i: int| #![trigger plans[i]] 0 <= i < plans.len() implies {
                    &&& plans[i].size == packets[i].num_frames * 4
                    &&& plans[i].duration == packets[i].num_frames * 226
                } by {
                    if i > 0 {
                        assert(later[i - 1] == plans[i]);
                        assert(others[i - 1] == packets[i]);
                    }
                }
            },
            _ => {
                assert(packets =~= others);
                assert(plans =~= later);
            },
        }
    }
}

/// Every packet with sound, and no other, becomes a sample that has all its bytes
/// and lasts as long as it, and the sample is passed on, where the capture ends
/// well.
pub proof fn all_sound_is_passed_on(p: PacketLoop, replies: Seq<PacketReply>)
    requires
        p.phase is Checking,
        p.format == capture_format(),
        is_run(p, replies),
        after(p, replies).phase == PacketPhase::Finished(Ok(())),
    ensures
        are_samples_of(made(p, replies), audible_fetched(replies)),
        sent(p, replies) == audible_fetched(replies).len(),
{
    samples_from_here(p, replies);
    assert(to_be_made(p.phase) + audible_fetched(replies) =~= audible_fetched(replies));
}

/// The time of a sample is what the counter has come to at its packet since the
/// start.
pub proof fn samples_are_timed_from_the_start(p: PacketLoop, packet: Packet, time: i64)
    requires
        p.wf(),
        p.phase is Reading,
        p.expects(PacketReply::Fetched(Ok(packet))),
        packet.flags % 4 < 2,
    ensures
        ({
            let q = PacketLoop { phase: p.next_phase(PacketReply::Fetched(Ok(packet))), ..p };
            let r = PacketLoop { phase: q.next_phase(PacketReply::Time(time)), ..q };
            &&& packet_action(q) matches PacketAction::ConvertTicks(ticks) && ticks
                == packet.qpc_position - p.start_qpc
            &&& match packet_action(r) {
                PacketAction::MakeSample(plan) => plan.time == time,
                PacketAction::Finish(Err(code)) => p.source is Microphone && (packet.is_null
                    && code == -2147467261 || !packet.is_null && code == -2147024809),
                _ => false,
            }
            &&& !packet.is_null && packet.num_frames * p.format.block_align <= 0x7fff_ffff
                ==> packet_action(r) is MakeSample
        }),
{
    one_flag_tells_silence(packet.flags);
}

/// In each round it is asked whether the recording goes on. Where it does, the
/// next packet is fetched if there is one, and else there is a break of one
/// millisecond. Where it does not, the device is stopped, and the capture is over.
pub proof fn rounds_of_a_capture(p: PacketLoop, on: bool, size: u32, result: Result<(), HResult>)
    requires
        packet_action(p) == PacketAction::CheckRecording,
    ensures
        ({
            let q = PacketLoop { phase: p.next_phase(PacketReply::Recording(on)), ..p };
            &&& on ==> {
                let r = PacketLoop { phase: q.next_phase(PacketReply::Size(Ok(size))), ..q };
                &&& packet_action(q) == PacketAction::GetPacketSize
                &&& size > 0 ==> packet_action(r) == PacketAction::GetPacket
                &&& size == 0 ==> (packet_action(r) matches PacketAction::Sleep(time) && time@
                    == 1_000_000)
                &&& size == 0 ==> r.next_phase(PacketReply::Slept) is Checking
            }
            &&& !on ==> {
                let r = PacketLoop { phase: q.next_phase(PacketReply::Stopped(result)), ..q };
                &&& packet_action(q) == PacketAction::StopDevice
                &&& packet_action(r) matches PacketAction::Finish(outcome) && (outcome is Ok
                    <==> result is Ok || p.source is Microphone) && (outcome is Err ==> outcome
                    == result)
            }
        }),
{
}

/// A failure to find out about a packet, to fetch it, to make a sample of it or to
/// give it back ends the capture with its code.
pub proof fn failures_end_the_capture(p: PacketLoop, code: HResult)
    ensures
        p.phase is Sizing ==> p.next_phase(PacketReply::Size(Err(code))) == PacketPhase::Finished(
            Err(code),
        ),
        p.phase is Reading ==> p.next_phase(PacketReply::Fetched(Err(code)))
            == PacketPhase::Finished(Err(code)),
        p.phase is Making ==> p.next_phase(PacketReply::Made(Err(code))) == PacketPhase::Finished(
            Err(code),
        ),
        p.phase is Releasing ==> p.next_phase(PacketReply::Released(Err(code)))
            == PacketPhase::Finished(Err(code)),
        p.phase is Sending ==> (p.next_phase(PacketReply::Sent(false)) matches PacketPhase::Finished(
            Err(refusal),
        ) && refusal == -2147467259),
{
}

} // verus!
