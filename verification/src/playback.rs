//! Decisions of the single-voice tone player.
//!
//! The player owns one audio sink. It never touches the device itself: each
//! operation returns the commands that the caller has to carry out on the
//! sink, in order. The frequency of a tone is carried through untouched, in
//! whatever representation the caller uses for it.

use vstd::prelude::*;

verus! {

/// Sample rate of generated tones, in samples per second.
pub const SAMPLE_RATE: u32 = 44100;

/// Length of a feedback tone, in milliseconds.
pub const TONE_MILLIS: u64 = 300;

/// Time to leave the device alone after it has been released, in
/// milliseconds: some audio backends hold the device for a moment after a
/// stop request.
pub const RELEASE_GRACE_MILLIS: u64 = 30;

/// Channels of a generated tone: one, without panning or mixing.
pub const TONE_CHANNELS: u16 = 1;

/// Peak level of a generated tone, in thousandths of full scale.
pub const TONE_LEVEL_PERMILLE: u32 = 300;

/// A pure tone to be generated and played once.
#[derive(Debug, PartialEq)]
pub struct Tone<F> {
    pub frequency: F,
    pub sample_rate: u32,
    pub millis: u64,
}

/// What the caller has to do on the audio sink.
#[derive(Debug, PartialEq)]
pub enum SinkCommand<F> {
    /// Drop everything the sink still holds, at once.
    Clear,
    /// Queue a tone, cut off after its length.
    Append(Tone<F>),
    /// Give the audio device back.
    Release,
    /// Do no device work for the given number of milliseconds.
    Wait(u64),
}

/// Whether a tone has been handed to the sink and not been cut off since.
#[derive(Clone, Copy, Debug, PartialEq, Eq, Structural)]
pub enum PlaybackState {
    Idle,
    Playing,
}

/// The tone player. Without a device it stays idle and every operation asks
/// for nothing.
pub struct AudioPlayer {
    has_device: bool,
    state: PlaybackState,
}

/// The feedback tone of a frequency.
pub open spec fn feedback_tone<F>(frequency: F) -> Tone<F> {
    Tone { frequency, sample_rate: SAMPLE_RATE, millis: TONE_MILLIS }
}

/// The commands of a request to play: first cut off whatever sounds, then
/// queue the new tone. Nothing without a device.
pub open spec fn play_commands<F>(has_device: bool, frequency: F) -> Seq<SinkCommand<F>> {
    if has_device {
        seq![SinkCommand::Clear, SinkCommand::Append(feedback_tone(frequency))]
    } else {
        Seq::empty()
    }
}

/// The commands of a request to stop.
pub open spec fn stop_commands<F>(has_device: bool) -> Seq<SinkCommand<F>> {
    if has_device {
        seq![SinkCommand::Clear]
    } else {
        Seq::empty()
    }
}

/// The commands of a teardown: stop, release the device, then the grace
/// delay.
pub open spec fn cleanup_commands<F>(has_device: bool) -> Seq<SinkCommand<F>> {
    if has_device {
        seq![SinkCommand::Clear, SinkCommand::Release, SinkCommand::Wait(RELEASE_GRACE_MILLIS)]
    } else {
        Seq::empty()
    }
}

/// The tones a sink holds after one command, given those it held before.
pub open spec fn sink_step<F>(queued: Seq<Tone<F>>, command: SinkCommand<F>) -> Seq<Tone<F>> {
    match command {
        SinkCommand::Clear => Seq::empty(),
        SinkCommand::Append(tone) => queued.push(tone),
        SinkCommand::Release => Seq::empty(),
        SinkCommand::Wait(_) => queued,
    }
}

/// The tones a sink holds after a run of commands, carried out in order.
pub open spec fn sink_after<F>(queued: Seq<Tone<F>>, commands: Seq<SinkCommand<F>>) -> Seq<Tone<F>>
    decreases commands.len(),
{
    if commands.len() == 0 {
        queued
    } else {
        sink_step(sink_after(queued, commands.drop_last()), commands.last())
    }
}

impl AudioPlayer {
    /// Whether the player holds a device.
    pub closed spec fn has_device(&self) -> bool {
        self.has_device
    }

    /// The state of the player.
    pub closed spec fn state(&self) -> PlaybackState {
        self.state
    }

    /// A player is only ever playing while it holds a device.
    #[verifier::type_invariant]
    spec fn idle_without_device(self) -> bool {
        self.state == PlaybackState::Playing ==> self.has_device
    }

    /// An idle player. `device_acquired` says whether the audio device could
    /// be opened; if not, the player is a silent stand-in.
    pub fn new(device_acquired: bool) -> (player: AudioPlayer)
        ensures
            player.has_device() == device_acquired,
            player.state() == PlaybackState::Idle,
    {
        AudioPlayer { has_device: device_acquired, state: PlaybackState::Idle }
    }

    /// Whether a tone has been started and not been cut off since. A player
    /// without a device never is.
    pub fn is_playing(&self) -> (playing: bool)
        ensures
            playing == (self.state() == PlaybackState::Playing),
            playing ==> self.has_device(),
    {
        proof {
            use_type_invariant(self);
        }
        match self.state {
            PlaybackState::Playing => true,
            PlaybackState::Idle => false,
        }
    }

    /// Whether the player holds a device.
    pub fn is_available(&self) -> (available: bool)
        ensures
            available == self.has_device(),
    {
        self.has_device
    }

    /// Plays a tone of the given frequency, cutting off any tone that still
    /// sounds: the last request wins, nothing is queued behind another tone.
    pub fn play_note<F>(&mut self, frequency: F) -> (commands: Vec<SinkCommand<F>>)
        ensures
            final(self).has_device() == old(self).has_device(),
            commands@ == play_commands(old(self).has_device(), frequency),
            final(self).state() == if old(self).has_device() {
                PlaybackState::Playing
            } else {
                PlaybackState::Idle
            },
    {
        proof {
            use_type_invariant(&*self);
        }
        let mut commands: Vec<SinkCommand<F>> = Vec::new();
        if self.has_device {
            commands.push(SinkCommand::Clear);
            commands.push(
                SinkCommand::Append(
                    Tone { frequency, sample_rate: SAMPLE_RATE, millis: TONE_MILLIS },
                ),
            );
            self.state = PlaybackState::Playing;
        }
        assert(commands@ =~= play_commands(old(self).has_device(), frequency));
        commands
    }

    /// Stops any tone that sounds.
    pub fn stop<F>(&mut self) -> (commands: Vec<SinkCommand<F>>)
        ensures
            final(self).has_device() == old(self).has_device(),
            final(self).state() == PlaybackState::Idle,
            commands@ == stop_commands::<F>(old(self).has_device()),
    {
        let mut commands: Vec<SinkCommand<F>> = Vec::new();
        if self.has_device {
            commands.push(SinkCommand::Clear);
        }
        self.state = PlaybackState::Idle;
        assert(commands@ =~= stop_commands::<F>(old(self).has_device()));
        commands
    }

    /// Stops playback and gives the device up. Afterwards the player is a
    /// silent stand-in.
    pub fn cleanup<F>(&mut self) -> (commands: Vec<SinkCommand<F>>)
        ensures
            !final(self).has_device(),
            final(self).state() == PlaybackState::Idle,
            commands@ == cleanup_commands::<F>(old(self).has_device()),
    {
        let mut commands: Vec<SinkCommand<F>> = Vec::new();
        if self.has_device {
            commands.push(SinkCommand::Clear);
            commands.push(SinkCommand::Release);
            commands.push(SinkCommand::Wait(RELEASE_GRACE_MILLIS));
        }
        self.state = PlaybackState::Idle;
        self.has_device = false;
        assert(commands@ =~= cleanup_commands::<F>(old(self).has_device()));
        commands
    }
}

/// After a request to play, the sink holds the requested tone and nothing
/// else, whatever it held before.
pub proof fn lemma_play_replaces<F>(queued: Seq<Tone<F>>, frequency: F)
    ensures
        sink_after(queued, play_commands(true, frequency)) == seq![feedback_tone(frequency)],
{
    let commands = play_commands(true, frequency);
    assert(commands.drop_last() =~= seq![SinkCommand::<F>::Clear]);
    assert(commands.drop_last().drop_last() =~= Seq::<SinkCommand<F>>::empty());
    reveal_with_fuel(sink_after, 3);
    assert(sink_after(queued, commands) =~= seq![feedback_tone(frequency)]);
}

/// Two requests to play in a row leave only the second tone in the sink: the
/// second request clears the sink before it queues its tone.
pub proof fn lemma_last_play_wins<F>(queued: Seq<Tone<F>>, first: F, second: F)
    ensures
        play_commands(true, second)[0] == SinkCommand::<F>::Clear,
        play_commands(true, second)[1] == SinkCommand::Append(feedback_tone(second)),
        sink_after(sink_after(queued, play_commands(true, first)), play_commands(true, second))
            == seq![feedback_tone(second)],
{
    lemma_play_replaces(queued, first);
    lemma_play_replaces(sink_after(queued, play_commands(true, first)), second);
}

/// A request to stop, and a teardown, leave the sink empty.
pub proof fn lemma_stop_silences<F>(queued: Seq<Tone<F>>)
    ensures
        sink_after(queued, stop_commands::<F>(true)) == Seq::<Tone<F>>::empty(),
        sink_after(queued, cleanup_commands::<F>(true)) == Seq::<Tone<F>>::empty(),
{
    let stop = stop_commands::<F>(true);
    assert(stop.drop_last() =~= Seq::<SinkCommand<F>>::empty());
    let cleanup = cleanup_commands::<F>(true);
    assert(cleanup.drop_last() =~= seq![SinkCommand::<F>::Clear, SinkCommand::<F>::Release]);
    assert(cleanup.drop_last().drop_last() =~= seq![SinkCommand::<F>::Clear]);
    assert(cleanup.drop_last().drop_last().drop_last() =~= Seq::<SinkCommand<F>>::empty());
    reveal_with_fuel(sink_after, 4);
}

/// Without a device no operation asks anything of the sink.
pub proof fn lemma_silent_without_device<F>(queued: Seq<Tone<F>>, frequency: F)
    ensures
        play_commands(false, frequency).len() == 0,
        stop_commands::<F>(false).len() == 0,
        cleanup_commands::<F>(false).len() == 0,
        sink_after(queued, play_commands(false, frequency)) == queued,
{
}

} // verus!
