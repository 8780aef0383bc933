//! The playback-queue state machine behind the video player page.
//!
//! The page owns an immutable queue of videos and drives one of them at a
//! time through resolve, decode and play. Everything the machine decides is
//! here and verified; the shell around it performs the outside work: it
//! resolves identifiers to stream URLs, opens the real decoder, sleeps for
//! timer ticks, and mirrors the model decoder's state onto the live one.
//! Each handler consumes one input event, mutates the session, and returns a
//! [`Command`] telling the shell what to do next.

use vstd::prelude::*;
use rand::seq::SliceRandom;
use crate::error::PomeloError;

verus! {

/// Ticks of the auto-skip countdown, one per second.
pub const SKIP_TIMER_START: u8 = 5;

/// Volume is measured in thousandths of full volume.
pub const VOLUME_FULL: u32 = 1000;

/// Volume a fresh session starts at: half of full.
pub const VOLUME_DEFAULT: u32 = 500;

/// One video of the queue: a local file URL or a remote video id, with a flag
/// saying which.
#[derive(Debug, Clone, PartialEq, Eq)]
pub struct QueueEntry {
    pub id: String,
    pub is_local: bool,
}

/// The order a freshly built queue plays in.
#[derive(Debug, Clone, PartialEq, Eq)]
pub enum VideoOrder {
    /// Keep the supplied order and start at the given index.
    Sequential(usize),
    /// Reverse the supplied order and start at the front.
    Reversed,
    /// Permute the supplied order at random and start at the front.
    Shuffled,
}

/// Model of the live decoder: the fields of the real decoder that the state
/// machine reads and writes. The shell keeps the real decoder in step with
/// this model after every handler call.
#[derive(Debug, Clone, Copy, PartialEq, Eq)]
pub struct Decoder {
    /// Total length of the stream, in milliseconds.
    pub duration: u64,
    /// Whether the stream is a live broadcast.
    pub live: bool,
    /// The decoder's own paused flag.
    pub paused: bool,
    /// The decoder's volume, in thousandths of full volume.
    pub volume: u32,
}

/// A running auto-skip countdown.
#[derive(Debug, Clone, Copy, PartialEq, Eq)]
pub struct SkipState {
    /// Seconds left before the skip fires.
    pub remaining: u8,
    /// The queue index the skip will move to.
    pub target: usize,
}

/// What came of the shell's attempt to open the real decoder for a resolved
/// source.
#[derive(Debug, Clone, PartialEq, Eq)]
pub enum DecoderOpen {
    /// No open was attempted; only valid when the resolve itself failed.
    NotAttempted,
    /// The decoder opened; it reports the stream's duration in milliseconds.
    Opened { duration: u64 },
    /// The decoder rejected the source.
    Failed { error: PomeloError },
}

/// One input event of the player page.
#[derive(Debug, PartialEq, Eq)]
pub enum VideoPlayerMessage {
    /// Begin loading the video at the given queue index.
    LoadVideo(usize),
    /// The resolve for the given index finished with a stream URL and a
    /// liveness flag, or failed.
    LoadComplete(usize, Result<(String, bool), PomeloError>),
    /// Move playback to the given queue index, if the move is a legal step.
    NextVideo(usize),
    /// Flip between playing and paused.
    PlayToggle,
    /// Set the volume, in thousandths of full volume.
    VolumeUpdate(u32),
    /// A frame was rendered; carries the decoder's position in milliseconds.
    NextFrame(u64),
    /// The playback slider moved to the given position in milliseconds.
    Seek(u64),
    /// The playback slider was released.
    SeekRelease,
    /// One tick of the auto-skip countdown toward the given target index.
    SkipTimer(u8, usize),
    /// The user asked to leave the page.
    Back,
}

/// Follow-up work a handler hands back to the shell.
#[derive(Debug, PartialEq, Eq)]
pub enum PlayerTask {
    /// Nothing to do.
    Idle,
    /// Resolve the queue entry at the given index to a playable source, then
    /// deliver `LoadComplete` for it.
    Resolve { index: usize },
    /// Deliver this message on the next scheduling turn.
    Message(VideoPlayerMessage),
    /// Wait one second, then deliver `SkipTimer(remaining, target)`.
    DelayedTick { remaining: u8, target: usize },
}

/// Where the navigation shell should go after a handler ran.
#[derive(Debug, Clone, PartialEq, Eq)]
pub enum Navigation {
    StayOnPage,
    GoBack,
}

/// Everything a handler asks of the shell: a follow-up task, a navigation
/// directive, and possibly a seek order for the real decoder.
#[derive(Debug, PartialEq, Eq)]
pub struct Command {
    pub task: PlayerTask,
    pub navigation: Navigation,
    /// Position, in milliseconds, the real decoder must seek to.
    pub seek_to: Option<u64>,
}

impl Command {
    /// True of a command that asks nothing of the shell.
    pub open spec fn is_quiet(self) -> bool {
        &&& self.task is Idle
        &&& self.navigation is StayOnPage
        &&& self.seek_to is None
    }

    /// A command that asks nothing of the shell.
    fn quiet() -> (c: Self)
        ensures
            c.is_quiet(),
    {
        Command { task: PlayerTask::Idle, navigation: Navigation::StayOnPage, seek_to: None }
    }
}

/// Relies on rand's `SliceRandom::shuffle` (Fisher-Yates, driven by
/// `rand::thread_rng`): it permutes the slice in place by swaps, so the
/// entries afterwards are exactly the entries before, rearranged.
#[verifier::external_body]
fn shuffle_queue(videos: &mut Vec<QueueEntry>)
    ensures
        final(videos)@.len() == old(videos)@.len(),
        final(videos)@.to_multiset() == old(videos)@.to_multiset(),
{
    videos.as_mut_slice().shuffle(&mut rand::thread_rng());
}

/// The video player page: plays a queue of videos, local or remote, one at a
/// time.
#[derive(Debug)]
pub struct VideoPlayerPage {
    /// The queue. Fixed in length and order once built; only the index moves.
    pub videos: Vec<QueueEntry>,
    /// Index of the video the page currently shows. Always in range.
    pub video_index: usize,
    /// The current decode attempt: nothing yet, a live decoder, or a failure.
    pub current_video: Option<Result<Decoder, PomeloError>>,
    /// The last explicit play/pause intent, used to restore the decoder's
    /// paused flag after a seek gesture.
    pub video_paused: bool,
    /// The playhead shown to the user, in milliseconds.
    pub video_position: u64,
    /// The session volume, in thousandths of full volume. Survives moving to
    /// the next video.
    pub video_volume: u32,
    /// True between a `Seek` and the matching `SeekRelease`.
    pub seeking: bool,
    /// The auto-skip countdown, while one is running.
    pub pending_skip: Option<SkipState>,
}

impl VideoPlayerPage {
    /// The session invariant: the queue is non-empty, the index and any skip
    /// target stay inside it, and the volume stays in range.
    pub open spec fn wf(self) -> bool {
        &&& self.videos@.len() >= 1
        &&& self.video_index < self.videos@.len()
        &&& self.video_volume <= VOLUME_FULL
        &&& (self.pending_skip matches Some(sk) ==> sk.target < self.videos@.len())
    }

    /// True while a decoder is open and playable.
    pub open spec fn has_live_decoder(self) -> bool {
        self.current_video matches Some(Ok(_))
    }

    /// The model decoder, while one is live.
    pub open spec fn decoder(self) -> Decoder
        recommends
            self.has_live_decoder(),
    {
        match self.current_video {
            Some(Ok(d)) => d,
            _ => arbitrary(),
        }
    }

    /// Builds a session over `videos`, arranged as `order` says.
    pub fn new(videos: Vec<QueueEntry>, order: VideoOrder) -> (s: Self)
        requires
            videos@.len() >= 1,
            order matches VideoOrder::Sequential(i) ==> i < videos@.len(),
        ensures
            s.wf(),
            s.videos@.len() == videos@.len(),
            match order {
                VideoOrder::Sequential(i) => s.videos@ == videos@ && s.video_index == i,
                VideoOrder::Reversed => s.videos@ == videos@.reverse() && s.video_index == 0,
                VideoOrder::Shuffled => s.videos@.to_multiset() == videos@.to_multiset()
                    && s.video_index == 0,
            },
            s.current_video is None,
            !s.video_paused,
            s.video_position == 0,
            s.video_volume == VOLUME_DEFAULT,
            !s.seeking,
            s.pending_skip is None,
    {
        let mut videos = videos;
        let video_index: usize = match &order {
            VideoOrder::Sequential(i) => *i,
            VideoOrder::Reversed => {
                videos = reverse_queue(videos);
                0
            },
            VideoOrder::Shuffled => {
                shuffle_queue(&mut videos);
                0
            },
        };

        VideoPlayerPage {
            videos,
            video_index,
            current_video: None,
            video_paused: false,
            video_position: 0,
            video_volume: VOLUME_DEFAULT,
            seeking: false,
            pending_skip: None,
        }
    }
}

impl VideoPlayerPage {
    /// What `load_video` does: it clears the current decode attempt and asks
    /// the shell to resolve the entry at `index`; nothing else moves.
    pub open spec fn load_video_rel(pre: Self, post: Self, index: usize, c: Command) -> bool {
        &&& post.videos == pre.videos
        &&& post.video_index == pre.video_index
        &&& post.current_video is None
        &&& post.video_paused == pre.video_paused
        &&& post.video_position == pre.video_position
        &&& post.video_volume == pre.video_volume
        &&& post.seeking == pre.seeking
        &&& post.pending_skip == pre.pending_skip
        &&& c.task == (PlayerTask::Resolve { index })
        &&& c.navigation is StayOnPage
        &&& c.seek_to is None
    }

    /// Begins loading the video at `index`: the current decode attempt is
    /// dropped and the shell is asked to resolve the entry. The index does
    /// not move yet; it moves when the load completes.
    pub fn load_video(&mut self, index: usize) -> (c: Command)
        requires
            old(self).wf(),
            index < old(self).videos@.len(),
        ensures
            final(self).wf(),
            Self::load_video_rel(*old(self), *final(self), index, c),
    {
        self.current_video = None;
        Command {
            task: PlayerTask::Resolve { index },
            navigation: Navigation::StayOnPage,
            seek_to: None,
        }
    }

    /// Auto-skip runs only when the policy allows it and the failed entry is
    /// neither the first nor the last of the queue, so a failure at the edges
    /// can never bounce the session off the end.
    pub open spec fn skip_eligible(pre: Self, index: usize, skip_on_error: bool) -> bool {
        &&& skip_on_error
        &&& index != 0
        &&& index != pre.videos@.len() - 1
    }

    /// The index the auto-skip moves to: one step onward in the direction of
    /// travel. Moving forward (or loading in place) skips ahead; moving
    /// backward skips further back.
    pub open spec fn skip_target(pre: Self, index: usize) -> int {
        if pre.video_index <= index {
            index + 1
        } else {
            index - 1
        }
    }

    /// What a successful load does: the model decoder comes up unpaused at
    /// the session volume, the index moves to the loaded entry, and the shell
    /// is told to kick the decoder with a seek to the start.
    pub open spec fn load_ok_rel(
        pre: Self,
        post: Self,
        index: usize,
        live: bool,
        duration: u64,
        c: Command,
    ) -> bool {
        &&& post.videos == pre.videos
        &&& post.video_index == index
        &&& post.current_video == Some(Ok::<Decoder, PomeloError>(Decoder {
            duration,
            live,
            paused: false,
            volume: pre.video_volume,
        }))
        &&& post.video_paused == pre.video_paused
        &&& post.video_position == pre.video_position
        &&& post.video_volume == pre.video_volume
        &&& post.seeking == pre.seeking
        &&& post.pending_skip == pre.pending_skip
        &&& c.task is Idle
        &&& c.navigation is StayOnPage
        &&& c.seek_to == Some(0u64)
    }

    /// What a failed load does: the failure is displayed, the index moves to
    /// the failed entry, and, when the entry is eligible, an auto-skip
    /// countdown starts toward the next index in the direction of travel.
    pub open spec fn load_failed_rel(
        pre: Self,
        post: Self,
        index: usize,
        err: PomeloError,
        skip_on_error: bool,
        c: Command,
    ) -> bool {
        &&& post.videos == pre.videos
        &&& post.video_index == index
        &&& post.current_video == Some(Err::<Decoder, PomeloError>(err))
        &&& post.video_paused == pre.video_paused
        &&& post.video_position == pre.video_position
        &&& post.video_volume == pre.video_volume
        &&& post.seeking == pre.seeking
        &&& if Self::skip_eligible(pre, index, skip_on_error) {
            &&& post.pending_skip matches Some(sk)
            &&& sk.remaining == SKIP_TIMER_START
            &&& sk.target == Self::skip_target(pre, index)
            &&& c.task == PlayerTask::Message(
                VideoPlayerMessage::SkipTimer(SKIP_TIMER_START, sk.target),
            )
        } else {
            &&& post.pending_skip == pre.pending_skip
            &&& c.task is Idle
        }
        &&& c.navigation is StayOnPage
        &&& c.seek_to is None
    }

    /// The error branch shared by a failed resolve and a rejected decoder
    /// open.
    fn fail_load(&mut self, index: usize, error: PomeloError, skip_on_error: bool) -> (c: Command)
        requires
            old(self).wf(),
            index < old(self).videos@.len(),
        ensures
            final(self).wf(),
            Self::load_failed_rel(*old(self), *final(self), index, error, skip_on_error, c),
    {
        let eligible = skip_on_error && !(index == 0 || index == self.videos.len() - 1);

        let task = if eligible {
            let target = if self.video_index <= index {
                index + 1
            } else {
                index - 1
            };
            self.pending_skip = Some(SkipState { remaining: SKIP_TIMER_START, target });
            PlayerTask::Message(VideoPlayerMessage::SkipTimer(SKIP_TIMER_START, target))
        } else {
            PlayerTask::Idle
        };

        self.video_index = index;
        self.current_video = Some(Err(error));

        Command { task, navigation: Navigation::StayOnPage, seek_to: None }
    }

    /// Finishes a load: `result` is what the resolve came back with, and
    /// `open`, when the resolve succeeded, is what came of opening the real
    /// decoder for the resolved source.
    ///
    /// On success the decoder model comes up unpaused at the session volume,
    /// and the command orders the decoder seek to position zero that this
    /// class of decoders needs before autoplay works. A resolve failure and a
    /// rejected open land in the same error branch; there, when skip-on-error
    /// is enabled and the entry is interior, the auto-skip countdown starts.
    pub fn on_load_complete(
        &mut self,
        index: usize,
        result: Result<(String, bool), PomeloError>,
        open: DecoderOpen,
        skip_on_error: bool,
    ) -> (c: Command)
        requires
            old(self).wf(),
            index < old(self).videos@.len(),
            result is Ok ==> !(open is NotAttempted),
        ensures
            final(self).wf(),
            match result {
                Ok(source) => match open {
                    DecoderOpen::NotAttempted => false,
                    DecoderOpen::Opened { duration } => Self::load_ok_rel(
                        *old(self),
                        *final(self),
                        index,
                        source.1,
                        duration,
                        c,
                    ),
                    DecoderOpen::Failed { error } => Self::load_failed_rel(
                        *old(self),
                        *final(self),
                        index,
                        error,
                        skip_on_error,
                        c,
                    ),
                },
                Err(e) => Self::load_failed_rel(
                    *old(self),
                    *final(self),
                    index,
                    e,
                    skip_on_error,
                    c,
                ),
            },
    {
        match result {
            Ok((_url, live)) => match open {
                DecoderOpen::NotAttempted => {
                    proof {
                        assert(false);
                    }
                    Command::quiet()
                },
                DecoderOpen::Opened { duration } => {
                    self.video_index = index;
                    self.current_video = Some(Ok(Decoder {
                        duration,
                        live,
                        paused: false,
                        volume: self.video_volume,
                    }));
                    Command {
                        task: PlayerTask::Idle,
                        navigation: Navigation::StayOnPage,
                        seek_to: Some(0),
                    }
                },
                DecoderOpen::Failed { error } => self.fail_load(index, error, skip_on_error),
            },
            Err(e) => self.fail_load(index, e, skip_on_error),
        }
    }
}

impl VideoPlayerPage {
    /// A move to `index` is legal when it steps forward without running off
    /// the end, or backward without trying to leave the front. In particular
    /// staying in place is refused, as is any move out of range.
    pub open spec fn next_video_allowed(pre: Self, index: usize) -> bool {
        ||| (index > pre.video_index && index < pre.videos@.len())
        ||| (index < pre.video_index && index > 0)
    }

    /// What `next_video` does: any countdown dies; a legal move drops the
    /// current decode attempt and sends `LoadVideo`, an illegal one changes
    /// nothing else.
    pub open spec fn next_video_rel(pre: Self, post: Self, index: usize, c: Command) -> bool {
        &&& post.videos == pre.videos
        &&& post.video_index == pre.video_index
        &&& post.video_paused == pre.video_paused
        &&& post.video_position == pre.video_position
        &&& post.video_volume == pre.video_volume
        &&& post.seeking == pre.seeking
        &&& post.pending_skip is None
        &&& if Self::next_video_allowed(pre, index) {
            &&& post.current_video is None
            &&& c.task == PlayerTask::Message(VideoPlayerMessage::LoadVideo(index))
        } else {
            &&& post.current_video == pre.current_video
            &&& c.task is Idle
        }
        &&& c.navigation is StayOnPage
        &&& c.seek_to is None
    }

    /// Moves playback to `index`. Any running auto-skip countdown is
    /// cancelled first, whether or not the move itself is legal.
    pub fn next_video(&mut self, index: usize) -> (c: Command)
        requires
            old(self).wf(),
        ensures
            final(self).wf(),
            Self::next_video_rel(*old(self), *final(self), index, c),
    {
        self.cancel_skip_timer();

        if (index > self.video_index && index < self.videos.len())
            || (index < self.video_index && index > 0) {
            self.current_video = None;
            Command {
                task: PlayerTask::Message(VideoPlayerMessage::LoadVideo(index)),
                navigation: Navigation::StayOnPage,
                seek_to: None,
            }
        } else {
            Command::quiet()
        }
    }

    /// What `cancel_skip_timer` does: the countdown dies, nothing else moves.
    pub open spec fn cancel_rel(pre: Self, post: Self) -> bool {
        &&& post.videos == pre.videos
        &&& post.video_index == pre.video_index
        &&& post.current_video == pre.current_video
        &&& post.video_paused == pre.video_paused
        &&& post.video_position == pre.video_position
        &&& post.video_volume == pre.video_volume
        &&& post.seeking == pre.seeking
        &&& post.pending_skip is None
    }

    /// Cancels the auto-skip countdown. Once cancelled, a straggling
    /// `SkipTimer` tick is ignored, so the countdown can never fire a
    /// `NextVideo` afterwards.
    pub fn cancel_skip_timer(&mut self)
        requires
            old(self).wf(),
        ensures
            final(self).wf(),
            Self::cancel_rel(*old(self), *final(self)),
    {
        self.pending_skip = None;
    }

    /// What one countdown tick does. A tick arriving after the countdown was
    /// cancelled is ignored. Otherwise the display moves to `remaining`; at
    /// zero the countdown ends and `NextVideo(target)` is sent, above zero
    /// the shell is told to deliver the next tick after a second.
    pub open spec fn skip_tick_rel(
        pre: Self,
        post: Self,
        remaining: u8,
        target: usize,
        c: Command,
    ) -> bool {
        &&& post.videos == pre.videos
        &&& post.video_index == pre.video_index
        &&& post.current_video == pre.current_video
        &&& post.video_paused == pre.video_paused
        &&& post.video_position == pre.video_position
        &&& post.video_volume == pre.video_volume
        &&& post.seeking == pre.seeking
        &&& if pre.pending_skip is Some {
            if remaining == 0 {
                &&& post.pending_skip is None
                &&& c.task == PlayerTask::Message(VideoPlayerMessage::NextVideo(target))
            } else {
                &&& post.pending_skip == Some(SkipState { remaining, target })
                &&& c.task == (PlayerTask::DelayedTick {
                    remaining: (remaining - 1) as u8,
                    target,
                })
            }
        } else {
            &&& post.pending_skip is None
            &&& c.task is Idle
        }
        &&& c.navigation is StayOnPage
        &&& c.seek_to is None
    }

    /// Handles one tick of the auto-skip countdown.
    pub fn skip_timer_update(&mut self, remaining: u8, target: usize) -> (c: Command)
        requires
            old(self).wf(),
            target < old(self).videos@.len(),
        ensures
            final(self).wf(),
            Self::skip_tick_rel(*old(self), *final(self), remaining, target, c),
    {
        if self.pending_skip.is_none() {
            // The countdown was cancelled while this tick was in flight.
            return Command::quiet();
        }

        if remaining == 0 {
            self.pending_skip = None;
            Command {
                task: PlayerTask::Message(VideoPlayerMessage::NextVideo(target)),
                navigation: Navigation::StayOnPage,
                seek_to: None,
            }
        } else {
            self.pending_skip = Some(SkipState { remaining, target });
            Command {
                task: PlayerTask::DelayedTick { remaining: remaining - 1, target },
                navigation: Navigation::StayOnPage,
                seek_to: None,
            }
        }
    }

    /// The model decoder, copied out while one is live.
    fn live_decoder(&self) -> (d: Option<Decoder>)
        ensures
            d == if self.has_live_decoder() {
                Some(self.decoder())
            } else {
                None::<Decoder>
            },
    {
        match &self.current_video {
            Some(Ok(d)) => Some(*d),
            _ => None,
        }
    }

    /// What `toggle_playback` does: with a live decoder its paused flag
    /// flips, and the session remembers the new flag as the user's intent;
    /// without one, nothing.
    pub open spec fn toggle_rel(pre: Self, post: Self) -> bool {
        if pre.has_live_decoder() {
            &&& post.videos == pre.videos
            &&& post.video_index == pre.video_index
            &&& post.current_video == Some(Ok::<Decoder, PomeloError>(Decoder {
                paused: !pre.decoder().paused,
                ..pre.decoder()
            }))
            &&& post.video_paused == !pre.decoder().paused
            &&& post.video_position == pre.video_position
            &&& post.video_volume == pre.video_volume
            &&& post.seeking == pre.seeking
            &&& post.pending_skip == pre.pending_skip
        } else {
            post == pre
        }
    }

    /// Pauses the video if it is playing, plays it if it is paused.
    pub fn toggle_playback(&mut self)
        requires
            old(self).wf(),
        ensures
            final(self).wf(),
            Self::toggle_rel(*old(self), *final(self)),
    {
        if let Some(d) = self.live_decoder() {
            let updated = Decoder { paused: !d.paused, ..d };
            self.current_video = Some(Ok(updated));
            self.video_paused = updated.paused;
        }
    }

    /// What `set_volume` does: with a live decoder both the session and the
    /// decoder take the new volume; without one, nothing.
    pub open spec fn set_volume_rel(pre: Self, post: Self, volume: u32) -> bool {
        if pre.has_live_decoder() {
            &&& post.videos == pre.videos
            &&& post.video_index == pre.video_index
            &&& post.current_video == Some(Ok::<Decoder, PomeloError>(Decoder {
                volume,
                ..pre.decoder()
            }))
            &&& post.video_paused == pre.video_paused
            &&& post.video_position == pre.video_position
            &&& post.video_volume == volume
            &&& post.seeking == pre.seeking
            &&& post.pending_skip == pre.pending_skip
        } else {
            post == pre
        }
    }

    /// Sets the volume, in thousandths of full volume.
    pub fn set_volume(&mut self, volume: u32)
        requires
            old(self).wf(),
            volume <= VOLUME_FULL,
        ensures
            final(self).wf(),
            Self::set_volume_rel(*old(self), *final(self), volume),
    {
        if let Some(d) = self.live_decoder() {
            self.video_volume = volume;
            self.current_video = Some(Ok(Decoder { volume, ..d }));
        }
    }

    /// What `seek` does: with a live decoder the displayed playhead follows
    /// the slider; the first seek of a gesture also records the decoder's
    /// paused flag as the user's intent and force-pauses the decoder.
    /// Without a live decoder, nothing.
    pub open spec fn seek_rel(pre: Self, post: Self, position: u64) -> bool {
        if pre.has_live_decoder() {
            &&& post.videos == pre.videos
            &&& post.video_index == pre.video_index
            &&& post.video_position == position
            &&& post.video_volume == pre.video_volume
            &&& post.pending_skip == pre.pending_skip
            &&& if !pre.seeking {
                &&& post.seeking
                &&& post.video_paused == pre.decoder().paused
                &&& post.current_video == Some(Ok::<Decoder, PomeloError>(Decoder {
                    paused: true,
                    ..pre.decoder()
                }))
            } else {
                &&& post.seeking
                &&& post.video_paused == pre.video_paused
                &&& post.current_video == pre.current_video
            }
        } else {
            post == pre
        }
    }

    /// Tracks the slider during a seek gesture and keeps the video paused
    /// while it lasts.
    pub fn seek(&mut self, position: u64)
        requires
            old(self).wf(),
            old(self).has_live_decoder() ==> position <= old(self).decoder().duration,
        ensures
            final(self).wf(),
            Self::seek_rel(*old(self), *final(self), position),
    {
        if let Some(d) = self.live_decoder() {
            if !self.seeking {
                self.seeking = true;
                self.video_paused = d.paused;
                self.current_video = Some(Ok(Decoder { paused: true, ..d }));
            }
            self.video_position = position;
        }
    }

    /// What `on_seek_release` does: with a live decoder the gesture ends, the
    /// decoder is ordered to seek to the displayed playhead, and its paused
    /// flag goes back to the recorded intent. Without one, nothing.
    pub open spec fn seek_release_rel(pre: Self, post: Self, c: Command) -> bool {
        &&& if pre.has_live_decoder() {
            &&& post.videos == pre.videos
            &&& post.video_index == pre.video_index
            &&& post.current_video == Some(Ok::<Decoder, PomeloError>(Decoder {
                paused: pre.video_paused,
                ..pre.decoder()
            }))
            &&& post.video_paused == pre.video_paused
            &&& post.video_position == pre.video_position
            &&& post.video_volume == pre.video_volume
            &&& !post.seeking
            &&& post.pending_skip == pre.pending_skip
            &&& c.seek_to == Some(pre.video_position)
        } else {
            &&& post == pre
            &&& c.seek_to is None
        }
        &&& c.task is Idle
        &&& c.navigation is StayOnPage
    }

    /// Ends a seek gesture: seeks the decoder to the displayed playhead and
    /// restores the recorded play/pause intent.
    pub fn on_seek_release(&mut self) -> (c: Command)
        requires
            old(self).wf(),
        ensures
            final(self).wf(),
            Self::seek_release_rel(*old(self), *final(self), c),
    {
        if let Some(d) = self.live_decoder() {
            self.seeking = false;
            self.current_video = Some(Ok(Decoder { paused: self.video_paused, ..d }));
            Command {
                task: PlayerTask::Idle,
                navigation: Navigation::StayOnPage,
                seek_to: Some(self.video_position),
            }
        } else {
            Command::quiet()
        }
    }

    /// What `on_next_frame` does: outside a seek gesture the displayed
    /// playhead follows the decoder's reported position; during one, or
    /// without a live decoder, nothing.
    pub open spec fn next_frame_rel(pre: Self, post: Self, position: u64) -> bool {
        if pre.has_live_decoder() && !pre.seeking {
            &&& post.videos == pre.videos
            &&& post.video_index == pre.video_index
            &&& post.current_video == pre.current_video
            &&& post.video_paused == pre.video_paused
            &&& post.video_position == position
            &&& post.video_volume == pre.video_volume
            &&& post.seeking == pre.seeking
            &&& post.pending_skip == pre.pending_skip
        } else {
            post == pre
        }
    }

    /// Tracks the decoder's position, reported by the shell once per rendered
    /// frame, while no seek gesture is in progress.
    pub fn on_next_frame(&mut self, position: u64)
        requires
            old(self).wf(),
        ensures
            final(self).wf(),
            Self::next_frame_rel(*old(self), *final(self), position),
    {
        if self.live_decoder().is_some() {
            if !self.seeking {
                self.video_position = position;
            }
        }
    }

    /// True while a decoder is live and not paused.
    pub fn is_video_playing(&self) -> (r: bool)
        ensures
            r == (self.has_live_decoder() && !self.decoder().paused),
    {
        match self.live_decoder() {
            Some(d) => !d.paused,
            _ => false,
        }
    }

    /// The queue entry at `index`.
    pub fn entry(&self, index: usize) -> (e: &QueueEntry)
        requires
            index < self.videos@.len(),
        ensures
            *e == self.videos@[index as int],
    {
        &self.videos[index]
    }
}

/// What the shell knows that a handler may need: the skip-on-error policy
/// read from the settings, and, for a `LoadComplete` whose resolve succeeded,
/// what came of opening the real decoder.
#[derive(Debug, PartialEq, Eq)]
pub struct UpdateContext {
    pub skip_on_error: bool,
    pub open: DecoderOpen,
}

impl VideoPlayerPage {
    /// What leaving the page does: any countdown dies so it cannot fire into
    /// a dead session, and the shell is told to go back.
    pub open spec fn back_rel(pre: Self, post: Self, c: Command) -> bool {
        &&& Self::cancel_rel(pre, post)
        &&& c.task is Idle
        &&& c.navigation is GoBack
        &&& c.seek_to is None
    }

    /// What each handler relies on of its message's payload. The shell
    /// checks these before dispatching; messages the machine sends itself
    /// respect them by construction.
    pub open spec fn update_requires(self, msg: VideoPlayerMessage, ctx: UpdateContext) -> bool {
        match msg {
            VideoPlayerMessage::LoadVideo(index) => index < self.videos@.len(),
            VideoPlayerMessage::LoadComplete(index, result) => {
                &&& index < self.videos@.len()
                &&& (result is Ok ==> !(ctx.open is NotAttempted))
            },
            VideoPlayerMessage::VolumeUpdate(volume) => volume <= VOLUME_FULL,
            VideoPlayerMessage::Seek(position) => self.has_live_decoder()
                ==> position <= self.decoder().duration,
            VideoPlayerMessage::SkipTimer(_remaining, target) => target < self.videos@.len(),
            _ => true,
        }
    }

    /// What one `update` call does: the relation of the handler the message
    /// selects.
    pub open spec fn update_rel(
        pre: Self,
        post: Self,
        msg: VideoPlayerMessage,
        ctx: UpdateContext,
        c: Command,
    ) -> bool {
        match msg {
            VideoPlayerMessage::LoadVideo(index) => Self::load_video_rel(pre, post, index, c),
            VideoPlayerMessage::LoadComplete(index, result) => match result {
                Ok(source) => match ctx.open {
                    DecoderOpen::NotAttempted => false,
                    DecoderOpen::Opened { duration } => Self::load_ok_rel(
                        pre,
                        post,
                        index,
                        source.1,
                        duration,
                        c,
                    ),
                    DecoderOpen::Failed { error } => Self::load_failed_rel(
                        pre,
                        post,
                        index,
                        error,
                        ctx.skip_on_error,
                        c,
                    ),
                },
                Err(e) => Self::load_failed_rel(pre, post, index, e, ctx.skip_on_error, c),
            },
            VideoPlayerMessage::NextVideo(index) => Self::next_video_rel(pre, post, index, c),
            VideoPlayerMessage::PlayToggle => Self::toggle_rel(pre, post) && c.is_quiet(),
            VideoPlayerMessage::VolumeUpdate(volume) => Self::set_volume_rel(pre, post, volume)
                && c.is_quiet(),
            VideoPlayerMessage::NextFrame(position) => Self::next_frame_rel(pre, post, position)
                && c.is_quiet(),
            VideoPlayerMessage::Seek(position) => Self::seek_rel(pre, post, position)
                && c.is_quiet(),
            VideoPlayerMessage::SeekRelease => Self::seek_release_rel(pre, post, c),
            VideoPlayerMessage::SkipTimer(remaining, target) => Self::skip_tick_rel(
                pre,
                post,
                remaining,
                target,
                c,
            ),
            VideoPlayerMessage::Back => Self::back_rel(pre, post, c),
        }
    }

    /// Dispatches one input event to its handler.
    pub fn update(&mut self, msg: VideoPlayerMessage, ctx: UpdateContext) -> (c: Command)
        requires
            old(self).wf(),
            old(self).update_requires(msg, ctx),
        ensures
            final(self).wf(),
            Self::update_rel(*old(self), *final(self), msg, ctx, c),
    {
        match msg {
            VideoPlayerMessage::LoadVideo(index) => self.load_video(index),
            VideoPlayerMessage::LoadComplete(index, result) => self.on_load_complete(
                index,
                result,
                ctx.open,
                ctx.skip_on_error,
            ),
            VideoPlayerMessage::NextVideo(index) => self.next_video(index),
            VideoPlayerMessage::PlayToggle => {
                self.toggle_playback();
                Command::quiet()
            },
            VideoPlayerMessage::VolumeUpdate(volume) => {
                self.set_volume(volume);
                Command::quiet()
            },
            VideoPlayerMessage::NextFrame(position) => {
                self.on_next_frame(position);
                Command::quiet()
            },
            VideoPlayerMessage::Seek(position) => {
                self.seek(position);
                Command::quiet()
            },
            VideoPlayerMessage::SeekRelease => self.on_seek_release(),
            VideoPlayerMessage::SkipTimer(remaining, target) => self.skip_timer_update(
                remaining,
                target,
            ),
            VideoPlayerMessage::Back => {
                self.cancel_skip_timer();
                Command { task: PlayerTask::Idle, navigation: Navigation::GoBack, seek_to: None }
            },
        }
    }
}

/// Returns the queue in reverse order.
fn reverse_queue(videos: Vec<QueueEntry>) -> (r: Vec<QueueEntry>)
    ensures
        r@ == videos@.reverse(),
{
    let ghost orig = videos@;
    let mut videos = videos;
    let mut r: Vec<QueueEntry> = Vec::new();
    while videos.len() > 0
        invariant
            r@.len() + videos@.len() == orig.len(),
            videos@ == orig.subrange(0, videos@.len() as int),
            forall|j: int| 0 <= j < r@.len() ==> r@[j] == orig[orig.len() - 1 - j],
        decreases videos@.len(),
    {
        let e = videos.pop().unwrap();
        r.push(e);
    }
    proof {
        assert(r@ =~= orig.reverse());
    }
    r
}

} // verus!
