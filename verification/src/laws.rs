//! Properties of the player that span more than one handler call, stated
//! over the handlers' transition relations and proved once and for all.

use vstd::prelude::*;
use crate::player::{Command, UpdateContext, VideoPlayerMessage, VideoPlayerPage};

verus! {

/// The queue is immutable once the session is built: whatever message an
/// update handles, the videos and their order come out exactly as they went
/// in; only the current index, the decode attempt and the playback state
/// move.
pub proof fn lemma_update_never_changes_queue(
    pre: VideoPlayerPage,
    post: VideoPlayerPage,
    msg: VideoPlayerMessage,
    ctx: UpdateContext,
    c: Command,
)
    requires
        pre.wf(),
        VideoPlayerPage::update_rel(pre, post, msg, ctx, c),
    ensures
        post.videos == pre.videos,
{
}

/// Requesting a load of any valid `index` and then completing it with a
/// resolved source and an opened decoder leaves the session with a live
/// decoder and `video_index` moved to `index`, whatever the session did
/// before and whatever the skip policy says.
pub proof fn lemma_load_then_complete_plays(
    pre: VideoPlayerPage,
    mid: VideoPlayerPage,
    post: VideoPlayerPage,
    index: usize,
    live: bool,
    duration: u64,
    c1: Command,
    c2: Command,
)
    requires
        pre.wf(),
        index < pre.videos@.len(),
        VideoPlayerPage::load_video_rel(pre, mid, index, c1),
        VideoPlayerPage::load_ok_rel(mid, post, index, live, duration, c2),
    ensures
        post.has_live_decoder(),
        post.video_index == index,
        post.videos == pre.videos,
        post.decoder().duration == duration,
        post.decoder().live == live,
        !post.decoder().paused,
        post.decoder().volume == pre.video_volume,
{
}

/// A seek gesture, begun with `Seek(position)` and ended with `SeekRelease`,
/// orders the decoder to exactly `position` and leaves its paused flag as it
/// was before the gesture began.
pub proof fn lemma_seek_then_release_restores_pause(
    pre: VideoPlayerPage,
    mid: VideoPlayerPage,
    post: VideoPlayerPage,
    position: u64,
    c: Command,
)
    requires
        pre.wf(),
        pre.has_live_decoder(),
        !pre.seeking,
        VideoPlayerPage::seek_rel(pre, mid, position),
        VideoPlayerPage::seek_release_rel(mid, post, c),
    ensures
        c.seek_to == Some(position),
        post.has_live_decoder(),
        post.decoder().paused == pre.decoder().paused,
        !post.seeking,
        post.video_position == position,
{
}

/// Once the countdown is cancelled, a straggling tick does nothing: no
/// `NextVideo` is sent and no later tick is scheduled, so a cancelled
/// countdown can never advance the queue.
pub proof fn lemma_cancel_silences_countdown(
    pre: VideoPlayerPage,
    mid: VideoPlayerPage,
    post: VideoPlayerPage,
    remaining: u8,
    target: usize,
    c: Command,
)
    requires
        pre.wf(),
        VideoPlayerPage::cancel_rel(pre, mid),
        VideoPlayerPage::skip_tick_rel(mid, post, remaining, target, c),
    ensures
        c.task is Idle,
        post.pending_skip is None,
        post.video_index == pre.video_index,
        post.current_video == pre.current_video,
{
}

} // verus!
