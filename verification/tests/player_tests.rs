use pomelo::error::PomeloError;
use pomelo::player::{
    Command, Decoder, DecoderOpen, Navigation, PlayerTask, QueueEntry, SkipState, UpdateContext,
    VideoOrder, VideoPlayerMessage, VideoPlayerPage, SKIP_TIMER_START,
};

fn queue(ids: &[&str]) -> Vec<QueueEntry> {
    ids.iter()
        .map(|id| QueueEntry { id: String::from(*id), is_local: false })
        .collect()
}

fn ids(page: &VideoPlayerPage) -> Vec<String> {
    page.videos.iter().map(|e| e.id.clone()).collect()
}

fn ok_result(url: &str) -> Result<(String, bool), PomeloError> {
    Ok((String::from(url), false))
}

fn err_result(msg: &str) -> Result<(String, bool), PomeloError> {
    Err(PomeloError::new(String::from(msg)))
}

fn opened(duration: u64) -> DecoderOpen {
    DecoderOpen::Opened { duration }
}

/// A session on three videos that has successfully loaded the entry at
/// `index`.
fn playing_session(index: usize, duration: u64) -> VideoPlayerPage {
    let mut s = VideoPlayerPage::new(queue(&["A", "B", "C"]), VideoOrder::Sequential(index));
    let c = s.load_video(index);
    assert_eq!(c.task, PlayerTask::Resolve { index });
    let c = s.on_load_complete(index, ok_result("https://x/stream"), opened(duration), false);
    assert_eq!(c.seek_to, Some(0));
    s
}

#[test]
fn test_load_then_complete_plays() {
    let mut s = VideoPlayerPage::new(queue(&["A", "B", "C"]), VideoOrder::Sequential(0));
    let c = s.load_video(1);
    assert_eq!(c.task, PlayerTask::Resolve { index: 1 });
    assert_eq!(c.navigation, Navigation::StayOnPage);
    assert!(s.current_video.is_none());

    let c = s.on_load_complete(1, ok_result("https://x/stream"), opened(100_000), false);
    assert_eq!(s.video_index, 1);
    assert_eq!(
        s.current_video,
        Some(Ok(Decoder { duration: 100_000, live: false, paused: false, volume: 500 }))
    );
    // The decoder gets the kick-start seek to zero and no follow-up task.
    assert_eq!(c.seek_to, Some(0));
    assert_eq!(c.task, PlayerTask::Idle);
    assert!(s.is_video_playing());
}

#[test]
fn test_error_without_skip_stays_errored() {
    for index in [0usize, 1, 2] {
        let mut s = VideoPlayerPage::new(queue(&["A", "B", "C"]), VideoOrder::Sequential(0));
        let c = s.on_load_complete(index, err_result("boom"), DecoderOpen::NotAttempted, false);
        assert_eq!(s.current_video, Some(Err(PomeloError::new(String::from("boom")))));
        assert_eq!(s.video_index, index);
        assert!(s.pending_skip.is_none());
        assert_eq!(c.task, PlayerTask::Idle);
    }
}

#[test]
fn test_error_at_edges_never_counts_down() {
    // First entry: even with skip-on-error enabled, no countdown.
    let mut s = VideoPlayerPage::new(queue(&["A", "B", "C"]), VideoOrder::Sequential(0));
    let c = s.on_load_complete(0, err_result("boom"), DecoderOpen::NotAttempted, true);
    assert!(s.pending_skip.is_none());
    assert_eq!(c.task, PlayerTask::Idle);

    // Last entry: the same.
    let mut s = VideoPlayerPage::new(queue(&["A", "B", "C"]), VideoOrder::Sequential(0));
    let c = s.on_load_complete(2, err_result("boom"), DecoderOpen::NotAttempted, true);
    assert!(s.pending_skip.is_none());
    assert_eq!(c.task, PlayerTask::Idle);
}

#[test]
fn test_error_moving_forward_skips_ahead() {
    // Moving forward (current index at or before the failed one): the
    // countdown targets the next entry.
    let mut s = VideoPlayerPage::new(queue(&["A", "B", "C"]), VideoOrder::Sequential(0));
    let c = s.on_load_complete(1, err_result("boom"), DecoderOpen::NotAttempted, true);
    assert_eq!(s.pending_skip, Some(SkipState { remaining: SKIP_TIMER_START, target: 2 }));
    assert_eq!(
        c.task,
        PlayerTask::Message(VideoPlayerMessage::SkipTimer(SKIP_TIMER_START, 2))
    );
}

#[test]
fn test_error_moving_backward_skips_back() {
    let mut s = playing_session(2, 50_000);
    // Failing at 1 while the session sits at 2 means we were moving backward.
    let c = s.on_load_complete(1, err_result("boom"), DecoderOpen::NotAttempted, true);
    assert_eq!(s.pending_skip, Some(SkipState { remaining: SKIP_TIMER_START, target: 0 }));
    assert_eq!(
        c.task,
        PlayerTask::Message(VideoPlayerMessage::SkipTimer(SKIP_TIMER_START, 0))
    );
}

#[test]
fn test_rejected_decoder_open_is_the_error_branch() {
    let mut s = VideoPlayerPage::new(queue(&["A", "B", "C"]), VideoOrder::Sequential(0));
    let open = DecoderOpen::Failed { error: PomeloError::new(String::from("bad codec")) };
    let c = s.on_load_complete(1, ok_result("https://x/stream"), open, true);
    assert_eq!(s.current_video, Some(Err(PomeloError::new(String::from("bad codec")))));
    assert_eq!(s.pending_skip, Some(SkipState { remaining: SKIP_TIMER_START, target: 2 }));
    assert_eq!(
        c.task,
        PlayerTask::Message(VideoPlayerMessage::SkipTimer(SKIP_TIMER_START, 2))
    );
}

#[test]
fn test_skip_timer_reschedules_then_fires() {
    let mut s = VideoPlayerPage::new(queue(&["A", "B", "C"]), VideoOrder::Sequential(0));
    s.on_load_complete(1, err_result("boom"), DecoderOpen::NotAttempted, true);

    // A tick above zero updates the display and schedules the next tick.
    let c = s.skip_timer_update(1, 2);
    assert_eq!(s.pending_skip, Some(SkipState { remaining: 1, target: 2 }));
    assert_eq!(c.task, PlayerTask::DelayedTick { remaining: 0, target: 2 });

    // The zero tick ends the countdown and moves on.
    let c = s.skip_timer_update(0, 2);
    assert!(s.pending_skip.is_none());
    assert_eq!(c.task, PlayerTask::Message(VideoPlayerMessage::NextVideo(2)));
}

#[test]
fn test_next_video_noop_on_singleton() {
    let mut s = VideoPlayerPage::new(queue(&["A"]), VideoOrder::Sequential(0));
    let c = s.next_video(0);
    assert_eq!(s.video_index, 0);
    assert_eq!(ids(&s), vec![String::from("A")]);
    assert!(s.current_video.is_none());
    assert_eq!(c.task, PlayerTask::Idle);
}

#[test]
fn test_next_video_rejects_upper_bound() {
    let mut s = VideoPlayerPage::new(queue(&["A", "B", "C"]), VideoOrder::Sequential(0));
    let c = s.next_video(3);
    assert_eq!(c.task, PlayerTask::Idle);
    assert_eq!(s.video_index, 0);
}

#[test]
fn test_next_video_refuses_index_zero() {
    // The guard admits a backward move only to an index above zero, so the
    // first entry can never be returned to once left.
    let mut s = playing_session(1, 50_000);
    let c = s.next_video(0);
    assert_eq!(c.task, PlayerTask::Idle);
    assert_eq!(s.video_index, 1);
    assert!(s.current_video.is_some());
}

#[test]
fn test_next_video_legal_step_loads() {
    let mut s = playing_session(1, 50_000);
    let c = s.next_video(2);
    assert!(s.current_video.is_none());
    assert_eq!(c.task, PlayerTask::Message(VideoPlayerMessage::LoadVideo(2)));
}

#[test]
fn test_reversed_queue_plays_last_first() {
    let s = VideoPlayerPage::new(queue(&["A", "B", "C"]), VideoOrder::Reversed);
    assert_eq!(ids(&s), vec![String::from("C"), String::from("B"), String::from("A")]);
    assert_eq!(s.video_index, 0);
}

#[test]
fn test_sequential_queue_keeps_order_and_start() {
    let s = VideoPlayerPage::new(queue(&["A", "B", "C"]), VideoOrder::Sequential(2));
    assert_eq!(ids(&s), vec![String::from("A"), String::from("B"), String::from("C")]);
    assert_eq!(s.video_index, 2);
}

#[test]
fn test_shuffled_queue_is_a_permutation() {
    let s = VideoPlayerPage::new(
        queue(&["A", "B", "C", "D", "E"]),
        VideoOrder::Shuffled,
    );
    assert_eq!(s.video_index, 0);
    let mut got = ids(&s);
    got.sort();
    assert_eq!(
        got,
        vec![
            String::from("A"),
            String::from("B"),
            String::from("C"),
            String::from("D"),
            String::from("E")
        ]
    );
}

#[test]
fn test_seek_then_release_restores_pause() {
    let mut s = playing_session(0, 100_000);
    assert!(!s.video_paused);

    s.seek(5_000);
    // The gesture force-pauses the decoder but remembers the intent to play.
    assert!(s.seeking);
    assert_eq!(s.current_video.as_ref().unwrap().as_ref().unwrap().paused, true);
    assert!(!s.video_paused);
    assert_eq!(s.video_position, 5_000);

    let c = s.on_seek_release();
    assert_eq!(c.seek_to, Some(5_000));
    assert!(!s.seeking);
    assert_eq!(s.current_video.as_ref().unwrap().as_ref().unwrap().paused, false);
}

#[test]
fn test_seek_release_while_paused_stays_paused() {
    let mut s = playing_session(0, 100_000);
    s.toggle_playback();
    assert!(s.video_paused);

    s.seek(42_000);
    let c = s.on_seek_release();
    assert_eq!(c.seek_to, Some(42_000));
    assert_eq!(s.current_video.as_ref().unwrap().as_ref().unwrap().paused, true);
}

#[test]
fn test_cancel_silences_countdown() {
    let mut s = VideoPlayerPage::new(queue(&["A", "B", "C"]), VideoOrder::Sequential(0));
    s.on_load_complete(1, err_result("boom"), DecoderOpen::NotAttempted, true);
    assert!(s.pending_skip.is_some());

    s.cancel_skip_timer();
    assert!(s.pending_skip.is_none());

    // The tick that was already in flight arrives anyway: it must do nothing.
    let c = s.skip_timer_update(0, 2);
    assert_eq!(c.task, PlayerTask::Idle);
    assert!(s.pending_skip.is_none());
    assert_eq!(s.video_index, 1);
}

#[test]
fn test_toggle_playback_flips_decoder_and_intent() {
    let mut s = playing_session(0, 100_000);
    assert!(s.is_video_playing());

    s.toggle_playback();
    assert!(!s.is_video_playing());
    assert!(s.video_paused);

    s.toggle_playback();
    assert!(s.is_video_playing());
    assert!(!s.video_paused);
}

#[test]
fn test_toggle_playback_without_decoder_is_noop() {
    let mut s = VideoPlayerPage::new(queue(&["A"]), VideoOrder::Sequential(0));
    s.toggle_playback();
    assert!(!s.video_paused);
    assert!(!s.is_video_playing());
}

#[test]
fn test_volume_applies_to_decoder_and_persists() {
    let mut s = playing_session(0, 100_000);
    s.set_volume(700);
    assert_eq!(s.video_volume, 700);
    assert_eq!(s.current_video.as_ref().unwrap().as_ref().unwrap().volume, 700);

    // The next video comes up at the session volume.
    s.load_video(1);
    s.on_load_complete(1, ok_result("https://x/next"), opened(10_000), false);
    assert_eq!(s.current_video.as_ref().unwrap().as_ref().unwrap().volume, 700);
}

#[test]
fn test_volume_without_decoder_is_noop() {
    let mut s = VideoPlayerPage::new(queue(&["A"]), VideoOrder::Sequential(0));
    s.set_volume(700);
    assert_eq!(s.video_volume, 500);
}

#[test]
fn test_next_frame_tracks_position_outside_seeks() {
    let mut s = playing_session(0, 100_000);
    s.on_next_frame(1_234);
    assert_eq!(s.video_position, 1_234);

    s.seek(10_000);
    s.on_next_frame(999);
    assert_eq!(s.video_position, 10_000);

    s.on_seek_release();
    s.on_next_frame(10_500);
    assert_eq!(s.video_position, 10_500);
}

#[test]
fn test_update_dispatches_and_back_cancels() {
    let mut s = VideoPlayerPage::new(queue(&["A", "B", "C"]), VideoOrder::Sequential(0));
    let ctx = || UpdateContext { skip_on_error: true, open: DecoderOpen::NotAttempted };

    let c = s.update(VideoPlayerMessage::LoadVideo(1), ctx());
    assert_eq!(c.task, PlayerTask::Resolve { index: 1 });

    let c = s.update(
        VideoPlayerMessage::LoadComplete(1, err_result("boom")),
        ctx(),
    );
    assert_eq!(
        c.task,
        PlayerTask::Message(VideoPlayerMessage::SkipTimer(SKIP_TIMER_START, 2))
    );
    assert!(s.pending_skip.is_some());

    let c = s.update(VideoPlayerMessage::Back, ctx());
    assert_eq!(c.navigation, Navigation::GoBack);
    assert!(s.pending_skip.is_none());
}

#[test]
fn test_update_playback_controls() {
    let mut s = playing_session(0, 100_000);
    let ctx = || UpdateContext { skip_on_error: false, open: DecoderOpen::NotAttempted };

    let c = s.update(VideoPlayerMessage::VolumeUpdate(250), ctx());
    assert_eq!(c.task, PlayerTask::Idle);
    assert_eq!(s.video_volume, 250);

    let c = s.update(VideoPlayerMessage::PlayToggle, ctx());
    assert_eq!(c.task, PlayerTask::Idle);
    assert!(s.video_paused);

    s.update(VideoPlayerMessage::NextFrame(2_000), ctx());
    assert_eq!(s.video_position, 2_000);

    s.update(VideoPlayerMessage::Seek(7_000), ctx());
    assert!(s.seeking);
    let c = s.update(VideoPlayerMessage::SeekRelease, ctx());
    assert_eq!(c.seek_to, Some(7_000));
    // The gesture began while paused, so the decoder comes back paused.
    assert_eq!(s.current_video.as_ref().unwrap().as_ref().unwrap().paused, true);
}

#[test]
fn test_update_load_complete_with_open_decoder() {
    let mut s = VideoPlayerPage::new(queue(&["A", "B"]), VideoOrder::Sequential(0));
    let c = s.update(
        VideoPlayerMessage::LoadComplete(0, ok_result("https://x/a")),
        UpdateContext { skip_on_error: false, open: opened(60_000) },
    );
    assert_eq!(c, Command {
        task: PlayerTask::Idle,
        navigation: Navigation::StayOnPage,
        seek_to: Some(0),
    });
    assert!(s.is_video_playing());
    assert_eq!(s.video_index, 0);
}
