use vacs::wav::{resampled_len, BlockStart, Fade, FrameEnd, FrameStep, Playhead};

/// Mixes a block of `frames` frames the way the audio callback does and returns every frame
/// that was played.
fn mix_block(p: &mut Playhead, frames: usize) -> (BlockStart, Vec<FrameStep>) {
    let start = p.begin_block();
    let mut played = Vec::new();
    if start != BlockStart::Play {
        return (start, played);
    }
    for _ in 0..frames {
        let step = p.next_frame();
        played.push(step);
        match step.end {
            FrameEnd::Released | FrameEnd::Finished => break,
            _ => {}
        }
    }
    (start, played)
}

fn started(len: usize) -> Playhead {
    let mut p = Playhead::new(len, 48_000, None);
    p.start();
    p
}

#[test]
fn ten_milliseconds_of_release_at_the_stream_rate() {
    assert_eq!(Playhead::new(10, 48_000, None).release_frames, 480);
    assert_eq!(Playhead::new(10, 44_100, None).release_frames, 441);
    assert_eq!(Playhead::new(10, 50, None).release_frames, 1);
    assert_eq!(Playhead::new(10, 48_000, None).update_interval, 4_800);
    assert_eq!(Playhead::new(10, 48_000, Some(500)).update_interval, 24_000);
    assert_eq!(Playhead::new(10, 44_100, None).update_interval, 4_410);
}

#[test]
fn stop_fades_out_over_the_release_and_then_goes_silent() {
    let mut p = started(48_000);
    let (_, played) = mix_block(&mut p, 480);
    assert_eq!(played.len(), 480);
    assert!(played.iter().all(|s| s.fade.is_none()));

    p.stop();
    let (_, played) = mix_block(&mut p, 480);
    assert_eq!(played.len(), 480);
    assert_eq!(played[0].fade, Some(Fade { remaining: 480, total: 480 }));
    assert_eq!(played[479].fade, Some(Fade { remaining: 1, total: 480 }));
    assert_eq!(played[479].end, FrameEnd::Released);
    assert!(played.windows(2).all(|w| w[1].fade.unwrap().remaining < w[0].fade.unwrap().remaining));
    assert!(!p.active);

    let (start, played) = mix_block(&mut p, 480);
    assert_eq!(start, BlockStart::Silent);
    assert!(played.is_empty());
}

#[test]
fn restart_while_playing_fades_out_then_plays_from_the_start() {
    let mut p = started(48_000);
    mix_block(&mut p, 9_600);
    assert_eq!(p.pos, 9_600);

    p.restart();
    let (_, played) = mix_block(&mut p, 960);
    assert_eq!(played.len(), 960);
    assert_eq!(played[479].end, FrameEnd::Restarted);
    assert_eq!(played[479].index, 10_079);
    assert_eq!(played[480].index, 0);
    assert_eq!(played[480].fade, None);
    assert_eq!(p.pos, 480);
    assert!(p.active);
}

#[test]
fn stop_near_the_end_of_the_clip_fades_from_the_current_level() {
    let mut p = started(500);
    mix_block(&mut p, 400);

    p.stop();
    assert_eq!(p.release_total, 100);
    let (_, played) = mix_block(&mut p, 200);
    assert_eq!(played.len(), 100);
    assert_eq!(played[0].fade, Some(Fade { remaining: 100, total: 100 }));
    assert_eq!(played[99].end, FrameEnd::Released);
    assert!(!p.active);
}

#[test]
fn stop_and_restart_on_a_finished_clip_do_not_fade() {
    let mut p = started(100);
    let (_, played) = mix_block(&mut p, 200);
    assert_eq!(played.len(), 100);
    assert_eq!(played[99].end, FrameEnd::Finished);
    assert!(!p.active);

    p.stop();
    assert!(!p.active && !p.releasing);
    p.restart();
    assert!(p.active && p.pos == 0 && !p.releasing);
}

#[test]
fn finished_source_stays_silent_when_started_again() {
    let mut p = Playhead::new(8, 48_000, Some(500));
    p.active = true;
    let (_, played) = mix_block(&mut p, 16);
    assert_eq!(played.len(), 8);
    assert_eq!(played[7].end, FrameEnd::Finished);
    assert!(!p.active);

    p.start();
    let (start, played) = mix_block(&mut p, 16);
    assert_eq!(start, BlockStart::Finished);
    assert!(played.is_empty());
    assert!(!p.active);
}

#[test]
fn progress_is_reported_on_the_update_interval() {
    // 2 ms at 1 kHz: every second frame.
    let mut p = Playhead::new(5, 1_000, Some(2));
    p.start();
    let (_, played) = mix_block(&mut p, 5);
    let ends: Vec<FrameEnd> = played.iter().map(|s| s.end).collect();
    assert_eq!(
        ends,
        vec![
            FrameEnd::Continue { report_progress: false },
            FrameEnd::Continue { report_progress: true },
            FrameEnd::Continue { report_progress: false },
            FrameEnd::Continue { report_progress: true },
            FrameEnd::Finished,
        ]
    );
}

#[test]
fn seeking_stays_inside_the_clip() {
    let mut p = started(100);
    p.skip(30);
    assert_eq!(p.pos, 30);
    p.skip(1_000);
    assert_eq!(p.pos, 99);
    p.rewind(9);
    assert_eq!(p.pos, 90);
    p.rewind(1_000);
    assert_eq!(p.pos, 0);
    p.skip(usize::MAX);
    assert_eq!(p.pos, 99);

    let mut empty = started(0);
    empty.skip(10);
    assert_eq!(empty.pos, 0);
}

#[test]
fn resampled_length_rounds_the_duration_up() {
    assert_eq!(resampled_len(44_100, 44_100, 48_000), 48_000);
    assert_eq!(resampled_len(48_000, 48_000, 44_100), 44_100);
    assert_eq!(resampled_len(4_800, 48_000, 96_000), 9_600);
    assert_eq!(resampled_len(22_050, 22_050, 48_000), 48_000);
    assert_eq!(resampled_len(1, 3, 2), 1);
    assert_eq!(resampled_len(0, 44_100, 48_000), 0);
}

#[test]
fn progress_is_reported_every_100_ms_by_default() {
    let mut p = started(48_000);
    let (_, played) = mix_block(&mut p, 9_600);
    let reports: Vec<usize> = played
        .iter()
        .filter(|s| s.end == FrameEnd::Continue { report_progress: true })
        .map(|s| s.index + 1)
        .collect();
    assert_eq!(reports, vec![4_800, 9_600]);
}
