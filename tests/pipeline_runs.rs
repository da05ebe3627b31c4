use video_backend::models::TranscodeJobMessage;
use video_backend::pipeline::{accept_job, Action, Event, JobRun, Phase, TerminalUpdate};

const VID: u128 = 0xa1a2a3a4b1b2c1c2d1d2d3d4d5d6d7d8;
const VID_TEXT: &str = "a1a2a3a4-b1b2-c1c2-d1d2-d3d4d5d6d7d8";

fn job(names: &[&str]) -> TranscodeJobMessage {
    TranscodeJobMessage {
        video_id: VID,
        original_path: format!("{}/clip.mp4", VID_TEXT),
        resolutions: names.iter().map(|n| n.to_string()).collect(),
    }
}

/// Drives a run, feeding `fail` for the action at index `fail_at` and success
/// for every other one; returns every action handed out.
fn drive(names: &[&str], fail_at: Option<usize>) -> (Vec<Action>, JobRun) {
    let (mut run, first) = accept_job(Some(job(names)), "/tmp/work").unwrap();
    let mut actions = vec![first];
    let mut i = 0;
    while run.phase() != Phase::Finished {
        let ev = if Some(i) == fail_at {
            Event::Failed("exit status: 1".to_string())
        } else {
            Event::Succeeded
        };
        actions.push(run.advance(&ev));
        i += 1;
        assert!(i < 100);
    }
    (actions, run)
}

fn finish(actions: &[Action]) -> TerminalUpdate {
    for a in actions {
        if let Action::Finish { update, .. } = a {
            return update.clone();
        }
    }
    panic!("no terminal update");
}

#[test]
fn scenario_a_two_resolutions_ready() {
    let (actions, _) = drive(&["360p", "720p"], None);
    match finish(&actions) {
        TerminalUpdate::Ready { resolutions, manifest_path, thumbnail_path } => {
            assert_eq!(resolutions.len(), 2);
            assert_eq!(resolutions[0].name, "360p");
            assert_eq!(resolutions[0].width, 640);
            assert_eq!(resolutions[0].height, 360);
            assert_eq!(resolutions[0].bitrate, 800);
            assert_eq!(resolutions[0].segment_path, format!("{}/360p", VID_TEXT));
            assert_eq!(resolutions[1].name, "720p");
            assert_eq!(resolutions[1].bitrate, 2500);
            assert_eq!(manifest_path, format!("{}/master.m3u8", VID_TEXT));
            assert_eq!(thumbnail_path, Some(format!("{}/thumbnail.jpg", VID_TEXT)));
        }
        other => panic!("expected ready, got {:?}", other),
    }
    assert!(matches!(actions.last(), Some(Action::Idle)));
}

#[test]
fn scenario_b_unknown_resolution_skipped() {
    let (actions, _) = drive(&["360p", "4k"], None);
    let encodes = actions.iter().filter(|a| matches!(a, Action::Encode { .. })).count();
    assert_eq!(encodes, 1);
    match finish(&actions) {
        TerminalUpdate::Ready { resolutions, .. } => {
            assert_eq!(resolutions.len(), 1);
            assert_eq!(resolutions[0].name, "360p");
        }
        other => panic!("expected ready, got {:?}", other),
    }
}

#[test]
fn scenario_c_encode_failure_fails_job() {
    // actions: mark, download, probe, encode 360p, publish 360p, encode 720p
    let (actions, _) = drive(&["360p", "720p"], Some(5));
    assert!(matches!(&actions[5], Action::Encode { output_dir, .. } if output_dir.ends_with("/720p")));
    assert!(matches!(&actions[6], Action::Cleanup { directory } if directory == &format!("/tmp/work/{}", VID_TEXT)));
    match finish(&actions) {
        TerminalUpdate::Failed { error_message } => {
            assert!(!error_message.is_empty());
            assert_eq!(error_message, "encoding 720p failed: exit status: 1");
        }
        other => panic!("expected failed, got {:?}", other),
    }
    assert!(!actions.iter().any(|a| matches!(a, Action::PublishManifest { .. })));
}

#[test]
fn download_failure_cleans_up_and_fails() {
    let (actions, _) = drive(&["360p"], Some(1));
    assert!(matches!(&actions[2], Action::Cleanup { .. }));
    assert!(matches!(finish(&actions), TerminalUpdate::Failed { .. }));
}

#[test]
fn thumbnail_failure_keeps_ready() {
    // mark, download, probe, encode, publish, manifest, thumbnail
    let (actions, _) = drive(&["360p"], Some(6));
    assert!(matches!(&actions[6], Action::Thumbnail { .. }));
    match finish(&actions) {
        TerminalUpdate::Ready { resolutions, thumbnail_path, .. } => {
            assert_eq!(resolutions.len(), 1);
            assert_eq!(thumbnail_path, None);
        }
        other => panic!("expected ready, got {:?}", other),
    }
}

#[test]
fn no_recognized_resolution_fails() {
    let (actions, _) = drive(&["4k"], None);
    assert!(!actions.iter().any(|a| matches!(a, Action::Encode { .. })));
    match finish(&actions) {
        TerminalUpdate::Failed { error_message } => {
            assert_eq!(error_message, "no requested resolution is in the catalog")
        }
        other => panic!("expected failed, got {:?}", other),
    }
}

#[test]
fn empty_dequeue_starts_nothing() {
    assert!(accept_job(None, "/tmp/work").is_none());
}

#[test]
fn run_starts_by_marking_processing() {
    let (run, first) = accept_job(Some(job(&["360p"])), "/tmp/work").unwrap();
    assert!(matches!(first, Action::MarkProcessing { video_id } if video_id == VID));
    assert_eq!(run.phase(), Phase::MarkingProcessing);
}

#[test]
fn actions_follow_the_documented_order() {
    let (actions, _) = drive(&["720p"], None);
    let dir = format!("/tmp/work/{}", VID_TEXT);
    match &actions[1] {
        Action::Download { source, destination } => {
            assert_eq!(source, &format!("{}/clip.mp4", VID_TEXT));
            assert_eq!(destination, &format!("{}/original", dir));
        }
        other => panic!("unexpected {:?}", other),
    }
    match &actions[2] {
        Action::Probe { input, args } => {
            assert_eq!(input, &format!("{}/original", dir));
            assert_eq!(args.len(), 6);
        }
        other => panic!("unexpected {:?}", other),
    }
    match &actions[3] {
        Action::Encode { output_dir, args } => {
            assert_eq!(output_dir, &format!("{}/720p", dir));
            assert_eq!(args[5], "2500k");
            assert_eq!(args[7], "5000k");
            assert_eq!(args[9], "10000k");
        }
        other => panic!("unexpected {:?}", other),
    }
    match &actions[4] {
        Action::Publish { directory, key_prefix } => {
            assert_eq!(directory, &format!("{}/720p", dir));
            assert_eq!(key_prefix, &format!("{}/720p", VID_TEXT));
        }
        other => panic!("unexpected {:?}", other),
    }
    match &actions[5] {
        Action::PublishManifest { key, text } => {
            assert_eq!(key, &format!("{}/master.m3u8", VID_TEXT));
            assert!(text.contains("BANDWIDTH=2500000,RESOLUTION=1280x720"));
        }
        other => panic!("unexpected {:?}", other),
    }
    match &actions[6] {
        Action::Thumbnail { output, key, .. } => {
            assert_eq!(output, &format!("{}/thumbnail.jpg", dir));
            assert_eq!(key, &format!("{}/thumbnail.jpg", VID_TEXT));
        }
        other => panic!("unexpected {:?}", other),
    }
    assert!(matches!(&actions[7], Action::Cleanup { .. }));
    assert!(matches!(&actions[8], Action::Finish { .. }));
    assert!(matches!(&actions[9], Action::Idle));
    assert_eq!(actions.len(), 10);
}
