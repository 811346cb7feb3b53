use tsbot::playback::PlayTaskCmd;
use tsbot::task::PlayTask;

#[test]
fn a_task_starts_at_full_volume() {
    let task: PlayTask<String> = PlayTask::new();
    assert_eq!(task.current_volume, 100);
    assert_eq!(task.current_task, None);
}

#[test]
fn a_task_keeps_the_last_volume_until_it_is_stopped() {
    let mut task: PlayTask<String> = PlayTask::new();
    assert!(task.step(None));
    assert!(task.step(Some(PlayTaskCmd::ChangeVolume { percent: 30 })));
    assert!(task.step(Some(PlayTaskCmd::ChangeVolume { percent: 60 })));
    assert!(task.step(None));
    assert_eq!(task.current_volume, 60);
    assert!(!task.step(Some(PlayTaskCmd::Stop)));
    assert_eq!(task.current_volume, 60);
}

#[test]
fn a_task_ends_when_what_it_runs_has_failed() {
    let mut task: PlayTask<String> =
        PlayTask { current_task: Some(Err("broken".to_string())), current_volume: 100 };
    assert!(!task.step(None));
    assert!(!task.step(Some(PlayTaskCmd::ChangeVolume { percent: 10 })));
    assert_eq!(task.current_volume, 10);
    task.current_task = Some(Ok(()));
    assert!(task.step(None));
}
