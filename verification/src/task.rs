//! A task that keeps a volume, until it is told to stop.
use vstd::prelude::*;

use crate::audio::FULL_VOLUME;
use crate::playback::PlayTaskCmd;

verus! {

/// A task that waits for commands; `E` is how what it runs can fail.
#[derive(Debug, PartialEq, Eq)]
pub struct PlayTask<E> {
    /// What the task runs, and how that went.
    pub current_task: Option<Result<(), E>>,
    /// The volume in hundredths.
    pub current_volume: u32,
}

impl<E> PlayTask<E> {
    /// Whether what the task runs has failed.
    pub open spec fn has_failed(self) -> bool {
        self.current_task matches Some(Err(_))
    }

    /// The task after a command, if one had come in.
    pub open spec fn after(self, command: Option<PlayTaskCmd>) -> PlayTask<E> {
        match command {
            Some(PlayTaskCmd::ChangeVolume { percent }) => PlayTask {
                current_task: self.current_task,
                current_volume: percent,
            },
            _ => self,
        }
    }

    /// A task that runs nothing yet, at full volume.
    pub fn new() -> (r: PlayTask<E>)
        ensures
            r.current_task is None,
            r.current_volume == FULL_VOLUME,
    {
        PlayTask { current_task: None, current_volume: FULL_VOLUME }
    }

    /// Takes a command, if one had come in, and says whether the task goes on: it ends when it is
    /// told to stop, or when what it runs has failed.
    pub fn step(&mut self, command: Option<PlayTaskCmd>) -> (r: bool)
        ensures
            *final(self) == old(self).after(command),
            r == (command != Some(PlayTaskCmd::Stop) && !old(self).has_failed()),
    {
        match command {
            None => {},
            Some(PlayTaskCmd::ChangeVolume { percent }) => {
                self.current_volume = percent;
            },
            Some(PlayTaskCmd::Stop) => {
                return false;
            },
        }
        match &self.current_task {
            Some(Err(_)) => false,
            _ => true,
        }
    }
}

/// The task after a row of commands.
pub open spec fn task_after<E>(start: PlayTask<E>, commands: Seq<Option<PlayTaskCmd>>) -> PlayTask<E>
    decreases commands.len(),
{
    if commands.len() == 0 {
        start
    } else {
        task_after(start, commands.drop_last()).after(commands.last())
    }
}

/// The volume last asked for, or the one at the start where none was.
pub open spec fn last_volume(start: u32, commands: Seq<Option<PlayTaskCmd>>) -> u32
    decreases commands.len(),
{
    if commands.len() == 0 {
        start
    } else {
        match commands.last() {
            Some(PlayTaskCmd::ChangeVolume { percent }) => percent,
            _ => last_volume(start, commands.drop_last()),
        }
    }
}

/// A task plays at the volume last asked for, and commands never make it fail.
pub proof fn law_task_keeps_the_last_volume<E>(
    start: PlayTask<E>,
    commands: Seq<Option<PlayTaskCmd>>,
)
    ensures
        task_after(start, commands).current_volume == last_volume(start.current_volume, commands),
        task_after(start, commands).current_task == start.current_task,
    decreases commands.len(),
{
    if commands.len() > 0 {
        law_task_keeps_the_last_volume(start, commands.drop_last());
    }
}

/// A volume that is asked for is the volume from then on; nothing else changes the task.
pub proof fn law_task_after_a_command<E>(task: PlayTask<E>, percent: u32)
    ensures
        task.after(Some(PlayTaskCmd::ChangeVolume { percent })) == (PlayTask {
            current_volume: percent,
            ..task
        }),
        task.after(Some(PlayTaskCmd::Stop)) == task,
        task.after(None) == task,
{
}

/// A task has failed exactly where what it runs gave an error.
pub proof fn law_task_failure<E>(volume: u32, why: E)
    ensures
        (PlayTask::<E> { current_task: Some(Err(why)), current_volume: volume }).has_failed(),
        !(PlayTask::<E> { current_task: Some(Ok(())), current_volume: volume }).has_failed(),
        !(PlayTask::<E> { current_task: None, current_volume: volume }).has_failed(),
{
}

} // verus!
