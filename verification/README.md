# tsbot

A music bot for TeamSpeak servers that is driven by chat messages. The library under `src/` is
verified with Verus; the program around it is under `app/`.

| Module | What it holds |
| --- | --- |
| `text` | text as rows of characters: trimming, splitting, removing, numbers |
| `command`, `command_laws` | what a chat message asks for |
| `media` | the programs that find and decode audio, and what is read from them |
| `audio` | samples, voice packets, pacing |
| `playback`, `playback_laws` | the course of one playback |
| `player`, `player_laws` | one playback at a time, and a queue of links |
| `relay`, `task` | a simpler bot that answers everything with one link |
| `server`, `connection` | what the server says, connecting |
| `lookup`, `startup` | looking for programs, what must be installed |

Playbacks, the player and the relay do nothing themselves: each step takes an event and names the
effect to carry out next. The program carries the effects out and hands the events back.

Volumes are whole hundredths of full volume. Scaling samples is floating-point arithmetic and
encoding them is Opus; both are left to the program.
