# QuickMute

A tray utility for Windows that mutes and unmutes the default capture
endpoint (the microphone) with a hotkey, shows the state as a red or green
tray icon, and plays a chime on every change.

The library (`src/`) holds the program's decisions, verified with Verus:

- `control.rs`: the controller. Each window message is routed (`route`), then
  handled by a session of the `Controller` state machine, which asks for one
  outside action at a time (`Effect`) and is told how it went (`Outcome`):
  acquiring the endpoint (default communications capture endpoint, else the
  console one), reading and writing the mute state with one retry after
  re-acquiring the endpoint, keeping the tray icon added, the 250 ms hotkey
  debounce, and turning away messages that arrive while a session is busy.
- `laws.rs`: what sessions guarantee, proved over a model of the outside
  world (a toggle flips the mute state and shows and announces the new one;
  every session ends; and more).
- `hotkey.rs`: reading the hotkeys from `config.ini`, the default
  configuration, hotkey registration ids, and the keyboard hook's verdict.
- `tray.rs`: icon colours, tip text, context menu entries, chimes.
- `text.rs`: trimming, splitting and case folding over characters.

`app/` is the Windows program around it: the Win32 window, message loop,
keyboard hook, COM audio calls, shell tray calls, GDI icon drawing and sound
playback. It carries out the controller's effects and hands back their
outcomes. The `windows` crate it uses is empty on other systems, so `app/`
builds on Windows only. The chimes are read at startup from `muted.wav` and
`unmuted.wav` beside the executable.
