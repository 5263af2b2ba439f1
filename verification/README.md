# windows_record

A recorder for one window: it duplicates the output that shows the window,
captures the sound of the window or of the desktop and that of a microphone,
and writes both to a file. On request it keeps the last stretch at hand and
saves it as a replay.

- `src/` is the library. It decides: which window is meant, when a frame is
  due and when one is sent twice, which samples are mixed and how, what the
  replay buffer keeps, how media types are set up, and in which order a
  recording is started and ended. Every function has a contract that Verus
  proves. Where the system has to act in between, the library is a state
  machine: `action` says what to do next, and `advance` takes what came of it.
- `tests/` runs the library on concrete values.
- `app/` is the program around it. It carries out the actions with the
  Windows API and hands the outcomes back.

Laws that span several functions stand as public proof functions next to the
functions that they speak of.
