# sanctuary_player

A media player for recordings of matches. It hides how long a video is and what its title
gives away, remembers where each viewer stopped, and plays Twitch recordings over HLS.

`src/` is the library, verified with Verus. It holds what the player decides:

- `playback`: the transport, the seeks and their barriers, which frame is shown when, the
  queues between decoder and player, the qualities of a playlist, and what playback shows
  of itself
- `audio_timeline`, `audio_output`, `ring`: samples on the timeline of the media
- `app`: the state of the application, the user's commands, saved positions and sessions
- `ui`: what the widgets offer and where they stand
- `desktop`, `surface`, `input`: the window, its surface and its keys
- `android`: audio focus, the screen, touch, the keyboard, the bars of the system, hardware
  buffers and the activity as a whole
- `session`, `settings`, `persistence`, `logging`, `services`, `twitch`, `video`, `spoilers`,
  `time_format`: what is stored, sent and shown
- `double`: seconds as a number of double precision holds them, without floating point

Nothing in the library waits, draws or opens a file. It hands out requests and takes the
results back, so every decision is stated as a function from a state and an event to the next
state. Times are nanoseconds, rates and volumes hundredths, and samples the bits of a float.

`app/` is the program around it: the window, the widgets, the decoder, the audio device, the
network and the files. `tests/` runs the library with the crates that it calls.
