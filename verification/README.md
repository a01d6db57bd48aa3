# TermPlayer

A music player for the terminal. What the player decides and shows is a library
verified with Verus; the program around it plays the sound, reads the files and
draws on the terminal.

- `src/model.rs`: the player as a mathematical state, and what each key and each
  report of the audio side does to it.
- `src/player.rs`: the player itself, proved to do what the model says.
- `src/shuffle/`: the xorshift generator behind shuffling, and the proof that it
  has full period, by which every draw for another track comes to an end.
- `src/track.rs`: which files count as audio files, and what tags make of them.
- `src/order.rs`: which of the files in a directory make up the playlist, and in
  which order.
- `src/volume.rs`: the steps of the volume.
- `src/text.rs`, `src/screen.rs`, `src/layout.rs`: everything that is shown.
- `src/startup.rs`: how the program starts.
- `src/laws.rs`: what holds of the player as a whole.
- `app/`: the program.

Times are spans of nanoseconds. The volume is kept in parts of full volume, as
many as a gain in single precision needs, and is shown in whole percent.
