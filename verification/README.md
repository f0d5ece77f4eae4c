# ytstream

A Godot node that plays the audio of an online video: the downloader
(`yt-dlp`) streams the audio into a decoder (`ffmpeg`), whose raw samples are
buffered and handed to a Godot audio stream in stereo frames.

- `src/` is the verified library (Verus): checksum listings and SHA-256
  verification, the sample buffer and its per-cycle frame rule, the command
  lines and sample decoding of the helper processes, the install procedures
  of both helper programs as step machines with their laws, which archive
  entries become the decoder's executables, the acceptance of playback
  addresses and the play request, the turns of the processing loop, and the
  text of a panic report.
- `app/` is the unverified shell: the Godot class and engine objects,
  threads, child processes, files and HTTP, each driving the library's
  step functions.
- `tests/` exercises the library on concrete values.
