# omniform

Omniform converts video and audio from many platforms into common formats
(MP4, WebM, MP3, WAV, FLAC, M4A, OGG) by driving yt-dlp and ffmpeg, which it
downloads into its own data folder on first launch.

- `src/` is the library, verified with Verus: parsing yt-dlp's progress
  output, building its command lines, deciding how a download ended, the
  steps that install yt-dlp and ffmpeg, locating ffmpeg inside its archive,
  and the download history.
- `tests/` runs the library on concrete inputs.
- `app/` is the Tauri shell: commands, processes, files, network and events,
  calling the library for every decision.
