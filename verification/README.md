# streamlink-video-launcher

A desktop launcher that plays or downloads a link (or opens a local file) with
streamlink or yt-dlp, keeps a watch history, and can install the missing tools.

- `src/` is the verified library: the launcher's state and its transition
  relation (`ui`), the player search, the watch job and the installation jobs
  as step machines (`platform`, `watch`, `install`), the command lines run for each backend and the meaning
  of their output (`platform`, `ytdlp`, `streamlink`), what the screens show
  (`screen`), the history (`history`) and the text functions they rest on
  (`text`).
- `app/` is the program around it: the iced window, running programs, the file
  system, the network (ureq), the file dialog (rfd) and the history file
  (serde_json). It carries out the library's decisions: the step machines name
  each piece of outside work, and the app performs it and hands back the result.
