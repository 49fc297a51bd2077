# replay_buffer

The replay buffer of a screen recorder. While a window that the user has named is on the
screen, the recorder writes its picture and sound in short segments; the buffer keeps the
segments of the last seconds, and on request it saves them as a clip.

`src/` is the library. It is written in Verus: what each function returns and changes is
stated in its contract and proved.

- `settings`, `targets`: what the user has set up, and which window it names.
- `paths`, `segments`: the segments of a session on their timelines, which files are
  protected, and which are no longer needed.
- `clip`: the segments of a clip.
- `manager`, `session`, `saving`, `materialize`: what to do next, from what is known so
  far, while the buffer is looked after, a session is started or stopped, or a clip is
  saved.
- `*_laws`: what is true of several of these together.
- `text`: trimming and comparing text.

Times are whole nanoseconds.

`app/` is ordinary Rust around the library. It asks the operating system, the recorder and
the disk, and does what the library decides. The module `shell` ties it to the Tauri
application and is compiled where that is built.
