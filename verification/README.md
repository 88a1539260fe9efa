# mpd_tui

A terminal client for the MPD music server, with its logic verified by Verus.

- `src/` is the verified library:
  - `time.rs`: `Span`, a nanosecond-precise length of time (points in time are
    spans from program start), with exact arithmetic;
  - `text.rs`: decimal numbers, padding, repeated characters, the `mm:ss` clock
    text, and the terminal width of text (through `unicode-width`);
  - `model.rs`: what the player reads of the server and of the keyboard, and
    the commands it sends;
  - `app.rs`: the application shell: quitting, terminal size, frame pacing;
  - `player.rs`: the player's state and every decision it makes on a key, a
    tick of the clock or a reply of the server;
  - `screen.rs` and `render.rs`: the screen as a list of drawing steps;
  - `laws.rs`: properties that span several functions.
- `app/main.rs` talks to the server (`mpd`), the terminal (`crossterm`) and the
  clock, and runs the library's plans and frames.
