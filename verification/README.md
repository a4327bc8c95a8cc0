# terminal-tube

A terminal client for YouTube live chat. `terminal-tube login` has the user authorize the program
in the browser and stores a token together with the client that can renew it; `terminal-tube chat`
shows the live chat of a video and sends what is typed.

- `src/` is the logic, verified with Verus: it decides, and its contracts say what.
  - `login`, `oauth`, `redirect`, `web`, `instant`: how a program comes by a token, what is stored,
    how the browser is sent and what it brings back, URLs, moments in time.
  - `youtube`, `poll`: what the YouTube Data API is asked, what its answers mean, and when it is
    asked again.
  - `tui`, `line`, `screen`: what the terminal shows, what keys do, and where things stand.
  - `video`, `text`, `tail`: the id of a video, and helpers on texts and sequences.
- `app/` carries the decisions out: files, browser, network, terminal and clock.
- `tests/` runs the library on examples, with the crates that it calls.
