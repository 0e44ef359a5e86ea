# punktfunk-webos menu

The logic of a TV client's menu for game streaming: a sidebar of hosts, a grid of games, and the
modals over them. Every function of `src/` carries a contract that Verus proves.

The menu is a value, `App`, with a mathematical model, `AppV`. An event, a tick or an answer from
the background takes the menu to the next one; the function that does so says in its `ensures` which
one, over the model. Work that the menu cannot do itself (a request, a file, a frame of video) is
asked for as an `Effect`, and its answer comes back as a plain value. Time is a number of
milliseconds.

- `src/model.rs`, `src/slots.rs`, `src/flags.rs`, `src/nav.rs`: the data.
- `src/grid.rs`, `src/library.rs`, `src/knownhost.rs`, `src/hosts.rs`, `src/scroll.rs`: the grid's
  arithmetic, the shelves and the host list.
- `src/app.rs`, `src/home.rs`, `src/startup.rs`, `src/jobs.rs`, `src/dispatch.rs`, `src/frame.rs`:
  the menu as a whole.
- One file per screen: `hostmenu`, `hostpower`, `wake`, `speedtest`, `addresses`, `cardmenu`,
  `collections`, `profiles`, `profilepick`, `settingspage`, `pagespecs`, `hdr`, `about`, `sendlogs`.
- `src/cards.rs`, `src/listcards.rs`, `src/homeview.rs`, `src/gridprep.rs`, `src/tiles.rs`,
  `src/drawcache.rs`, `src/pointer.rs`: what is drawn, what is redrawn, what is kept between frames,
  and what the pointer hits.
- `src/metadata.rs`, `src/notices.rs`: the dependency graph, and the third-party notices; `src/sorting.rs`, `src/seqs.rs`, `src/text.rs`,
  `src/wrapping.rs`: what the rest is built on.

The laws that relate several functions are the proof functions named `law_…`.

`app/` is the ordinary Rust around the library, and `tests/` runs it.
