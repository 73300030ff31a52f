# radarflow

A web radar for CS2 built on [memflow](https://github.com/memflow/memflow): it reads the
game's memory over a QEMU/KVM or PCILeech connector, follows the players and the bomb,
and serves their positions to a web page over a websocket.

The library in `src/` is verified with Verus. Every read of the game's memory is recorded
in a ghost log on the connection (`DmaCtx::reads`), so each function's contract says which
addresses it reads, in which order, and how its result follows from what came back.

## Layout

- `src/dma/`: the connection to the game (`context`, `process`, `trace`), entity lookups
  (`entity`, `address`, `bytes`), the entity cache (`cache`), one poll of the radar
  (`radar`), keeping to the poll rate (`pacing`) and the batched thread data
  (`threaddata`).
- `src/sdk/`: the game's classes and globals as the poll loop reaches them.
- `src/csflow/`: the same classes as the tick loop reaches them, and memflow cache
  validators (`cached_view`).
- `src/radarflow/`: the tick-synchronised loop (`dma`), its cache and its radar data.
- `src/cli.rs`, `src/comms.rs`, `src/websocket.rs`: command-line values, the data sent to
  clients, and how the websocket answers them.
- `app/`: the program: command line, offsets file, the DMA loop, the web server.
- `tests/`: tests of the library; `tests/game_memory.rs` runs the memory-reading code
  against a game image in memflow's dummy OS.

## Running

The program reads the offsets of the running game build from `offsets.json` in the
working directory: a JSON object with one number per field of `radarflow::offsets::Offsets`.

```
radarflow --connector qemu --port 8000 --web-path ./web --poll-rate 60
```
