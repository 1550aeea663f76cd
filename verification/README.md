# Peersey

The rules of a peer-to-peer messaging and content sharing library, verified with
[Verus](https://github.com/verus-lang/verus), and the node that follows them.

- `src/` decides and computes. It opens no socket and no file. Its functions have
  contracts that Verus proves, but for the small functions that call other crates:
  their contracts are trusted, and the one that draws random bytes promises nothing.
  - `room/`: keys of private rooms, names of public rooms, the coordinates where
    the members of a room meet, and the events of a room.
  - `content/`: the identity of a node, and links to shared files.
  - `live/`: packets, links, the streams on offer, and both sides of a live
    connection as state machines.
  - `address`, `payload`, `chance`, `hexadecimal`, `text`, `wire`: what these rest
    on. Calls into other crates stand here and beside the links, each behind one
    function whose doc comment says what is taken on trust.
- `tests/` runs the library on concrete values.
- `app/` is the node: it binds endpoints, reads files, waits and sends, and asks
  `src/` what to do. Its rooms need `iroh-gossip` and `iroh-gossip-rendezvous`, which
  the manifest does not list: with them the dependency tree outgrows what the library
  is built with. Add both to build the node.

The laws of the library are the proof functions whose names begin with `law_`.
