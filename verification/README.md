# dolos

The logic of a Cardano data node, written in Verus so that its contracts are
proved rather than tested alone.

## Layout

- `src/` is the verified library.
  - `point`, `bytes`, `text`, `point_text`: chain points, their order, their
    forty-byte key form and their text form, with the round trips proved.
  - `wal`: which logged blocks a caller resuming at a point has not applied,
    the exponentially thinning intersection candidates, and lookups of
    points in a log. The logic of the write-ahead log store is here as
    functions over lists of points; the store trait itself is not.
  - `pparams`, `cost_models`, `query_params`: the protocol parameter set, the
    cost models it carries, and the local state query reply built from it.
  - `genesis`, `forks`: what the genesis files declare, and the ladder that
    moves a parameter set one protocol version at a time, from Byron to
    Dijkstra.
  - `proposals`: governance actions and protocol parameter updates read into
    what a node records.
  - `ledger`, `slice`: a ledger state store, the inputs a block reads from
    it, and the import of a batch of blocks into it. Two things here stand in
    for what the node does otherwise:
    - the store is held in memory, in place of the node's database store,
      whose source is not part of this project. How it applies, undoes and
      finalizes changes is this library's own rule, and its reads never
      fail;
    - the outputs that pay to an address come back as a `Vec` in which each
      is named once, in place of a `HashSet`.
    The import takes the computation of a block's change and the slot a
    tip makes final as functions, since neither is part of this project.
  - `relay`, `stream`: chainsync header envelopes, and the steps of a stream
    of chain events.
  - `epoch_params`: an epoch and its protocol parameters as the REST service
    renders them. A collateral percentage or a maximum number of collateral
    inputs past `i32::MAX` is refused rather than wrapped; every other number
    the service types as `i32` is narrowed with a wrap.
- `tests/` runs the library on concrete values.
- `app/` holds what stays outside the proofs: reading genesis files, the
  decimals those files write, JSON renderings, conversions to the
  `pallas` wire types, the reading of the blocks, transactions, updates,
  proposals and votes `pallas` decodes into the library's types, a block's
  governance reading through the proposal visitor, the parameter set at a
  protocol version, the JSON models of an epoch and its parameters with
  ratios as decimals, and the loop that drives a chain event stream.

## Not here

- Starting a crawl of local history forwards to a crawler whose source is
  not part of this project, so only the stream's decisions that follow it
  are in `src/`.
- The cancellation token of the serving tasks is async plumbing.
- The cost models rendered operation by operation: the table of operation
  names it reads is not part of this project, so the epoch parameters give
  only the raw cost vectors.
- Blocks of the Dijkstra era: the `pallas` release this project builds on
  decodes eras up to Conway, so a Dijkstra header is a parse error here.
