# evo

The control plane of a steward: the process that administers a catalogue of
racks and shelves, admits plugins to them and answers consumers on a local
socket. The decisions of that process are a library written in Verus; every
function of it carries a contract that is proved.

## Layout

- `src/` is the verified library.
  - Wire: `requests`, `responses`, `happenings`, `happening_kinds`,
    `projections`, `frames`, `errors`, `json`, `codec`, `text`, `time`.
  - A request from frame to answer: `connection`, `dispatch`, `access`,
    `capabilities`, `op_tags`, and one module for each family of operations (`subjects`,
    `listings` on top of `paging`, `inventory`, `custody`, `lifecycle`,
    `reconciliation`, `interactions`, `schedules`, `grammar`, `resolution`,
    `plugin_requests`).
  - Streams: `subscription` (happenings), `subject_stream` (projections of one
    subject), `streams` (frames from producers to consumers).
  - Verbs and shelves: `source_verb_dispatch`, `shelf_dispatcher`.
  - State: `state`, `catalogue`, `claimant`, `server`.
  - What consumers see of plugins: `disclosure`.
- `app/` is the ordinary Rust around it: the socket, the signals, the JSON
  derives, and the loops that perform what the library asks for.
- `tests/` runs the library on concrete values.

## Reading the contracts

A long-running exchange is a machine: a function takes the state and an event
and gives the next state and what to do. `app/` does it and hands the outcome
back. Proof functions whose names begin with `law_` state what holds across
calls, such as that no happening is delivered twice, that pages cover every row
once, that no plugin name reaches the wire, or that the issuer which made a frame
can resolve every token in it from then on. Where the issuer is shared, every
borrower finds what it knew when it was shared; what it learnt from other
borrowers is not stated.

Functions marked `external_body` call an outside crate or the standard library.
Their contracts are taken on trust; each says which function it calls.
