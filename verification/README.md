# llm-stream-guard

Conservative replay-boundary tracking for streamed LLM responses, verified with
Verus.

The guard classifies each item of a stream before it hands that same item on,
and exposes a small snapshot that answers one narrow question: has enough
evidence been collected to authorize replaying the whole request? It performs no
prefetching, opens no connection, parses no SSE byte stream, keeps no response
body and never retries.

## The only allowing decision

| Caller contract | Output boundary | Terminal evidence | Poll in progress | Verdict |
| --- | --- | --- | --- | --- |
| `KnownSafe` | `Uncrossed` | `Failed(Transient)` | no | `Allow` |
| anything else | | | | `Deny` |

`laws::replay_is_authorized_exactly_if` states what this amounts to for the
whole history of a stream.

## Layout

- `src/observation.rs`: what one item means, and the `Classify` trait.
- `src/evidence.rs`: the mathematical model of replay evidence.
- `src/state.rs`: the state machine and its snapshots.
- `src/probe.rs`: the cell that a guard publishes in, and the probes that read it.
- `src/journal.rs`: the history of a stream, recorded and published as one.
- `src/stream.rs`: the guard.
- `src/laws.rs`: what holds of every history of a guarded stream.
- `src/openai.rs`, `src/openai/`: the classifier of already-framed
  OpenAI-compatible events, with its own laws in `src/openai/laws.rs`.
- `app/`: the guard as a `futures_core::Stream`.
- `tests/`: behaviour on concrete values.

## What is trusted

`serde_json` parses. The wrappers around it, in `src/openai/json.rs`, give its
results names and claim that they depend on the bytes that were parsed alone,
and that a text which is nested too deep is refused. The
lock behind the probes is vstd's. The guard records that the wrapper went away
when it is told so; `app/` tells it on drop.

Every probe of a stream reads the cell that its guard writes. What was written
there last is stated to be the evidence collected so far, and upstream and the
classifier are only called once it says that a poll is under way. A snapshot is
stated to be what a read of the cell saw; that it is the state written last is
left to the lock.
