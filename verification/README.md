# muxrd

The logic of a daemon that puts terminal multiplexers within reach of a phone: it
drives herdr over its two sockets, relays one terminal at a time, follows what the
agents in the panes are doing, and notifies registered devices when one of them wants
attention.

What decides or computes is in `src/` and verified with Verus, with one exception: the
token bucket of the rate limiter computes with floating-point numbers and is in `app/`.
What reads, writes, waits or sleeps is in `app/` too, which performs what the library
asks for and hands back what happened.

## Layout

| Module | What it holds |
|---|---|
| `multiplexer::backend`, `types`, `events` | what every backend offers, the neutral view of tabs and panes, the events |
| `multiplexer::herdr::control`, `query`, `listing` | which JSON-API request an operation sends and what the responses come to |
| `multiplexer::herdr::layout`, `registry` | herdr's layout as a client sees it, and the numeric ids of panes and tabs |
| `multiplexer::herdr::wire`, `wire_format`, `codec` | frames and messages of the terminal relay |
| `multiplexer::herdr::relay` | where an attach lands, the handshake, and moving it to another terminal |
| `multiplexer::herdr::subscribe`, `pushed`, `panes`, `resync`, `lines` | the event kernel: two subscriptions, kept complete and alive |
| `notify::devices`, `notify::sender` | the device registry and the notifier |
| `ratelimit` | the switches of the rate limiter |
| `text`, `seqs` | texts and sequences |

Functions named `law_…` state what holds of several functions together.

## What is taken on trust

Six functions call out of the verified code, and their contracts are believed:
`json::string_at`, `json::value_at` and `json::object_text` (`serde_json`),
`codec::varint_bytes` and `codec::leading_varint` (`bincode`), and `text::utf8_text`
(`String::from_utf8`).
