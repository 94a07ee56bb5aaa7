# signal_wasm

The verified core of a WebAssembly bridge to the Signal protocol.

The bridge hands JavaScript keys, addresses, in-memory stores and protocol
operations. This library holds everything that the bridge decides: which input it
accepts, what each store holds after each operation, which error the caller sees and
under which code. Each of these is stated in a contract and proved with Verus.

What only the protocol implementation can compute comes in as a function: curve and
KEM arithmetic, ratchets, record encodings. A contract that takes such a function
says exactly what it is handed and what becomes of each of its outcomes, and, where
it works on a store, that the store is left as the function left it.

## Layout

| Module | Contents |
| --- | --- |
| `error` | errors, their messages and stable codes |
| `address`, `keys`, `ids`, `random` | device addresses, identity keys, UUIDs, random ids and bytes |
| `table` | records by key, the common part of the stores |
| `identity_store`, `session_store`, `pre_key_stores`, `sender_keys` | the stores |
| `pre_keys` | pre-keys and their generation |
| `messages`, `group_messages` | session set-up, encryption and decryption |
| `fingerprint` | safety numbers and scans |
| `groups` | group master keys and what is derived from them |
| `outside` | calls into other crates, with the contracts that are taken on trust |

Functions named `law_…` state what holds across several operations.

`app/` holds the exported JavaScript API, the adapters of libsignal's store traits to
the stores here, and the functions that call libsignal and zkgroup.
