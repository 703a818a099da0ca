# openfang_adapters

The decisions behind two edges of an agent runtime, verified with Verus:

- **Provider health.** Which HTTP requests find out whether a provider (Ollama, vLLM, LM
  Studio, llama.cpp) is up, which models it serves and how large their context windows are;
  what the answers amount to; how long a result may be reused.
- **Keybase chat.** Which events of `keybase chat api-listen` are messages to deliver, what
  they say, and which documents are sent back through `keybase chat api`.

`src/` is the verified library. It makes no request and starts no process: it says what to do
next and takes in how it went.

| module | what it holds |
| --- | --- |
| `text` | trimming, splitting, decimal numbers, lower case |
| `json` | JSON values, parsing through `serde_json` |
| `provider_health` | discovered models, probe results, local providers |
| `discovery` | model listings and context windows in answers |
| `probe`, `probe_laws` | the steps of a probe, and what holds of all of them together |
| `probe_cache` | results kept for a time, in a `DashMap` |
| `model_probe` | the completion request that probes one model |
| `channel` | channel messages |
| `keybase`, `keybase_laws` | incoming events, and what holds over many of them, and of sending |
| `keybase_api` | payloads and answers of the chat API, and how a text is sent in pieces |

`app/` holds the requests, the subprocesses and the tasks. `tests/` runs the library on
concrete values.
