# vane_core

The core of a research assistant that works with Ollama Cloud and with local
Ollama servers, verified with Verus.

The library decides and a host acts. It picks the model for a question, makes
the requests, chooses search terms, puts sources into a bounded context, turns a
streamed reply into an answer, and encrypts settings. Contracts state what the
functions return, and Verus proves them, with two limits:

- What the calls into other crates return is trusted, not proved: JSON, URL and
  base64 parsing, SHA-256, ChaCha20-Poly1305, the random number source, and two
  functions of std. The doc comment of each such item says what it claims.
- `encrypt_settings` and `fresh_salt` draw random bytes. They state what holds of
  every outcome; `seal_settings` and `salt_of` are exact for what was drawn.

- `src/`: the verified library
  - `records`, `errors`, `text`, `lists`: data, errors, and operations on text
    and sequences
  - `models`, `routing`: model ids, capabilities, and which model answers
  - `api`, `chat`, `servers`: requests, conversations, and server addresses
  - `images`, `sources`, `stream`, `turn`: a research turn, step by step
  - `vault`, `salt`, `shell`: stored settings and what the shell does with them
- `tests/`: tests of the library with the crates that it calls
- `app/`: HTTP, files, the Tauri shell, and the UniFFI bindings

Two promises that the proofs cover: an API key is sent to Ollama Cloud and
nowhere else, and images reach a model that advertises vision or the question is
answered with an error.
