# Telepass

A self-hosted password manager driven through a Telegram bot, written as a Verus library
with its contracts proved, and a thin executable around it.

- `src/` — the verified library:
  - `crypto` encrypts payloads with AES-256-GCM under a PBKDF2-derived key;
  - `rated`, `last_seen`, `sorted`, `cache` hold the password storage's cache: a bounded,
    usage-rated record set and the sorted list of resource names;
  - `storage`, `db` decide how the storage services answer requests and failures;
  - `command`, `message`, `button`, `markdown`, `keyboard` read what the user sends and
    build what the bot shows;
  - `state`, `dialogue` are the bot's dialogue: each transition is a small state machine that
    asks the caller to perform requests and continues with their replies;
    `unauthorized`, `authorized`, `sign_in` are the dialogue of a bot that asks for an admin
    token first;
  - `show` and `submit` are the logic of the Web App's pages: reading the `/show` query and
    decrypting its record, and preparing a new record; `web` holds what they share.
- `app/` — the bot executable: Telegram and gRPC I/O, JSON, and the loop that performs the
  dialogue's requests.
- `tests/` — tests of the library.
