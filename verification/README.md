# tx_agent

A control plane for Solana transactions whose decisions are verified with Verus.
It takes a transaction that is already signed, submits it unchanged as a Jito
bundle, follows what becomes of it, and lets an agent decide within fixed limits
whether to submit, wait, retry, abandon or escalate.

- `src/` is the library. Verus proves its functions against their contracts,
  which rest on the items that are taken on trust: those of `src/solana.rs`,
  `src/time.rs` and `src/jito/interceptor.rs`, behind which the Solana, base64,
  bs58, bincode, chrono and tonic crates do their work, and `String::push` in
  `src/text.rs`. Of a new key pair, which is drawn by chance, nothing is stated;
  of the time of day, only its range.
  - `stack`, `lifecycle`: checking a signed transaction, and its record.
  - `jito`, `networking`: tips, leaders, bundles, tokens, slots and statuses.
  - `agent`, `policy`, `host`, `server`: decisions, their limits, and the loop.
  - `report`: a run of real submissions and what is said of it.
  - `config`, `tx_factory`, `solana`, `text`, `json`, `time`: what these rest on.
- `app/` holds the programs around it: `tx_agent`, `agent_mcp`, `agent_host` and
  `hackathon_report`. The name of the executable picks one. To build them, add
  `solana-client`, `yellowstone-grpc-client` and `yellowstone-grpc-proto` to
  `Cargo.toml`.
- `tests/` runs the library.
