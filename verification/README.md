# casper_x402

The x402 payment protocol on Casper — HTTP 402 micropayments settled with EIP-3009-style
`transfer_with_authorization` on a CEP-18 token — with its logic verified in Verus.

## Layout

- `src/` — the verified library.
  - `uint`, `bytes`, `text`, `b64`: 256-bit integers and byte/text encodings (hex, decimal,
    base64 headers).
  - `message`: the 159-byte pre-image that a payer signs for the token contract.
  - `contract`: the CEP-18 token with `transfer_with_authorization` (replay protection,
    validity window, key and signature checks, balances and events).
  - `crypto`, `eip712`, `serde_address`: Casper keys and signatures, EIP-712 typed data for
    transfer authorizations, addresses as hex text.
  - `types`, `client`, `facilitator`, `resource`, `config`, `flow`: the protocol messages, the
    paying client, the facilitator's verification and settlement decisions, the resource
    server's answers, the demo configuration and the demo's four-step payment flow.
- `tests/` — tests of the library, run against the real outside crates.
- `app/` — the programs around the library: the facilitator service (`main facilitator`) and
  the demo's resource server and web UI (`main demo`), with HTTP, JSON, the clock, random
  nonces and the Casper node.

Each public function states what it returns in its `ensures`; the laws that span functions
(replay protection, conservation of tokens, read-back of what the client writes, soundness of
an accepted authorization, round trips of the encodings) are public proof functions beside
the code they speak of.
