# claim_curve

Verified core of three small Solana programs built around a claim whose
price doubles with every timely claim and decays while nobody claims.

- `src/state.rs`: the claim account of the single-crate program, its byte
  layout and the claim rule (`claim_step`), with its laws.
- `src/lib.rs`: that program's instructions, errors and handlers.
- `src/main_program/`: the claim program of the two-program version: its
  account (`update_step`, the waiting depth curve), instructions and handlers.
- `src/token_hook/`: the hook program: its mint instruction, its handlers and
  how its entry reads instruction bytes.
- `src/runtime.rs`, `src/seeds.rs`: plain views of accounts, instructions and
  the steps that handlers hand back; address seeds.
- `src/outside.rs`: the calls into `solana-program`, `spl-token`,
  `spl-token-2022`, `spl-tlv-account-resolution` and
  `spl-transfer-hook-interface`, with the contracts that the proofs rely on.
- `app/`: the runtime side: account views from `AccountInfo`, carrying out
  the steps (rent, cross-program invocations, account data), and the borsh
  forms of the instruction and state types.
