# smplx

Transaction assembly for Simplicity programs on Elements/Liquid, with its decisions
proved by Verus.

- `src/` is the verified library: the transaction under construction (inputs, outputs,
  change, issuances), policy-asset fee accounting, the fee-rate target lookup, the funding
  decisions of the signer (change or no change, dust, coin selection order and steps), the
  per-input signing plan, wallet descriptors, the reading of inputs and outputs handed in
  as hex (`encoding.rs`, `wallet_input_from_encoding`, `output_from_encoding`), and the
  laws that relate them (`laws.rs`). Hex, txid and asset-id parsing, output decoding,
  public-key parsing and issuance asset ids are done by `hex`, `elements` and `bitcoin`
  behind small trusted wrappers.
- `app/` holds what talks to the outside world: PSET assembly, keys and signatures,
  blockchain providers, floating-point fee rates, and the WebAssembly bindings.
- `tests/` exercises the library on concrete values.
