# Summit

Summit is a consensus client that drives an EVM execution client through the Engine API. Validators
agree on blocks with the Simplex protocol; the execution client builds and executes the payloads
that the blocks carry.

## Layout

- `src/` is the verified library. It performs no I/O: it decides, and says what is to be done.
  - `types/`: blocks with their encoding and digest, the genesis and its committee.
  - `application/`: which block to propose, which to vote for, which to relay; who leads a view; which
    finalized blocks to execute; the calls of the Engine API.
  - `syncer/`: where blocks are stored, and where they are looked for.
  - `node/`: the command line, the configuration of the engine and the plan of a node.
  - `outside.rs`: the calls into other crates, each with the contract that is believed of it.
- `tests/` runs the library on concrete values.
- `app/` is the validator: it parses the command line, reads the files, and runs the network, the
  storage and the execution client as the library says.

## Use

```bash
# Generate a key, and show its public key
summit --key-path path/to/key keys generate
summit --key-path path/to/key keys show

# Start the validator
summit \
  --key-path /path/to/priv-key \
  --share-path /path/to/share \
  --store-path /storage/directory \
  --engine-jwt-path /path/to/evm/jwt.hex \
  --genesis-path /path/to/genesis.toml
```

The genesis file is a TOML file with the hash of the execution client's genesis block
(`eth_genesis_hash`), the public polynomial of the threshold key (`identity`), the timeouts
(`leader_timeout_ms`, `notarization_timeout_ms`, `nullify_timeout_ms`, `activity_timeout_views`,
`skip_timeout_views`), the `namespace` of the chain, and one `[[validators]]` table with a
`public_key` and an `ip_address` for each validator.
