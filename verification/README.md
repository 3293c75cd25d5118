# vault_thresholds

Risk thresholds for a monitored vault, with permissioned reports and breach
events, verified with Verus.

A curator sets up a monitor for a vault and adds thresholds to it. An oracle
signer reports metric values. The first report in breach raises the flag of its
threshold and publishes one event; the flag stays up until the curator clears it.

| Instruction | Sender | What it does |
|---|---|---|
| `initialize_monitor` | curator | sets up the monitor, once per vault |
| `add_threshold` | curator | appends a threshold, sixteen at most |
| `update_metric` | oracle signer | records a value, publishes a new breach |
| `reset_breach` | curator | clears the flag of a threshold |
| `set_oracle_signer` | curator | hands the reports over to another key |

- `src/` is the verified library. `src/model.rs` says what each instruction does
  to a monitor, `src/instructions.rs` does it, and `src/laws.rs` states what holds
  over whole histories of requests. `src/program.rs` puts the check of the
  monitor's account in front. `src/address.rs` derives the address of an
  account and `src/codec.rs` reads and writes its bytes; both call `anchor_lang`
  through a few declared wrappers.
- `app/` is the on-chain program around it: account handling, the clock and the log.
- `tests/` runs the library on concrete values.
