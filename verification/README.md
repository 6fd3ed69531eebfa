# anonvote-backend

The rules of a backend for anonymous voting on a Soroban contract, as a verified library, and the
service around it.

A round has proposals, a payout pool and three phases: voters register, ballots are cast, and once
the round is finalized the pool is split across the proposals by their share of the votes. The
backend relays registrations that voters have signed themselves, submits ballots with a
zero-knowledge proof, shows the tally of the chain, and pays out.

## Layout

```
src/                   the library: every decision, with its contract
  routes/rounds.rs       rounds, eligibility, phases and the tally
  routes/voters.rs       registration
  routes/votes.rs        ballots
  routes/payouts.rs      the payouts of a round
  routes/allocation.rs   the split of a pool by the largest-remainder method
  soroban_client.rs      the command lines of the `stellar` CLI and what its output means
  proof_service.rs       Poseidon2 hashes, the input of the solver and the prover, the proof
  field.rs               elements of the scalar field of BN254
  error.rs               errors and their answers over HTTP
  config.rs              configuration from the environment
  models.rs, state.rs    what rows, requests, responses and the routes hold
  text.rs, decimal.rs, hexadecimal.rs, json.rs, pattern.rs
tests/                 tests of the library
app/                   the service: database, child processes, HTTP
```

The library performs no input or output. A handler in `app/` asks it what to do, does it, and hands
back what came of it: a call of a program comes out as a `CliCall` and goes back in as a
`ProcessOutput`, and what is to be recorded comes out as a row.

What the library has from other crates stands behind functions whose contracts are stated and not
proved. Their doc comments say which function of which crate they call and what is claimed of it:
`text.rs` and `hexadecimal.rs` (the standard library and `hex`), `json.rs` (`serde_json`),
`pattern.rs` (`regex`) and `field.rs` (`soroban-sdk` and `soroban-poseidon`).

## Running

The service needs Postgres with the migrations under `./migrations`, the `stellar` CLI and, for
proofs on the server, `nargo` and a Barretenberg-compatible `bb`. It is configured by environment
variables, which `src/config.rs` lists, and by `BB_PROVE_ARGS`, a template of the prover's arguments
with `{circuit}`, `{witness}` and `{out}` for its paths.
