# farcaster_node

The decisions of two daemons of a Farcaster swap node, which exchanges Bitcoin for Monero without
a third party. They are written in Rust with Verus contracts and proofs.

- `farcasterd` is at the centre of a node. It keeps the offers that are made and taken, launches
  the peer, swap and syncer daemons, asks the wallet for keys, starts swaps and cleans up behind
  them, and answers clients.
- `peerd` holds the connection to one peer. It passes messages between the peer and the other
  daemons and keeps the connection alive.

## How the library is used

A daemon never does anything to the world itself. Each request that it handles ends in a `Step`:
a request to send, a daemon to launch, coins to pay, a list to put into words, or the end of the
request, good or bad.
Whoever carries the step out hands the result back together with the value behind the step, and
gets the next step. So every decision is a function of the daemon's state and of what came back,
and its contract says what it does to the state and which step it ends in.

## Layout

- `src/farcasterd/state.rs`: the state as maps and sets, and each decision as a relation between
  the state before, the state after and the step.
- `src/farcasterd/runtime.rs`: the decisions themselves.
- `src/farcasterd/laws.rs`, `src/peerd/laws.rs`: what holds over more than one decision.
- `src/farcasterd/launch.rs`: the command lines of the daemons that are launched.
- `src/farcasterd/sweep.rs`: loops over the daemon's tables.
- `src/peerd/runtime.rs`: the peer daemon.
- `src/table.rs`: maps and sets with their views.
- `src/addr.rs`, `src/chain.rs`, `src/offer.rs`, `src/ident.rs`, `src/random.rs`: addresses,
  chains, offers, identifiers and random numbers, with the calls into outside crates.
- `src/rpc.rs`, `src/service.rs`: requests, services and buses.
- `tests/`: tests on concrete values.
- `app/`: the programs: sockets, processes and wallets around the library.

## What is not proved

The functions marked `#[verifier::external_body]` call outside crates. What is claimed of each call
is written above it, and the proofs rest on it.
