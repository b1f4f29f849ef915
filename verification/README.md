# Dispute escalation

Payment disputes on three escalation tiers. Every phase has a deadline, anyone
may put a lapsed dispute before the admin or close it, and a ruling at the last
tier is final.

* `src/` is the library: the lifecycle's rules, the contract's calls proved to
  follow them, and the laws that hold of every sequence of calls. Nothing in it is
  taken on trust.
* `app/` puts the library on Soroban. It takes authorisation, storage, the clock
  and events from the host and leaves every decision to the library.
* `tests/` runs the calls on concrete ledgers.

The library works on `Env`, the ledger as one call sees it: who authorised the
call, the time, the contract's entries and the events published so far. Each call
requires that its caller authorised it, and that a window it opens ends at a time
a 64-bit clock can show.
