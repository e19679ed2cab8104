# many-node

The decisions that a MANY node takes, verified with Verus.

A node has two programs. The ABCI bridge stands between a consensus engine and an
application server: it answers the engine's requests by asking the server. The
ledger server is such an application server.

Both programs alternate outside work (network, disk, codecs) with decisions. The
library in `src/` holds the decisions: most of its functions take an event, which
tells what happened, and give an action, which tells what to do next. `app/` runs
the loops: it performs the actions and hands the outcomes back as events.

## The ABCI bridge

| module | what it decides |
| --- | --- |
| `create` | how an application is created from a server's address |
| `bridge` | what an application is |
| `url` | which server a text addresses |
| `query`, `deliver_tx`, `info`, `commit` | how these requests are answered |
| `block` | how the start of a chain, blocks and flushes are answered |
| `omni` | what the bridge and the server say to each other |
| `abci` | the messages of the engine |

## The ledger server's start-up

| module | what it decides |
| --- | --- |
| `log` | how much is logged |
| `store` | whether the store is deleted, and which initial state is used |
| `balance`, `amount` | which balance a command-line argument sets |
| `modules` | which modules the server is made of |

`outcome` and `numbers` serve the others.

Each function has a contract over mathematical views of its arguments and its
result. What holds of a whole request, from its receipt to its answer and
whatever the outside work comes to, stands as a public proof function in the
request's module.

One thing is trusted and not proved: that what `reqwest` makes of the text of an
address depends on the text alone (module `url`).
