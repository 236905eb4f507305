# saga_coordinator

The saga coordinator of a marketplace: one HTTP request (create an account, a
store or orders, moderate a store, apply billing's reports, ...) becomes a
series of calls to the marketplace's microservices, and a failure part-way
undoes what was done.

The library (`src/`) is written in Verus and verified. Every request starts a
saga: a state machine that names its next call, takes the outcome of that call
and names the next one, until it finishes with a result or a failure (and, for
the sagas that create things, the calls that undo them). The contracts say, for
every outcome, which call comes next and what it carries.

- `routes`, `controller`: which endpoint a request reaches, its time limit and
  the headers of its calls.
- `microservice`: the calls, where each goes, and the kinds of answers.
- `services`: the sagas (`store_create`, `account_create`, `order_create`,
  `order_update`, `moderation`, `carts`, `account_requests`), the e-mails about
  orders (`order_notify`), and the services that start them (`impls`).
- `validation`, `errors`: what a refusal of a microservice turns into.
- `http`, `config`, `models`, `ids`, `text`: headers, configuration, the
  values that travel, identifiers and texts.

`app/` is the server around the library: it loads the configuration, reads
requests and answers as JSON, makes the calls with `hyper`, and runs each saga
to its end. `tests/` exercises the library on concrete values.
