# post_view

Listing and reading the posts of a link aggregator: who may read a post, which posts a query
lists, in which order, and how a client pages through them. The library is written in Verus. Every
function of it is verified, but for the five in `src/interval.rs`: they call diesel, and what their
contracts say of it is believed without proof.

## How it works

A `PostQuery` is turned into a `ListPlan`: conditions on posts, sort keys, cursors, a limit and an
offset. The database server carries the plan out. A page of the posts of all followed communities
is bounded first by a page of the largest of them, unless it is a page of saved posts, which are
ordered by the time they were saved; the steps are those of `listing::Step`.

What a plan means is defined over a `Database`, a snapshot of the tables. The library can also
answer queries from such a snapshot, which is what its tests do.

## Layout

- `src/policy.rs`: the rules, as specifications. Start here.
- `src/query.rs`: queries, and the plans they turn into.
- `src/plan.rs`, `src/order.rs`, `src/filter.rs`: plans and what they mean.
- `src/listing.rs`, `src/prefetch.rs`: listing posts step by step.
- `src/read.rs`, `src/view.rs`: reading a post, and what a viewer is shown of it.
- `src/cursor.rs`, `src/hex.rs`: pagination tokens.
- `src/tables.rs`, `src/lookups.rs`, `src/scan.rs`, `src/snapshot.rs`, `src/run.rs`: snapshots,
  and answering plans from them.
- `src/interval.rs`: spans of time, by way of diesel.
- `src/laws.rs`: what holds of listings as a whole.
- `app/`: the tables as diesel sees them, and the queries that carry out plans on the server.
