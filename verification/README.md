# Pipitor

A bot that watches Twitter users, a Twitter list and Web feeds, and passes on what they post: Tweets
are Retweeted, and entries of feeds are announced in Tweets, by the accounts that its manifest names.
Feeds are followed with WebSub, where a hub delivers signed updates.

The logic is a library, written in Rust and proved with [Verus](https://github.com/verus-lang/verus):

- `manifest`, `router`, `rules`, `pattern`, `value`, `paths`, `socket`, `uri`: the manifest, how it is
  read, and which posts it routes where.
- `feed`: feeds in Atom and RSS.
- `websub`: discovery of hubs, requests to them, the callbacks that they call, the tables of
  subscriptions and the times of their renewals.
- `twitter`: requests to the API and their authorization, the interval and the timeline of a list,
  and the text of Tweets.
- `app`: the state of the program, how its manifest is replaced while it runs, what it sends, and what
  it waits for.
- `cli`: the decisions of the commands.
- `strings`, `bytes`, `decimal`, `encoding`, `sets`, `time`, `poll`, `body`, `first`: what the others
  build on.

Each function states in its contract what it returns or changes. Laws that span functions are public
proof functions beside them. What the proofs rest on are the contracts of the functions marked
`external_body`; the comment above each names the function of another crate that it calls, and what is
believed of it.

`app/` is the program around the library: it reads files, talks to the database, to Twitter and to the
hubs, and runs the loops whose decisions the library makes. `tests/` runs the library on examples.
