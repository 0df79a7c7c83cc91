# event_broker_sdk

A client for an event broker's `/event-broker/v1` HTTP surface, verified with Verus, and the
decisions of two programs around that broker: the `cf-evctl` command line and the usage-type
catalog of the usage collector.

The library in `src/` does no input or output. It plans each request as an `OutgoingRequest` and
reads each reply from a `Reply`; what runs over several exchanges (a list that comes in pages, a
consume session, a delete) is a step function from a state and an event to the next state.
`app/` sends, receives, prints and sleeps. It sends with `reqwest`, which stands for the toolkit's
own HTTP client (`toolkit_http`): that crate is not published. Where another part of the toolkit or
of the SDK is not published either, a comment in `app/` says what stands for it.

| module | what it holds |
| --- | --- |
| `client`, `endpoints`, `query` | where requests go and what they carry |
| `exchange`, `replies`, `listing` | what callers get from what came back |
| `api`, `models`, `wire`, `ids`, `error` | the types |
| `convert` | between bodies and the callers' types |
| `evctl` | the command line |
| `catalog`, `refresh`, `live` | the usage-type catalog |
| `text`, `uuids` | numbers, prefixes, trimming; uuids as text |
| `outside` | what is taken from other crates without proof |

Proof functions whose names begin with `law_` state what holds of the library as a whole.
