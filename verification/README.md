# libredfish

Manages servers through the Redfish interface of their BMCs: accounts, power, boot
order, BIOS and BMC settings, lockdown, firmware and inventory, for Dell and
Supermicro machines and for what the Redfish standard has for all of them. The
library is written in Verus, and what it does is proved.

## How it works

The library performs no I/O. An operation takes an `Exchange`, which holds the
replies that have come in so far, and returns one of three things: its result, a
failure, or the request that has to be sent next and the kind of document that
answers it. Whoever runs the operation sends the request, adds the reply and calls
the operation again. Calls that need one request only return that request.

The contract of an operation is a `Flow`: a function from the replies, as a sequence
in ghost code, to the result, the failure or the next request. It fixes every
request, its body and the order in which the requests are sent.

## Layout

- `src/exchange.rs`, `src/replay.rs`: requests, replies and flows, and why what is put
  together from them can be called again
- `src/*_replay.rs`: for the flow of each operation, that once it has finished it
  finishes in the same way whatever replies are added
- `src/json.rs`, `src/jsonmap.rs`, `src/text.rs`, `src/search.rs`, `src/order.rs`,
  `src/boot.rs`: values and algorithms that the operations share
- `src/model.rs`, `src/error.rs`: the documents and the failures
- `src/standard.rs`, `src/requests.rs`, `src/inventory.rs`: the Redfish standard
- `src/dell*.rs`, `src/supermicro*.rs`: the machines of the two vendors
- `src/*_laws.rs`: what holds of several operations together, such as that what was
  written is read back
- `src/outside.rs`: the calls into other crates, with what is believed of them
- `tests/`: the library on concrete replies
- `app/`: the HTTP client that runs the operations
