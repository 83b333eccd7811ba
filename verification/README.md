# linkerd_support

Decision logic for the test support of a service-mesh proxy, verified with Verus.

- `switch_ready`: a service that falls back to a secondary service while its
  primary one takes too long to become ready. `switch_laws` holds what is proved
  of every readiness check and of a service's whole life.
- `client`, `connect`, `uri`: the HTTP client that tests drive the proxy with:
  which requests it sends, how it connects, and how its task winds up.
- `identity`, `certificates`, `controller`: the identity that a proxy is given,
  and the controller that answers its certificate requests.
- `tls`, `uri`: the calls into rustls and http, with the contracts that are
  taken on trust.
- `policy`: the policy that a route rule carries.

The library performs no I/O. `app/` does: it polls, connects, reads files and
serves, as the library tells it to.
