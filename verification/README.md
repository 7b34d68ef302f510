# r53-ddns

Keeps an Amazon Route 53 `A` record (and, with `-n`, a wildcard `CNAME`
record under it) pointed at the network's current external IP address.

- `src/` is the library, verified with Verus: the command line's meaning
  (`options`), hostname validation (`hostname`), the choice of address
  services and the reading of their replies (`address`), Route 53 names,
  queries, changes and listings (`route53`), one check as a state machine
  (`check`), the alert script's JSON documents (`alert`), snap handling
  (`snap`) and string helpers (`text`).
- `app/` is the program: argument parsing, logging, HTTP requests, the Route 53
  client, the alert script and the loop that runs a check step by step.
- `tests/` runs the library on concrete values.
