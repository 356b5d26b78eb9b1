# loomox

A web backend for a Proxmox VE cluster that provisions, lists and deletes per-group lab
environments (user group, resource pool, SDN zone, two virtual networks, VMs), and serves the
dropdown data (users, groups, roles, nodes, VMs, storage) of its front end.

Layout:

- `src/` is the library, verified with Verus. It holds the configuration loading, the naming
  rules of environments and their parsing back out of group names, the exact Proxmox requests
  of every client call, the plans of calls that create and delete environments and the state
  machine that runs them, the JSON answers of every endpoint, and HTTP Basic authorization.
- `app/` is the server around it: axum routes and handlers, the reqwest calls that the library
  plans, the SQLite settings store, `.env` and environment loading, logging.
- `tests/` runs the library on concrete values.
