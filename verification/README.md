# dpdk_net

The decision logic of a DPDK + smoltcp networking stack, written in Verus
and proved against its contracts.

- `src/` is the verified library: EAL argument building and the
  initialize-once bookkeeping (`eal`), Ethernet device configuration, the
  RSS redirection table and the bring-up plan (`eth`), the lcore table,
  iteration and launching (`lcore`), burst sizing (`queue`), mbuf length
  arithmetic (`mbuf`), the device's receive and transmit batches (`batch`,
  `device`), ARP reply parsing and building and the shared ARP cache
  (`arp`), the socket and reactor decisions (`tcp`), ephemeral ports and
  worker selection (`ports`), the application runner's checks and queue
  assignment (`dpdk_app`), the OS-thread bridge and the replies and relay
  decisions of its workers (`bridge`), the per-host
  connection pool (`pool`), and parsing the host's routing table and sysfs
  links (`host`, `gateway`).
- `app/` is the unverified glue around it: the DPDK calls through the
  `dpdk_net_sys` bindings, the smoltcp device, reactor and async sockets,
  the tokio runner and bridge tasks, and file reading. The replies, relay
  steps and checks it acts on come from the library.
- `tests/` runs the library on concrete values.
