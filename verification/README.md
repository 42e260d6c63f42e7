# ids_monitor

A small intrusion detection monitor for TCP scans. `src/` is the verified
library (Verus); `app/` is the program around it: interface discovery, packet
capture, logging and the egui window.

Library modules:

- `interface`: the interfaces; the monitor listens on the one whose name the user chose.
- `packet`: Ethernet/IPv4/TCP header fields of a captured frame (read through `pnet`).
- `scan`: classification of segments as SYN, FIN, XMAS, NULL, ACK or window-signature scans.
- `detector`: per-source statistics, alert rate limiting and the step taken for each packet.
- `monitor`: one step of the capture loop (inspector summary plus detection).
- `alert`, `text`: alerts and their text (decimal numbers, addresses, clock times).
- `ipv4`, `whitelist`: addresses, trusted sources.
- `ui`: the bounded alert and packet logs and the pause switch behind the window.
- `laws`: properties that hold across packets and calls.
