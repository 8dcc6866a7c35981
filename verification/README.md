# microps_rs

A small user-space TCP/IP protocol stack with a loopback device and a Linux tap device,
written in Verus: the packet formats, the checks made on received packets, the receive ring
of the loopback device, the device and interface registry and the decisions of the stack are
verified against their contracts.

Layout:

- `src/protocols`: the internet checksum, IPv4, ICMP and ARP;
- `src/devices`: device parameters, Ethernet headers, the loopback device and its ring;
- `src/platform`: the tap device (frames are built and read here; the file is driven by the
  program), times and interrupt lines;
- `src/interfaces`: IPv4 interfaces;
- `src/net`: the stack (devices, protocols, interfaces) and the context that runs it;
- `src/data_structure`: the read-copy-update cell that holds device state;
- `src/print.rs`: the hexadecimal dump of packets;
- `app/main.rs`: the program: it opens the tap device, reads and writes it, delivers receive
  interrupts and stops on Ctrl-C.
