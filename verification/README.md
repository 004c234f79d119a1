# rust-virt-manager

A manager for KVM/QEMU virtual machines over libvirt: connections, machine
life cycle, consoles (VNC and serial), device editing, storage pools and
volumes, virtual networks, snapshots, cloning and migration.

## Layout

- `src/` — the library, verified with Verus. Every public function states
  its result in `ensures` over spec functions and views:
  - `uri`, `state`, `events` — connection URIs, the dialogs' state, and how
    the list of connections and machines follows the workers' reports;
  - `backend` — the commands sent to a connection's worker, the step the
    worker takes for each, the summaries and messages it reports;
  - `domain`, `devices`, `edit_state`, `xml_helpers`, `xml_scan` — the
    domain definition, its devices, the device editors and the edits made
    to a definition's XML text;
  - `views` — the decisions and the XML of each window: creation wizards,
    hardware, boot order, cloning, networks, pools, volumes, snapshots;
  - `console` — VNC keysyms and input events, the framebuffer and how
    server updates draw into it, the serial terminal's screen, SSH tunnels;
  - `qemu_capabilities` — what the emulator's help output offers.
  The proof functions named `lemma_*` and marked `pub` state properties of
  the library as a whole (an edit undone by its inverse, a list that
  settles, a description read back, a bounded history).
- `tests/` — tests of the library on concrete values.
- `app/` — the program: libvirt calls, worker threads, the VNC and serial
  sessions, reading and writing the settings, the domain XML as serde reads
  it, and a terminal front end.
