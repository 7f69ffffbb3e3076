# eclipsecon_mesh

The logic of a micro:bit Bluetooth mesh system (sensor nodes, a gateway, a
provisioning operator, converters and a simulator), written in Verus with
its behaviour stated in contracts and proved.

- `src/` is the verified library:
  - `sensor`: the sensor model's payload and its per-property byte codec;
  - `operator`: command topics, aliases, the provisioning plan for a device
    and what an event from the gateway does to a device's status;
  - `gateway`, `provisioner`, `node_configurator`: routing of messages and
    commands, the provisioning hold, and the configuration exchange;
  - `keys`, `pre_provision`: reading keys and UUIDs, and the data written
    to a node before it first boots;
  - `firmware`: the decisions of the firmware's mesh models;
  - `convert`: the converters, the simulator page and its settings;
  - `text`: lower-casing and hexadecimal text;
  - `external`: the outside items the library calls, with their contracts.
- `tests/` runs the library on concrete values.
- `app/` is the unverified I/O around it: JSON forms of the library's types,
  the operator's loop against the broker and the device registry, the
  converters' JSON, and the simulator's publishing.
