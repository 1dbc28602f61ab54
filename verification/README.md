# protocol_testbench

A test bench for systems that talk MQTT, driven by a YAML test description,
written in Verus.

- `src/` is the verified library: the test description and its visitors
  (`definitions`), the Markdown documentation, the communication protocol
  with its typed parameters and template filling, the setup decisions and
  the playbook of a test run (`visitors`), run-time values (`runtime`),
  tables by name (`named_table`), text rendering and substitution (`text`),
  the Docker command lines and outcomes (`docker`) and broker events
  (`network`).
- `app/` is the program around it: reading the YAML file, writing the
  documentation, running `docker`, talking to MongoDB and to MQTT brokers.
- `tests/` runs the library on concrete descriptions.
