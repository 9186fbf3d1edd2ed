# psu

A client for programmable bench power supplies (the HM310P) driven over
Modbus RTU.

- `src/` is the verified library: the register table of each supply model
  (`sku`, `sku::hm310p`), feature lookup by name, access-mode parsing, the
  requests that commands turn into (`psu`), the decoding of the protection
  status register, and the choice of model and command from command-line
  words (`args`). `address_table` holds the consecutive-address table used to
  probe a device by hand.
- `app/` is the command-line program: option parsing, logging, the serial
  port and the asynchronous Modbus exchanges.
- `tests/` runs the library on concrete values.
